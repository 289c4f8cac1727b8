use nft_escrow::asset_check::{BASE_GAS, CALLBACK_GAS, NO_DEPOSIT};
use nft_escrow::contract::RESERVE;
use nft_escrow::{Contract, MyContract, OwnershipAnswer, PromiseOutcome, YOCTO_NEAR};

fn account(name: &str) -> String {
    name.to_string()
}

fn engine() -> Contract {
    Contract::new(account("owner.near"))
}

fn payload(text: &str) -> PromiseOutcome {
    PromiseOutcome::Successful(text.as_bytes().to_vec())
}

#[test]
fn a_positive_count_means_yes() {
    assert_eq!(engine().my_callback(&vec![payload("\"3\"")]), "yes");
    assert_eq!(engine().my_callback(&vec![payload("\"1\"")]), "yes");
    assert_eq!(
        engine().my_callback(&vec![payload("\"340282366920938463463374607431768211455\"")]),
        "yes"
    );
}

#[test]
fn a_count_of_zero_means_no() {
    assert_eq!(engine().my_callback(&vec![payload("\"0\"")]), "no");
    assert_eq!(engine().my_callback(&vec![payload(" \"000\" ")]), "no");
}

#[test]
fn a_failed_query_means_oops() {
    assert_eq!(engine().my_callback(&vec![PromiseOutcome::Failed]), "oops!");
}

#[test]
fn the_callback_of_the_trait_answers_alike() {
    let contract = engine();
    assert_eq!(MyContract::my_callback(&contract, &vec![payload("\"2\"")]), "yes");
    assert_eq!(MyContract::my_callback(&contract, &vec![PromiseOutcome::Failed]), "oops!");
}

#[test]
fn the_total_callback_answers_where_it_can() {
    let contract = engine();
    assert_eq!(
        contract.callback_answer(&vec![payload("\"12\"")]),
        Some(account("yes"))
    );
    assert_eq!(
        contract.callback_answer(&vec![payload("\"0\"")]),
        Some(account("no"))
    );
    assert_eq!(
        contract.callback_answer(&vec![PromiseOutcome::Failed]),
        Some(account("oops!"))
    );
}

#[test]
fn the_total_callback_gives_none_for_what_cannot_be_read() {
    let contract = engine();
    assert_eq!(contract.callback_answer(&vec![]), None);
    assert_eq!(contract.callback_answer(&vec![PromiseOutcome::NotReady]), None);
    assert_eq!(
        contract.callback_answer(&vec![payload("\"1\""), payload("\"1\"")]),
        None
    );
    assert_eq!(contract.callback_answer(&vec![payload("3")]), None);
    assert_eq!(contract.callback_answer(&vec![payload("\"-1\"")]), None);
    assert_eq!(contract.callback_answer(&vec![payload("\"three\"")]), None);
    assert_eq!(contract.callback_answer(&vec![payload("")]), None);
    assert_eq!(
        contract.callback_answer(&vec![payload("\"340282366920938463463374607431768211456\"")]),
        None
    );
}

#[test]
fn reading_an_outcome() {
    assert_eq!(payload("\"7\"").read(), Some(OwnershipAnswer::Yes));
    assert_eq!(payload("\"0\"").read(), Some(OwnershipAnswer::No));
    assert_eq!(PromiseOutcome::Failed.read(), Some(OwnershipAnswer::Failed));
    assert_eq!(PromiseOutcome::NotReady.read(), None);
    assert_eq!(payload("{}").read(), None);
    assert_eq!(payload("\"7\" x").read(), None);
}

#[test]
fn answers_from_counts_and_their_words() {
    assert_eq!(OwnershipAnswer::from_count(0), OwnershipAnswer::No);
    assert_eq!(OwnershipAnswer::from_count(1), OwnershipAnswer::Yes);
    assert_eq!(OwnershipAnswer::from_count(u128::MAX), OwnershipAnswer::Yes);
    assert_eq!(OwnershipAnswer::Yes.text(), "yes");
    assert_eq!(OwnershipAnswer::No.text(), "no");
    assert_eq!(OwnershipAnswer::Failed.text(), "oops!");
}

#[test]
fn the_query_names_account_and_contract() {
    let query = Contract::check_nft(account("bob.near"), account("example-nft.testnet"));
    assert_eq!(query.account_id, "bob.near");
    assert_eq!(query.nft_contract_id, "example-nft.testnet");
    assert_eq!(query.deposit, 0);
    assert_eq!(query.gas, 3_000_000_000_000);
    assert_eq!(query.callback_deposit, 0);
    assert_eq!(query.callback_gas, 5_000_000_000_000);
    assert_eq!(NO_DEPOSIT, 0);
    assert_eq!(BASE_GAS, 3_000_000_000_000);
    assert_eq!(CALLBACK_GAS, 5_000_000_000_000);
}

#[test]
fn a_payment_keeps_the_reserve_back() {
    assert_eq!(RESERVE, 20 * YOCTO_NEAR);
    let payment = Contract::pay(account("bob.near"), 25 * YOCTO_NEAR);
    assert_eq!(payment.receiver_id, "bob.near");
    assert_eq!(payment.amount, 5 * YOCTO_NEAR);
    assert_eq!(Contract::pay(account("bob.near"), 20 * YOCTO_NEAR).amount, 0);
    assert_eq!(
        Contract::pay(account("bob.near"), u128::MAX).amount,
        u128::MAX - 20 * YOCTO_NEAR
    );
}

#[test]
fn well_formed_account_identifiers() {
    let contract = engine();
    for id in [
        "aa",
        "a-a",
        "a-aa",
        "100",
        "0o",
        "com",
        "near",
        "bowen",
        "b-o_w_e-n",
        "b.owen",
        "bro.wen",
        "a.ha",
        "a.b-a.ra",
        "system",
        "over.9000",
        "google.com",
        "illia.cheapaccounts.near",
        "0o0ooo00oo00o",
        "alex-skidanov",
        "10-4.8-2",
        "b-o_w_e-n",
        "no_lols",
        "0123456789012345678901234567890123456789012345678901234567890123",
    ] {
        assert!(contract.verify_account_id(account(id)), "{}", id);
    }
}

#[test]
fn malformed_account_identifiers() {
    let contract = engine();
    for id in [
        "",
        "a",
        "A",
        "Abc",
        "-near",
        "near-",
        "-near-",
        "near.",
        ".near",
        "near@",
        "@near",
        "неар",
        "@@@@@",
        "0__0",
        "0_-_0",
        "0_-_0",
        "..",
        "a..near",
        "nEar",
        "_bowen",
        "hello world",
        "abcdefghijklmnopqrstuvwxyz.abcdefghijklmnopqrstuvwxyz.abcdefghijklmnopqrstuvwxyz",
        "01234567890123456789012345678901234567890123456789012345678901234",
    ] {
        assert!(!contract.verify_account_id(account(id)), "{}", id);
    }
}
