use nft_escrow::{Contract, EscrowError, TransactionStatus, YOCTO_NEAR};

fn account(name: &str) -> String {
    name.to_string()
}

fn engine_with_sale() -> Contract {
    let mut engine = Contract::new(account("owner.near"));
    engine.create_transaction(
        account("eve.near"),
        account("bob.near"),
        account("carol.near"),
        100,
        account("x"),
        account("nft.near"),
    );
    engine
}

#[test]
fn first_transaction_is_number_zero_and_pending() {
    let mut engine = Contract::new(account("owner.near"));
    let record = engine.create_transaction(
        account("eve.near"),
        account("bob.near"),
        account("carol.near"),
        100,
        account("x"),
        account("nft.near"),
    );
    assert_eq!(record.transaction_id, 0);
    assert_eq!(record.creator_id, "eve.near");
    assert_eq!(record.seller_id, "bob.near");
    assert_eq!(record.buyer_id, "carol.near");
    assert_eq!(record.price, 100 * YOCTO_NEAR);
    assert_eq!(record.nft_id, "x");
    assert_eq!(record.nft_contract_id, "nft.near");
    assert!(!record.amount_in_escrow);
    assert!(!record.token_in_escrow);
    assert_eq!(record.transaction_status, TransactionStatus::Pending);
    assert_eq!(engine.get_transaction_by_id(0), Ok(record));
    assert_eq!(engine.total_transactions, 1);
}

#[test]
fn fee_and_total_of_the_first_sale() {
    let engine = engine_with_sale();
    assert_eq!(engine.get_transaction_fee_parameter(), 2);
    assert_eq!(engine.get_transaction_fee(0), Ok(2 * YOCTO_NEAR));
    assert_eq!(engine.get_price_plus_fee(0), Ok(102 * YOCTO_NEAR));
}

#[test]
fn seller_locks_funds_with_the_exact_deposit() {
    let mut engine = engine_with_sale();
    let locked = engine
        .transfer_to_lock(0, &account("bob.near"), 102 * YOCTO_NEAR)
        .unwrap();
    assert_eq!(locked.transaction_status, TransactionStatus::TokensLocked);
    assert!(locked.amount_in_escrow);
    assert!(!locked.token_in_escrow);
    assert_eq!(locked.transaction_id, 0);
    assert_eq!(locked.price, 100 * YOCTO_NEAR);
    assert_eq!(engine.get_transaction_by_id(0), Ok(locked));
}

#[test]
fn second_lock_fails_with_invalid_state() {
    let mut engine = engine_with_sale();
    engine
        .transfer_to_lock(0, &account("bob.near"), 102 * YOCTO_NEAR)
        .unwrap();
    let before = engine.clone();
    assert_eq!(
        engine.transfer_to_lock(0, &account("bob.near"), 102 * YOCTO_NEAR),
        Err(EscrowError::InvalidState)
    );
    assert_eq!(engine, before);
    assert_eq!(
        engine.get_transaction_by_id(0).unwrap().transaction_status,
        TransactionStatus::TokensLocked
    );
}

#[test]
fn second_lock_fails_whoever_calls_and_whatever_is_attached() {
    let mut engine = engine_with_sale();
    engine
        .transfer_to_lock(0, &account("bob.near"), 102 * YOCTO_NEAR)
        .unwrap();
    assert_eq!(
        engine.transfer_to_lock(0, &account("carol.near"), 102 * YOCTO_NEAR),
        Err(EscrowError::InvalidState)
    );
    assert_eq!(
        engine.transfer_to_lock(0, &account("bob.near"), 1),
        Err(EscrowError::InvalidState)
    );
}

#[test]
fn buyer_cannot_lock_funds() {
    let mut engine = engine_with_sale();
    let before = engine.clone();
    assert_eq!(
        engine.transfer_to_lock(0, &account("carol.near"), 102 * YOCTO_NEAR),
        Err(EscrowError::Unauthorized)
    );
    assert_eq!(engine, before);
}

#[test]
fn underpayment_and_overpayment_are_both_refused() {
    let mut engine = engine_with_sale();
    let before = engine.clone();
    assert_eq!(
        engine.transfer_to_lock(0, &account("bob.near"), 102 * YOCTO_NEAR - 1),
        Err(EscrowError::DepositMismatch)
    );
    assert_eq!(
        engine.transfer_to_lock(0, &account("bob.near"), 102 * YOCTO_NEAR + 1),
        Err(EscrowError::DepositMismatch)
    );
    assert_eq!(
        engine.transfer_to_lock(0, &account("bob.near"), 100 * YOCTO_NEAR),
        Err(EscrowError::DepositMismatch)
    );
    assert_eq!(engine, before);
    assert_eq!(
        engine.get_transaction_by_id(0).unwrap().transaction_status,
        TransactionStatus::Pending
    );
}

#[test]
fn lock_on_an_unknown_transaction_is_not_found() {
    let mut engine = engine_with_sale();
    let before = engine.clone();
    assert_eq!(
        engine.transfer_to_lock(1, &account("bob.near"), 102 * YOCTO_NEAR),
        Err(EscrowError::NotFound)
    );
    assert_eq!(engine, before);
}

#[test]
fn wrong_status_is_reported_before_wrong_caller_and_wrong_deposit() {
    let mut engine = engine_with_sale();
    assert_eq!(
        engine.transfer_to_lock(0, &account("carol.near"), 5),
        Err(EscrowError::Unauthorized)
    );
    engine
        .transfer_to_lock(0, &account("bob.near"), 102 * YOCTO_NEAR)
        .unwrap();
    assert_eq!(
        engine.transfer_to_lock(0, &account("carol.near"), 5),
        Err(EscrowError::InvalidState)
    );
}

#[test]
fn identifiers_count_up_from_zero() {
    let mut engine = Contract::new(account("owner.near"));
    for expected in 0..5u128 {
        let record = engine.create_transaction(
            account("eve.near"),
            account("bob.near"),
            account("carol.near"),
            1 + expected,
            account("x"),
            account("nft.near"),
        );
        assert_eq!(record.transaction_id, expected);
        assert_eq!(engine.total_transactions, expected + 1);
    }
    for id in 0..5u128 {
        assert_eq!(engine.get_transaction_by_id(id).unwrap().transaction_id, id);
        assert_eq!(
            engine.get_transaction_by_id(id).unwrap().price,
            (1 + id) * YOCTO_NEAR
        );
    }
    assert_eq!(engine.get_transaction_by_id(5), Err(EscrowError::NotFound));
}

#[test]
fn identifiers_are_not_given_again_after_a_cancellation() {
    let mut engine = engine_with_sale();
    engine.cancel(0, &account("eve.near")).unwrap();
    let next = engine.create_transaction(
        account("eve.near"),
        account("bob.near"),
        account("carol.near"),
        7,
        account("y"),
        account("nft.near"),
    );
    assert_eq!(next.transaction_id, 1);
    assert_eq!(
        engine.get_transaction_by_id(0).unwrap().transaction_status,
        TransactionStatus::Cancelled
    );
}

#[test]
fn an_engine_starts_empty_with_a_fee_of_two_percent() {
    let engine = Contract::new(account("owner.near"));
    assert_eq!(engine.total_transactions, 0);
    assert_eq!(engine.owner_id, "owner.near");
    assert_eq!(engine.transaction_fee, 2);
    assert_eq!(engine.get_transaction_fee_parameter(), 2);
    assert_eq!(engine.get_transaction_by_id(0), Err(EscrowError::NotFound));
    assert_eq!(engine.transactions_per_account(account("owner.near")), 0);
    assert!(engine.transaction_metadata_by_id.is_empty());
}

#[test]
fn counts_follow_the_creator() {
    let mut engine = Contract::new(account("owner.near"));
    assert_eq!(engine.transactions_per_account(account("eve.near")), 0);
    for _ in 0..3 {
        engine.create_transaction(
            account("eve.near"),
            account("bob.near"),
            account("carol.near"),
            10,
            account("x"),
            account("nft.near"),
        );
    }
    engine.create_transaction(
        account("bob.near"),
        account("bob.near"),
        account("carol.near"),
        10,
        account("x"),
        account("nft.near"),
    );
    assert_eq!(engine.transactions_per_account(account("eve.near")), 3);
    assert_eq!(engine.transactions_per_account(account("bob.near")), 1);
    assert_eq!(engine.transactions_per_account(account("carol.near")), 0);
    assert_eq!(engine.transactions_per_account(account("nobody.near")), 0);
}

#[test]
fn counts_do_not_shrink_on_cancellation() {
    let mut engine = engine_with_sale();
    assert_eq!(engine.transactions_per_account(account("eve.near")), 1);
    engine.cancel(0, &account("eve.near")).unwrap();
    assert_eq!(engine.transactions_per_account(account("eve.near")), 1);
}

#[test]
fn the_same_token_can_be_listed_twice() {
    let mut engine = engine_with_sale();
    let again = engine.create_transaction(
        account("eve.near"),
        account("bob.near"),
        account("carol.near"),
        100,
        account("x"),
        account("nft.near"),
    );
    assert_eq!(again.transaction_id, 1);
    assert_eq!(engine.total_transactions, 2);
}
