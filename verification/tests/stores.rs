use nft_escrow::{
    AccountIndex, Contract, EscrowError, StorageKeys, Transaction, TransactionMetadata,
    TransactionRegistry, TransactionStatus, YOCTO_NEAR,
};

fn account(name: &str) -> String {
    name.to_string()
}

#[test]
fn an_index_counts_each_transaction_once() {
    let mut index = AccountIndex::new();
    assert_eq!(index.count(&account("eve.near")), 0);
    index.record(&account("eve.near"), 0);
    index.record(&account("eve.near"), 1);
    index.record(&account("eve.near"), 0);
    index.record(&account("bob.near"), 1);
    assert_eq!(index.count(&account("eve.near")), 2);
    assert_eq!(index.count(&account("bob.near")), 1);
    assert_eq!(index.count(&account("carol.near")), 0);
    assert_eq!(index.accounts.len(), 2);
    assert_eq!(index.accounts[0].account_id, "eve.near");
    assert_eq!(index.accounts[0].transaction_ids, vec![0, 1]);
    assert_eq!(index.accounts[1].transaction_ids, vec![1]);
}

#[test]
fn recording_on_the_engine_changes_the_index_alone() {
    let mut engine = Contract::new(account("owner.near"));
    engine.add_transaction_to_user(&account("eve.near"), &7);
    engine.add_transaction_to_user(&account("eve.near"), &7);
    engine.add_transaction_to_user(&account("eve.near"), &9);
    assert_eq!(engine.transactions_per_account(account("eve.near")), 2);
    assert_eq!(engine.transactions_per_account(account("bob.near")), 0);
    assert_eq!(engine.total_transactions, 0);
    assert_eq!(engine.transaction_fee, 2);
    assert_eq!(engine.get_transaction_by_id(7), Err(EscrowError::NotFound));
}

#[test]
fn a_registry_numbers_its_records_and_replaces_them_whole() {
    let mut registry = TransactionRegistry::new();
    assert_eq!(registry.len(), 0);
    assert_eq!(registry.get(0), Err(EscrowError::NotFound));
    let first = registry.create(
        account("eve.near"),
        account("bob.near"),
        account("carol.near"),
        2,
        account("x"),
        account("nft.near"),
    );
    let second = registry.create(
        account("bob.near"),
        account("bob.near"),
        account("dave.near"),
        3,
        account("y"),
        account("nft.near"),
    );
    assert_eq!(first.transaction_id, 0);
    assert_eq!(second.transaction_id, 1);
    assert_eq!(second.price, 3 * YOCTO_NEAR);
    assert_eq!(registry.len(), 2);
    assert_eq!(registry.get(0), Ok(first.clone()));
    assert_eq!(registry.get(1), Ok(second.clone()));
    assert_eq!(registry.get(2), Err(EscrowError::NotFound));
    let replaced = Transaction {
        amount_in_escrow: true,
        transaction_status: TransactionStatus::TokensLocked,
        ..first
    };
    registry.put(replaced.clone());
    assert_eq!(registry.get(0), Ok(replaced));
    assert_eq!(registry.get(1), Ok(second));
    assert_eq!(registry.len(), 2);
}

#[test]
fn metadata_is_plain_data() {
    let metadata = TransactionMetadata { categories: account("art") };
    assert_eq!(metadata.clone(), metadata);
    assert_eq!(metadata.categories, "art");
}

#[test]
fn names_of_the_fixed_collections_are_one_byte() {
    assert_eq!(StorageKeys::TransactionsPerAccount.into_storage_key(), vec![0u8]);
    assert_eq!(StorageKeys::TransactionById.into_storage_key(), vec![2u8]);
    assert_eq!(StorageKeys::TransactionMetadataById.into_storage_key(), vec![3u8]);
}

#[test]
fn the_name_of_an_account_collection_carries_the_hash() {
    assert_eq!(
        StorageKeys::SubAccount { account_hash: vec![] }.into_storage_key(),
        vec![1u8, 0, 0, 0, 0]
    );
    assert_eq!(
        StorageKeys::SubAccount { account_hash: vec![0xaa, 0xbb, 0xcc] }.into_storage_key(),
        vec![1u8, 3, 0, 0, 0, 0xaa, 0xbb, 0xcc]
    );
    let long = StorageKeys::SubAccount { account_hash: vec![7u8; 0x01_02_03] }.into_storage_key();
    assert_eq!(long.len(), 5 + 0x01_02_03);
    assert_eq!(&long[..5], &[1u8, 3, 2, 1, 0]);
    assert!(long[5..].iter().all(|byte| *byte == 7));
}

#[test]
fn names_of_different_accounts_differ() {
    let first = StorageKeys::SubAccount { account_hash: vec![1u8; 32] }.into_storage_key();
    let second = StorageKeys::SubAccount { account_hash: vec![2u8; 32] }.into_storage_key();
    assert_ne!(first, second);
    assert_eq!(first.len(), 37);
    assert!(!first.starts_with(&second) && !second.starts_with(&first));
}

fn sale(transaction_id: u128, creator: &str) -> Transaction {
    Transaction::new(
        transaction_id,
        account(creator),
        account("bob.near"),
        account("carol.near"),
        4,
        account("x"),
        account("nft.near"),
    )
}

#[test]
fn an_engine_is_rebuilt_from_its_records() {
    let mut engine = Contract::new(account("owner.near"));
    for creator in ["eve.near", "bob.near", "eve.near"] {
        engine.create_transaction(
            account(creator),
            account("bob.near"),
            account("carol.near"),
            4,
            account("x"),
            account("nft.near"),
        );
    }
    engine.set_transaction_fee(&account("owner.near"), 7).unwrap();
    engine.transfer_to_lock(1, &account("bob.near"), 4 * YOCTO_NEAR + (4 * YOCTO_NEAR / 100) * 7).unwrap();
    let rebuilt = Contract::from_records(
        account("owner.near"),
        7,
        &engine.transaction_by_id.records,
    )
    .unwrap();
    assert_eq!(rebuilt, engine);
    assert_eq!(rebuilt.transactions_per_account(account("eve.near")), 2);
    assert_eq!(rebuilt.transactions_per_account(account("bob.near")), 1);
    assert_eq!(rebuilt.total_transactions, 3);
    assert_eq!(
        rebuilt.get_transaction_by_id(1).unwrap().transaction_status,
        TransactionStatus::TokensLocked
    );
}

#[test]
fn an_engine_without_records_is_rebuilt_empty() {
    let rebuilt = Contract::from_records(account("owner.near"), 2, &vec![]).unwrap();
    assert_eq!(rebuilt, Contract::new(account("owner.near")));
}

#[test]
fn records_out_of_place_are_not_taken_in() {
    assert_eq!(Contract::from_records(account("owner.near"), 2, &vec![sale(1, "eve.near")]), None);
    assert_eq!(
        Contract::from_records(
            account("owner.near"),
            2,
            &vec![sale(0, "eve.near"), sale(2, "eve.near")]
        ),
        None
    );
    assert_eq!(
        Contract::from_records(
            account("owner.near"),
            2,
            &vec![sale(0, "eve.near"), sale(0, "eve.near")]
        ),
        None
    );
}

#[test]
fn malformed_records_are_not_taken_in() {
    let free = Transaction { price: 0, ..sale(0, "eve.near") };
    assert!(!free.is_well_formed());
    assert_eq!(Contract::from_records(account("owner.near"), 2, &vec![free]), None);
    let flag_without_status = Transaction { amount_in_escrow: true, ..sale(0, "eve.near") };
    assert!(!flag_without_status.is_well_formed());
    assert_eq!(
        Contract::from_records(account("owner.near"), 2, &vec![flag_without_status]),
        None
    );
    let status_without_flag = Transaction {
        transaction_status: TransactionStatus::Completed,
        amount_in_escrow: true,
        ..sale(0, "eve.near")
    };
    assert!(!status_without_flag.is_well_formed());
    let completed = Transaction { token_in_escrow: true, ..status_without_flag };
    assert!(completed.is_well_formed());
    assert!(sale(0, "eve.near").is_well_formed());
    assert!(Contract::from_records(account("owner.near"), 2, &vec![completed]).is_some());
}

#[test]
fn pages_hold_each_transaction_once_in_the_order_of_recording() {
    let mut index = AccountIndex::new();
    for id in [4u128, 8, 15, 16, 23, 42, 8, 4] {
        index.record(&account("eve.near"), id);
    }
    index.record(&account("bob.near"), 1);
    assert_eq!(index.page(&account("eve.near"), 0, 2), vec![4, 8]);
    assert_eq!(index.page(&account("eve.near"), 2, 2), vec![15, 16]);
    assert_eq!(index.page(&account("eve.near"), 4, 2), vec![23, 42]);
    assert_eq!(index.page(&account("eve.near"), 6, 2), Vec::<u128>::new());
    assert_eq!(index.page(&account("eve.near"), 0, 100), vec![4, 8, 15, 16, 23, 42]);
    assert_eq!(index.page(&account("eve.near"), 5, usize::MAX), vec![42]);
    assert_eq!(index.page(&account("eve.near"), usize::MAX, usize::MAX), Vec::<u128>::new());
    assert_eq!(index.page(&account("eve.near"), 3, 0), Vec::<u128>::new());
    assert_eq!(index.page(&account("bob.near"), 0, 5), vec![1]);
    assert_eq!(index.page(&account("carol.near"), 0, 5), Vec::<u128>::new());
    assert_eq!(index.count(&account("eve.near")), 6);
}

#[test]
fn the_engine_lists_what_an_account_has_opened() {
    let mut engine = Contract::new(account("owner.near"));
    for creator in ["eve.near", "bob.near", "eve.near", "eve.near"] {
        engine.create_transaction(
            account(creator),
            account("bob.near"),
            account("carol.near"),
            4,
            account("x"),
            account("nft.near"),
        );
    }
    assert_eq!(engine.transactions_per_account.page(&account("eve.near"), 0, 2), vec![0, 2]);
    assert_eq!(engine.transactions_per_account.page(&account("eve.near"), 2, 2), vec![3]);
    assert_eq!(engine.transactions_per_account.page(&account("bob.near"), 0, 2), vec![1]);
}
