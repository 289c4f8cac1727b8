//! The names under which a host keeps the engine's collections in its
//! key-value store. The bytes of a name stand in front of every key of its
//! collection, so no two collections may ever share a key.

use vstd::prelude::*;

verus! {

/// Names a collection of the engine.
#[derive(Clone, Debug, PartialEq, Eq)]
pub enum StorageKeys {
    /// The index from accounts to their transactions.
    TransactionsPerAccount,
    /// The transactions of one account, which a hash of its identifier names.
    SubAccount { account_hash: Vec<u8> },
    /// The records of the transactions.
    TransactionById,
    /// The descriptive data of the transactions.
    TransactionMetadataById,
}

/// The four bytes of `length`, lowest first.
pub open spec fn length_bytes(length: nat) -> Seq<u8> {
    seq![
        (length % 256) as u8,
        ((length / 256) % 256) as u8,
        ((length / 65536) % 256) as u8,
        ((length / 16777216) % 256) as u8,
    ]
}

impl StorageKeys {
    /// Whether the name can be written down: a hash has a length that four
    /// bytes can hold.
    pub open spec fn fits(self) -> bool {
        self matches StorageKeys::SubAccount { account_hash } ==> account_hash@.len() <= u32::MAX
    }

    /// Whether `self` and `other` name the same collection.
    pub open spec fn same_as(self, other: StorageKeys) -> bool {
        match (self, other) {
            (StorageKeys::TransactionsPerAccount, StorageKeys::TransactionsPerAccount) => true,
            (
                StorageKeys::SubAccount { account_hash: mine },
                StorageKeys::SubAccount { account_hash: theirs },
            ) => mine@ == theirs@,
            (StorageKeys::TransactionById, StorageKeys::TransactionById) => true,
            (StorageKeys::TransactionMetadataById, StorageKeys::TransactionMetadataById) => true,
            _ => false,
        }
    }

    /// The bytes of the name: the number of the variant and, for an
    /// account's collection, the length of the hash and the hash.
    pub open spec fn key_bytes(self) -> Seq<u8> {
        match self {
            StorageKeys::TransactionsPerAccount => seq![0u8],
            StorageKeys::SubAccount { account_hash } => seq![1u8] + length_bytes(
                account_hash@.len(),
            ) + account_hash@,
            StorageKeys::TransactionById => seq![2u8],
            StorageKeys::TransactionMetadataById => seq![3u8],
        }
    }

    /// Writes the name down.
    pub fn into_storage_key(self) -> (bytes: Vec<u8>)
        requires
            self.fits(),
        ensures
            bytes@ == self.key_bytes(),
    {
        let mut bytes: Vec<u8> = Vec::new();
        match self {
            StorageKeys::TransactionsPerAccount => {
                bytes.push(0u8);
            },
            StorageKeys::SubAccount { account_hash } => {
                let mut account_hash = account_hash;
                let length: usize = account_hash.len();
                bytes.push(1u8);
                bytes.push((length % 256) as u8);
                bytes.push(((length / 256) % 256) as u8);
                bytes.push(((length / 65536) % 256) as u8);
                bytes.push(((length / 16777216) % 256) as u8);
                bytes.append(&mut account_hash);
            },
            StorageKeys::TransactionById => {
                bytes.push(2u8);
            },
            StorageKeys::TransactionMetadataById => {
                bytes.push(3u8);
            },
        }
        assert(bytes@ =~= self.key_bytes());
        bytes
    }
}

/// Two names of different collections never give the same key, whatever is
/// put behind them: no key of one collection is a key of the other.
pub proof fn law_storage_keys_apart(
    first: StorageKeys,
    second: StorageKeys,
    first_key: Seq<u8>,
    second_key: Seq<u8>,
)
    requires
        first.fits(),
        second.fits(),
        !first.same_as(second),
    ensures
        first.key_bytes() + first_key != second.key_bytes() + second_key,
{
    let a = first.key_bytes() + first_key;
    let b = second.key_bytes() + second_key;
    if a == b {
        assert(a[0] == b[0]);
        match (first, second) {
            (
                StorageKeys::SubAccount { account_hash: mine },
                StorageKeys::SubAccount { account_hash: theirs },
            ) => {
                let m = mine@.len();
                let t = theirs@.len();
                assert(a[1] == b[1] && a[2] == b[2] && a[3] == b[3] && a[4] == b[4]);
                assert(m == t);
                assert forall|i: int| 0 <= i < m implies mine@[i] == theirs@[i] by {
                    assert(a[5 + i] == mine@[i]);
                    assert(b[5 + i] == theirs@[i]);
                }
                assert(mine@ =~= theirs@);
            },
            _ => {},
        }
    }
}

} // verus!
