//! The data model of one snapshot-consistent view of the wallet store.
//!
//! Accounts and subaddresses are identified by stable integer keys (the
//! backend derives them by hashing public key material; only equality of the
//! keys matters to the accounting logic). A balance query receives one
//! [`WalletStore`] value and never mutates it.

use vstd::prelude::*;

verus! {

/// A tracked ledger output (a "txo") attributed to an account.
#[derive(Clone, Copy, Debug)]
pub struct TxoRecord {
    /// Key of the owning account.
    pub account_id: u64,
    /// Value in the smallest currency unit.
    pub value: u64,
    /// Subaddress index the output was received at; `None` means the index
    /// could not be attributed (the output is an orphan candidate).
    pub subaddress_index: Option<u64>,
    /// Block index the output was received at, when known.
    pub received_block_index: Option<u64>,
    /// Block index at which a consuming transaction was recorded, when one
    /// has been recorded.
    pub spent_block_index: Option<u64>,
    /// A consuming transaction has been submitted or observed, but no block
    /// index has been recorded for it yet.
    pub pending_spend: bool,
    /// Value left this account's control as part of a transaction it
    /// constructed, without returning to any tracked subaddress.
    pub secreted: bool,
}

/// A spend-capable account with its sync cursor.
#[derive(Clone, Copy, Debug)]
pub struct AccountRecord {
    pub account_id: u64,
    pub main_subaddress_index: u64,
    /// Highest block index fully scanned, plus one.
    pub next_block_index: u64,
}

/// A view-only account: same sync-cursor semantics, no spend authority.
#[derive(Clone, Copy, Debug)]
pub struct ViewOnlyAccountRecord {
    pub account_id: u64,
    /// Highest block index fully scanned, plus one.
    pub next_block_index: u64,
}

/// A subaddress index bound to an owning account, with the encoded public
/// address as the external lookup key.
#[derive(Clone, Copy, Debug)]
pub struct SubaddressRecord {
    /// Key derived from the base58-encoded public address string.
    pub address: u64,
    pub account_id: u64,
    pub subaddress_index: u64,
}

/// One consistent point-in-time view of the account and output stores.
#[derive(Clone, Debug)]
pub struct WalletStore {
    pub accounts: Vec<AccountRecord>,
    pub view_only_accounts: Vec<ViewOnlyAccountRecord>,
    pub subaddresses: Vec<SubaddressRecord>,
    pub view_only_subaddresses: Vec<SubaddressRecord>,
    pub txos: Vec<TxoRecord>,
    pub view_only_txos: Vec<TxoRecord>,
}

/// The set of subaddress indices that `account_id` currently tracks.
pub open spec fn tracked_indices(subs: Seq<SubaddressRecord>, account_id: u64) -> Set<u64> {
    Set::new(
        |idx: u64|
            exists|j: int|
                0 <= j < subs.len() && (#[trigger] subs[j]).account_id == account_id
                    && subs[j].subaddress_index == idx,
    )
}

pub open spec fn distinct_account_ids(accounts: Seq<AccountRecord>) -> bool {
    forall|i: int, j: int|
        #![trigger accounts[i], accounts[j]]
        0 <= i < j < accounts.len() ==> accounts[i].account_id != accounts[j].account_id
}

pub open spec fn distinct_view_only_account_ids(accounts: Seq<ViewOnlyAccountRecord>) -> bool {
    forall|i: int, j: int|
        #![trigger accounts[i], accounts[j]]
        0 <= i < j < accounts.len() ==> accounts[i].account_id != accounts[j].account_id
}

/// Every address key resolves to at most one subaddress record, and no
/// account tracks the same subaddress index twice.
pub open spec fn well_formed_subaddresses(subs: Seq<SubaddressRecord>) -> bool {
    forall|i: int, j: int|
        #![trigger subs[i], subs[j]]
        0 <= i < j < subs.len() ==> subs[i].address != subs[j].address && !(subs[i].account_id
            == subs[j].account_id && subs[i].subaddress_index == subs[j].subaddress_index)
}

pub open spec fn has_account(accounts: Seq<AccountRecord>, account_id: u64) -> bool {
    exists|i: int| 0 <= i < accounts.len() && (#[trigger] accounts[i]).account_id == account_id
}

/// The unique account record carrying `account_id`; meaningful only when
/// `has_account` holds and the ids are distinct.
pub open spec fn account_record(accounts: Seq<AccountRecord>, account_id: u64) -> AccountRecord {
    accounts[choose|i: int|
        0 <= i < accounts.len() && (#[trigger] accounts[i]).account_id == account_id]
}

pub open spec fn has_view_only_account(
    accounts: Seq<ViewOnlyAccountRecord>,
    account_id: u64,
) -> bool {
    exists|i: int| 0 <= i < accounts.len() && (#[trigger] accounts[i]).account_id == account_id
}

pub open spec fn view_only_account_record(
    accounts: Seq<ViewOnlyAccountRecord>,
    account_id: u64,
) -> ViewOnlyAccountRecord {
    accounts[choose|i: int|
        0 <= i < accounts.len() && (#[trigger] accounts[i]).account_id == account_id]
}

pub open spec fn has_subaddress(subs: Seq<SubaddressRecord>, address: u64) -> bool {
    exists|i: int| 0 <= i < subs.len() && (#[trigger] subs[i]).address == address
}

/// The unique subaddress record registered under `address`; meaningful only
/// when `has_subaddress` holds and the table is well formed.
pub open spec fn subaddress_record(subs: Seq<SubaddressRecord>, address: u64) -> SubaddressRecord {
    subs[choose|i: int| 0 <= i < subs.len() && (#[trigger] subs[i]).address == address]
}

impl WalletStore {
    /// The store invariants: accounts are identified by their keys, a
    /// subaddress belongs to exactly one existing account, and a view-only
    /// store never records secreted value (a view-only account cannot
    /// construct spends, so it can never secret funds).
    pub open spec fn wf(self) -> bool {
        &&& distinct_account_ids(self.accounts@)
        &&& distinct_view_only_account_ids(self.view_only_accounts@)
        &&& well_formed_subaddresses(self.subaddresses@)
        &&& well_formed_subaddresses(self.view_only_subaddresses@)
        &&& forall|i: int|
            0 <= i < self.subaddresses@.len() ==> has_account(
                self.accounts@,
                (#[trigger] self.subaddresses@[i]).account_id,
            )
        &&& forall|i: int|
            0 <= i < self.view_only_subaddresses@.len() ==> has_view_only_account(
                self.view_only_accounts@,
                (#[trigger] self.view_only_subaddresses@[i]).account_id,
            )
        &&& forall|i: int|
            0 <= i < self.view_only_txos@.len() ==> !(#[trigger] self.view_only_txos@[i]).secreted
    }
}

/// Finds the account registered under `account_id`, if any.
pub fn find_account(accounts: &Vec<AccountRecord>, account_id: u64) -> (r: Option<AccountRecord>)
    ensures
        match r {
            Some(a) => has_account(accounts@, account_id) && a.account_id == account_id
                && accounts@.contains(a),
            None => !has_account(accounts@, account_id),
        },
{
    let mut i: usize = 0;
    while i < accounts.len()
        invariant
            0 <= i <= accounts@.len(),
            forall|k: int| 0 <= k < i ==> (#[trigger] accounts@[k]).account_id != account_id,
        decreases accounts@.len() - i,
    {
        if accounts[i].account_id == account_id {
            return Some(accounts[i]);
        }
        i = i + 1;
    }
    None
}

/// Finds the view-only account registered under `account_id`, if any.
pub fn find_view_only_account(accounts: &Vec<ViewOnlyAccountRecord>, account_id: u64) -> (r: Option<
    ViewOnlyAccountRecord,
>)
    ensures
        match r {
            Some(a) => has_view_only_account(accounts@, account_id) && a.account_id == account_id
                && accounts@.contains(a),
            None => !has_view_only_account(accounts@, account_id),
        },
{
    let mut i: usize = 0;
    while i < accounts.len()
        invariant
            0 <= i <= accounts@.len(),
            forall|k: int| 0 <= k < i ==> (#[trigger] accounts@[k]).account_id != account_id,
        decreases accounts@.len() - i,
    {
        if accounts[i].account_id == account_id {
            return Some(accounts[i]);
        }
        i = i + 1;
    }
    None
}

/// Finds the subaddress registered under the address key `address`, if any.
pub fn find_subaddress(subs: &Vec<SubaddressRecord>, address: u64) -> (r: Option<SubaddressRecord>)
    ensures
        match r {
            Some(s) => has_subaddress(subs@, address) && s.address == address && subs@.contains(s),
            None => !has_subaddress(subs@, address),
        },
{
    let mut i: usize = 0;
    while i < subs.len()
        invariant
            0 <= i <= subs@.len(),
            forall|k: int| 0 <= k < i ==> (#[trigger] subs@[k]).address != address,
        decreases subs@.len() - i,
    {
        if subs[i].address == address {
            return Some(subs[i]);
        }
        i = i + 1;
    }
    None
}

/// With distinct account ids, any matching record is the record `choose`
/// picks in `account_record`.
pub proof fn lemma_account_record_unique(
    accounts: Seq<AccountRecord>,
    a: AccountRecord,
    account_id: u64,
)
    requires
        distinct_account_ids(accounts),
        accounts.contains(a),
        a.account_id == account_id,
    ensures
        has_account(accounts, account_id),
        account_record(accounts, account_id) == a,
{
    let i = choose|i: int| 0 <= i < accounts.len() && accounts[i] == a;
    assert(has_account(accounts, account_id));
    let j = choose|j: int|
        0 <= j < accounts.len() && (#[trigger] accounts[j]).account_id == account_id;
    if i != j {
        assert(accounts[i].account_id != accounts[j].account_id);
    }
}

/// With distinct view-only account ids, any matching record is the record
/// `choose` picks in `view_only_account_record`.
pub proof fn lemma_view_only_account_record_unique(
    accounts: Seq<ViewOnlyAccountRecord>,
    a: ViewOnlyAccountRecord,
    account_id: u64,
)
    requires
        distinct_view_only_account_ids(accounts),
        accounts.contains(a),
        a.account_id == account_id,
    ensures
        has_view_only_account(accounts, account_id),
        view_only_account_record(accounts, account_id) == a,
{
    let i = choose|i: int| 0 <= i < accounts.len() && accounts[i] == a;
    assert(has_view_only_account(accounts, account_id));
    let j = choose|j: int|
        0 <= j < accounts.len() && (#[trigger] accounts[j]).account_id == account_id;
    if i != j {
        assert(accounts[i].account_id != accounts[j].account_id);
    }
}

/// In a well-formed subaddress table, any record matching an address key is
/// the record `choose` picks in `subaddress_record`.
pub proof fn lemma_subaddress_record_unique(
    subs: Seq<SubaddressRecord>,
    s: SubaddressRecord,
    address: u64,
)
    requires
        well_formed_subaddresses(subs),
        subs.contains(s),
        s.address == address,
    ensures
        has_subaddress(subs, address),
        subaddress_record(subs, address) == s,
{
    let i = choose|i: int| 0 <= i < subs.len() && subs[i] == s;
    assert(has_subaddress(subs, address));
    let j = choose|j: int| 0 <= j < subs.len() && (#[trigger] subs[j]).address == address;
    if i != j {
        assert(subs[i].address != subs[j].address);
    }
}

} // verus!
