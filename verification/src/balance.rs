//! The balance and wallet-status aggregators.
//!
//! Each query observes one snapshot ([`WalletStore`]) plus the ledger height
//! oracle's readings, classifies the relevant outputs, and folds their values
//! into a [`Balance`] or [`WalletStatus`] value object. Queries never mutate
//! state and every error is surfaced, never guessed away.

use crate::classify::{TxoState, classify_txo, txo_consistent};
use crate::spendable::{max_spendable, max_spendable_value};
use crate::store::{
    AccountRecord, SubaddressRecord, TxoRecord, ViewOnlyAccountRecord, WalletStore,
    account_record, find_account, find_subaddress, find_view_only_account, has_account,
    has_subaddress, has_view_only_account, lemma_account_record_unique,
    lemma_subaddress_record_unique, lemma_view_only_account_record_unique, subaddress_record,
    tracked_indices, view_only_account_record,
};
use crate::sums::{
    all_consistent, in_scope, lemma_scoped_state_sum_le_total, lemma_total_value_bounds,
    lemma_wallet_state_sum_le_total, scoped_state_sum, unspent_values, wallet_state_sum,
};
use vstd::prelude::*;

verus! {

/// The error taxonomy of the balance services: callers can tell "nothing to
/// report" from "could not compute".
#[derive(Clone, Copy, Debug, PartialEq, Eq, Structural)]
pub enum BalanceServiceError {
    /// The account id, view-only account id, or address does not resolve.
    NotFound,
    /// An underlying store read failed. The verified aggregation itself
    /// never produces this; the surrounding plumbing maps a native store
    /// failure into it.
    StorageError,
    /// The height oracle could not report the network block height.
    LedgerUnavailable,
    /// An output's stored fields violate the classifier's invariants;
    /// surfaced to the caller, never silently resolved.
    InconsistentState,
}

/// The balance object returned by the balance services. Created fresh per
/// query; the five lifecycle sums are accumulated in 128 bits so that many
/// high-value outputs cannot overflow them.
#[derive(Clone, Copy, Debug, PartialEq, Eq, Structural)]
pub struct Balance {
    pub unspent: u128,
    pub pending: u128,
    pub spent: u128,
    pub secreted: u128,
    pub orphaned: u128,
    pub network_block_height: u64,
    pub local_block_height: u64,
    pub synced_blocks: u64,
    pub max_spendable: u128,
}

/// The network status object: block heights, fee and block version.
#[derive(Clone, Copy, Debug, PartialEq, Eq, Structural)]
pub struct NetworkStatus {
    pub network_block_height: u64,
    pub local_block_height: u64,
    pub fee_pmob: u64,
    pub block_version: u32,
}

/// The wallet-wide status snapshot: lifecycle totals summed over all
/// spend-capable accounts, the minimum sync cursor, and the account lists.
/// View-only accounts are listed but their funds are never folded into the
/// spend-capable totals: they are not wallet-spendable and must not inflate
/// the primary figures.
#[derive(Clone, Debug)]
pub struct WalletStatus {
    pub unspent: u128,
    pub pending: u128,
    pub spent: u128,
    pub secreted: u128,
    pub orphaned: u128,
    pub network_block_height: u64,
    pub local_block_height: u64,
    pub min_synced_block_index: u64,
    pub account_ids: Vec<u64>,
    pub account_map: Vec<AccountRecord>,
    pub view_only_account_ids: Vec<u64>,
    pub view_only_account_map: Vec<ViewOnlyAccountRecord>,
}

/// The wallet service: the store snapshot this query sees, plus the ledger
/// height oracle's readings.
pub struct WalletService {
    pub store: WalletStore,
    /// Number of blocks in the local ledger copy.
    pub local_block_height: u64,
    /// Network-reported block height; `None` when the oracle could not
    /// reach the network.
    pub network_block_height: Option<u64>,
    /// Current flat network fee, in the smallest currency unit.
    pub fee: u64,
    /// Current network block version.
    pub block_version: u32,
}

/// `x - 1`, saturating at zero: a sync cursor of a freshly created account
/// starts at zero and must not underflow.
pub open spec fn sat_dec(x: u64) -> u64 {
    if x == 0 {
        0
    } else {
        (x - 1) as u64
    }
}

/// The minimum, over all listed accounts, of `next_block_index - 1`
/// (saturating at zero), defaulting to `network_block_height - 1` when
/// there are no accounts.
pub open spec fn min_synced_spec(accounts: Seq<AccountRecord>, network_block_height: u64) -> u64
    decreases accounts.len(),
{
    if accounts.len() == 0 {
        sat_dec(network_block_height)
    } else {
        let rest = min_synced_spec(accounts.drop_last(), network_block_height);
        let cand = sat_dec(accounts.last().next_block_index);
        if cand < rest {
            cand
        } else {
            rest
        }
    }
}

/// The minimum sync cursor is a lower bound: it never exceeds any listed
/// account's own cursor, nor the network default.
pub proof fn lemma_min_synced_le(accounts: Seq<AccountRecord>, network_block_height: u64)
    ensures
        min_synced_spec(accounts, network_block_height) <= sat_dec(network_block_height),
        forall|k: int|
            0 <= k < accounts.len() ==> min_synced_spec(accounts, network_block_height) <= sat_dec(
                (#[trigger] accounts[k]).next_block_index,
            ),
    decreases accounts.len(),
{
    if accounts.len() > 0 {
        lemma_min_synced_le(accounts.drop_last(), network_block_height);
        assert forall|k: int| 0 <= k < accounts.len() implies min_synced_spec(
            accounts,
            network_block_height,
        ) <= sat_dec((#[trigger] accounts[k]).next_block_index) by {
            if k < accounts.len() - 1 {
                assert(accounts.drop_last()[k] == accounts[k]);
            }
        }
    }
}

/// The account ids, in store order.
pub open spec fn account_id_list(accounts: Seq<AccountRecord>) -> Seq<u64> {
    accounts.map_values(|a: AccountRecord| a.account_id)
}

/// The view-only account ids, in store order.
pub open spec fn view_only_account_id_list(accounts: Seq<ViewOnlyAccountRecord>) -> Seq<u64> {
    accounts.map_values(|a: ViewOnlyAccountRecord| a.account_id)
}

/// One pass over a snapshot's outputs: per-state value sums for one account
/// at one scope, plus the unspent values in scope (the spendability
/// candidates). Secreted and orphaned are account-level concepts and are
/// summed at whole-account scope whatever `scope` says; the callers decide
/// whether to report or zero them.
fn scan_txos(
    txos: &Vec<TxoRecord>,
    subs: &Vec<SubaddressRecord>,
    account_id: u64,
    scope: Option<u64>,
    local_block_height: u64,
    confirmation_depth: u64,
) -> (r: Result<(u128, u128, u128, u128, u128, Vec<u64>), BalanceServiceError>)
    ensures
        match r {
            Ok(t) => ({
                let tr = tracked_indices(subs@, account_id);
                &&& all_consistent(txos@, account_id)
                &&& t.0 as int == scoped_state_sum(
                    txos@,
                    account_id,
                    scope,
                    TxoState::Unspent,
                    tr,
                    local_block_height,
                    confirmation_depth,
                )
                &&& t.1 as int == scoped_state_sum(
                    txos@,
                    account_id,
                    scope,
                    TxoState::Pending,
                    tr,
                    local_block_height,
                    confirmation_depth,
                )
                &&& t.2 as int == scoped_state_sum(
                    txos@,
                    account_id,
                    scope,
                    TxoState::Spent,
                    tr,
                    local_block_height,
                    confirmation_depth,
                )
                &&& t.3 as int == scoped_state_sum(
                    txos@,
                    account_id,
                    None,
                    TxoState::Secreted,
                    tr,
                    local_block_height,
                    confirmation_depth,
                )
                &&& t.4 as int == scoped_state_sum(
                    txos@,
                    account_id,
                    None,
                    TxoState::Orphaned,
                    tr,
                    local_block_height,
                    confirmation_depth,
                )
                &&& t.5@ == unspent_values(
                    txos@,
                    account_id,
                    scope,
                    tr,
                    local_block_height,
                    confirmation_depth,
                )
            }),
            Err(e) => !all_consistent(txos@, account_id) && e
                == BalanceServiceError::InconsistentState,
        },
{
    let ghost tr = tracked_indices(subs@, account_id);
    let mut unspent: u128 = 0;
    let mut pending: u128 = 0;
    let mut spent: u128 = 0;
    let mut secreted: u128 = 0;
    let mut orphaned: u128 = 0;
    let mut unspent_vals: Vec<u64> = Vec::new();
    let mut i: usize = 0;
    while i < txos.len()
        invariant
            0 <= i <= txos@.len(),
            tr == tracked_indices(subs@, account_id),
            all_consistent(txos@.take(i as int), account_id),
            unspent as int == scoped_state_sum(
                txos@.take(i as int),
                account_id,
                scope,
                TxoState::Unspent,
                tr,
                local_block_height,
                confirmation_depth,
            ),
            pending as int == scoped_state_sum(
                txos@.take(i as int),
                account_id,
                scope,
                TxoState::Pending,
                tr,
                local_block_height,
                confirmation_depth,
            ),
            spent as int == scoped_state_sum(
                txos@.take(i as int),
                account_id,
                scope,
                TxoState::Spent,
                tr,
                local_block_height,
                confirmation_depth,
            ),
            secreted as int == scoped_state_sum(
                txos@.take(i as int),
                account_id,
                None,
                TxoState::Secreted,
                tr,
                local_block_height,
                confirmation_depth,
            ),
            orphaned as int == scoped_state_sum(
                txos@.take(i as int),
                account_id,
                None,
                TxoState::Orphaned,
                tr,
                local_block_height,
                confirmation_depth,
            ),
            unspent_vals@ == unspent_values(
                txos@.take(i as int),
                account_id,
                scope,
                tr,
                local_block_height,
                confirmation_depth,
            ),
        decreases txos@.len() - i,
    {
        let txo = txos[i];
        proof {
            let t1 = txos@.take(i as int + 1);
            assert(t1.drop_last() =~= txos@.take(i as int));
            assert(t1.last() == txos@[i as int]);
            lemma_total_value_bounds(t1);
            lemma_scoped_state_sum_le_total(
                t1,
                account_id,
                scope,
                TxoState::Unspent,
                tr,
                local_block_height,
                confirmation_depth,
            );
            lemma_scoped_state_sum_le_total(
                t1,
                account_id,
                scope,
                TxoState::Pending,
                tr,
                local_block_height,
                confirmation_depth,
            );
            lemma_scoped_state_sum_le_total(
                t1,
                account_id,
                scope,
                TxoState::Spent,
                tr,
                local_block_height,
                confirmation_depth,
            );
            lemma_scoped_state_sum_le_total(
                t1,
                account_id,
                None,
                TxoState::Secreted,
                tr,
                local_block_height,
                confirmation_depth,
            );
            lemma_scoped_state_sum_le_total(
                t1,
                account_id,
                None,
                TxoState::Orphaned,
                tr,
                local_block_height,
                confirmation_depth,
            );
            assert(usize::MAX as int <= u64::MAX as int);
            assert(t1.len() * (u64::MAX as int) <= (u64::MAX as int) * (u64::MAX as int))
                by (nonlinear_arith)
                requires
                    0 <= t1.len() <= u64::MAX as int,
            ;
            assert((u64::MAX as int) * (u64::MAX as int) < u128::MAX as int) by (nonlinear_arith);
        }
        if txo.account_id == account_id {
            if !txo_consistent(&txo) {
                proof {
                    assert(txos@[i as int].account_id == account_id && !crate::classify::consistent(
                        txos@[i as int],
                    ));
                }
                return Err(BalanceServiceError::InconsistentState);
            }
            let state = classify_txo(&txo, subs, account_id, local_block_height,
                confirmation_depth);
            let in_scope_now = match scope {
                Some(s) => match txo.subaddress_index {
                    Some(x) => x == s,
                    None => false,
                },
                None => true,
            };
            proof {
                assert(in_scope_now == in_scope(txos@[i as int], account_id, scope));
            }
            match state {
                TxoState::Unspent => {
                    if in_scope_now {
                        unspent = unspent + txo.value as u128;
                        unspent_vals.push(txo.value);
                        proof {
                            assert(unspent_vals@ =~= unspent_values(
                                txos@.take(i as int + 1),
                                account_id,
                                scope,
                                tr,
                                local_block_height,
                                confirmation_depth,
                            ));
                        }
                    }
                },
                TxoState::Pending => {
                    if in_scope_now {
                        pending = pending + txo.value as u128;
                    }
                },
                TxoState::Spent => {
                    if in_scope_now {
                        spent = spent + txo.value as u128;
                    }
                },
                TxoState::Secreted => {
                    secreted = secreted + txo.value as u128;
                },
                TxoState::Orphaned => {
                    orphaned = orphaned + txo.value as u128;
                },
            }
        }
        i = i + 1;
    }
    proof {
        assert(txos@.take(txos@.len() as int) =~= txos@);
    }
    Ok((unspent, pending, spent, secreted, orphaned, unspent_vals))
}

impl WalletService {
    /// The service's snapshot satisfies the store invariants.
    pub open spec fn wf(self) -> bool {
        self.store.wf()
    }

    /// Reports the network-reported block height, or `LedgerUnavailable`
    /// when the height oracle could not reach the network.
    pub fn get_network_block_height(&self) -> (r: Result<u64, BalanceServiceError>)
        ensures
            match r {
                Ok(h) => self.network_block_height == Some(h),
                Err(e) => self.network_block_height is None && e
                    == BalanceServiceError::LedgerUnavailable,
            },
    {
        match self.network_block_height {
            Some(h) => Ok(h),
            None => Err(BalanceServiceError::LedgerUnavailable),
        }
    }

    /// The per-state value sums of one spend-capable account, either at
    /// whole-account scope (`assigned_subaddress` is `None`) or restricted
    /// to one subaddress. Returns, in order: unspent, max spendable,
    /// pending, spent, secreted, orphaned. At single-address scope the
    /// secreted and orphaned sums are zero by definition: they are
    /// account-level concepts. Fails with `InconsistentState` when some
    /// output of the account violates the classifier's invariants.
    pub fn get_balance_inner(
        store: &WalletStore,
        account_id: u64,
        assigned_subaddress: Option<u64>,
        local_block_height: u64,
        confirmation_depth: u64,
        fee: u64,
    ) -> (r: Result<(u128, u128, u128, u128, u128, u128), BalanceServiceError>)
        ensures
            match r {
                Ok(b) => ({
                    let tr = tracked_indices(store.subaddresses@, account_id);
                    &&& all_consistent(store.txos@, account_id)
                    &&& b.0 as int == scoped_state_sum(
                        store.txos@,
                        account_id,
                        assigned_subaddress,
                        TxoState::Unspent,
                        tr,
                        local_block_height,
                        confirmation_depth,
                    )
                    &&& b.1 as int == max_spendable_value(
                        unspent_values(
                            store.txos@,
                            account_id,
                            assigned_subaddress,
                            tr,
                            local_block_height,
                            confirmation_depth,
                        ),
                        fee,
                    )
                    &&& b.2 as int == scoped_state_sum(
                        store.txos@,
                        account_id,
                        assigned_subaddress,
                        TxoState::Pending,
                        tr,
                        local_block_height,
                        confirmation_depth,
                    )
                    &&& b.3 as int == scoped_state_sum(
                        store.txos@,
                        account_id,
                        assigned_subaddress,
                        TxoState::Spent,
                        tr,
                        local_block_height,
                        confirmation_depth,
                    )
                    &&& b.4 as int == (if assigned_subaddress is Some {
                        0
                    } else {
                        scoped_state_sum(
                            store.txos@,
                            account_id,
                            None,
                            TxoState::Secreted,
                            tr,
                            local_block_height,
                            confirmation_depth,
                        )
                    })
                    &&& b.5 as int == (if assigned_subaddress is Some {
                        0
                    } else {
                        scoped_state_sum(
                            store.txos@,
                            account_id,
                            None,
                            TxoState::Orphaned,
                            tr,
                            local_block_height,
                            confirmation_depth,
                        )
                    })
                }),
                Err(e) => !all_consistent(store.txos@, account_id) && e
                    == BalanceServiceError::InconsistentState,
            },
    {
        let scanned = match scan_txos(
            &store.txos,
            &store.subaddresses,
            account_id,
            assigned_subaddress,
            local_block_height,
            confirmation_depth,
        ) {
            Ok(t) => t,
            Err(e) => {
                return Err(e);
            },
        };
        let spendable = max_spendable(&scanned.5, fee);
        let (secreted, orphaned) = match assigned_subaddress {
            Some(_) => (0u128, 0u128),
            None => (scanned.3, scanned.4),
        };
        Ok((scanned.0, spendable, scanned.1, scanned.2, secreted, orphaned))
    }

    /// The per-state value sums of one view-only account, at whole-account
    /// or single-address scope, in the same order as `get_balance_inner`.
    /// A view-only account holds no spend authority, so its max-spendable
    /// and secreted figures are zero by definition; with a well-formed
    /// store its outputs are always consistent, so the query cannot fail.
    pub fn get_view_only_balance_inner(
        store: &WalletStore,
        account_id: u64,
        assigned_subaddress: Option<u64>,
        local_block_height: u64,
        confirmation_depth: u64,
    ) -> (r: Result<(u128, u128, u128, u128, u128, u128), BalanceServiceError>)
        requires
            store.wf(),
        ensures
            r is Ok,
            match r {
                Ok(b) => ({
                    let tr = tracked_indices(store.view_only_subaddresses@, account_id);
                    &&& b.0 as int == scoped_state_sum(
                        store.view_only_txos@,
                        account_id,
                        assigned_subaddress,
                        TxoState::Unspent,
                        tr,
                        local_block_height,
                        confirmation_depth,
                    )
                    &&& b.1 == 0
                    &&& b.2 as int == scoped_state_sum(
                        store.view_only_txos@,
                        account_id,
                        assigned_subaddress,
                        TxoState::Pending,
                        tr,
                        local_block_height,
                        confirmation_depth,
                    )
                    &&& b.3 as int == scoped_state_sum(
                        store.view_only_txos@,
                        account_id,
                        assigned_subaddress,
                        TxoState::Spent,
                        tr,
                        local_block_height,
                        confirmation_depth,
                    )
                    &&& b.4 == 0
                    &&& b.5 as int == (if assigned_subaddress is Some {
                        0
                    } else {
                        scoped_state_sum(
                            store.view_only_txos@,
                            account_id,
                            None,
                            TxoState::Orphaned,
                            tr,
                            local_block_height,
                            confirmation_depth,
                        )
                    })
                }),
                Err(_) => false,
            },
    {
        proof {
            assert(all_consistent(store.view_only_txos@, account_id));
        }
        let scanned = match scan_txos(
            &store.view_only_txos,
            &store.view_only_subaddresses,
            account_id,
            assigned_subaddress,
            local_block_height,
            confirmation_depth,
        ) {
            Ok(t) => t,
            Err(_) => {
                proof {
                    assert(false);
                }
                return Err(BalanceServiceError::InconsistentState);
            },
        };
        let orphaned = match assigned_subaddress {
            Some(_) => 0u128,
            None => scanned.4,
        };
        Ok((scanned.0, 0u128, scanned.1, scanned.2, 0u128, orphaned))
    }

    /// The balance of one spend-capable account: the five lifecycle sums at
    /// whole-account scope, the greedy spendability bound, the ledger
    /// heights and the account's sync cursor. Fails with
    /// `InconsistentState` when an output of the account violates the
    /// classifier's invariants, with `LedgerUnavailable` when the network
    /// height is unknown, and with `NotFound` when the account id does not
    /// resolve, in that order of precedence.
    pub fn get_balance_for_account(&self, account_id: u64) -> (r: Result<
        Balance,
        BalanceServiceError,
    >)
        requires
            self.wf(),
        ensures
            match r {
                Ok(b) => ({
                    let tr = tracked_indices(self.store.subaddresses@, account_id);
                    &&& all_consistent(self.store.txos@, account_id)
                    &&& self.network_block_height == Some(b.network_block_height)
                    &&& has_account(self.store.accounts@, account_id)
                    &&& b.unspent as int == scoped_state_sum(
                        self.store.txos@,
                        account_id,
                        None,
                        TxoState::Unspent,
                        tr,
                        self.local_block_height,
                        0,
                    )
                    &&& b.pending as int == scoped_state_sum(
                        self.store.txos@,
                        account_id,
                        None,
                        TxoState::Pending,
                        tr,
                        self.local_block_height,
                        0,
                    )
                    &&& b.spent as int == scoped_state_sum(
                        self.store.txos@,
                        account_id,
                        None,
                        TxoState::Spent,
                        tr,
                        self.local_block_height,
                        0,
                    )
                    &&& b.secreted as int == scoped_state_sum(
                        self.store.txos@,
                        account_id,
                        None,
                        TxoState::Secreted,
                        tr,
                        self.local_block_height,
                        0,
                    )
                    &&& b.orphaned as int == scoped_state_sum(
                        self.store.txos@,
                        account_id,
                        None,
                        TxoState::Orphaned,
                        tr,
                        self.local_block_height,
                        0,
                    )
                    &&& b.max_spendable as int == max_spendable_value(
                        unspent_values(
                            self.store.txos@,
                            account_id,
                            None,
                            tr,
                            self.local_block_height,
                            0,
                        ),
                        self.fee,
                    )
                    &&& b.local_block_height == self.local_block_height
                    &&& b.synced_blocks == account_record(
                        self.store.accounts@,
                        account_id,
                    ).next_block_index
                }),
                Err(e) => ({
                    &&& !(all_consistent(self.store.txos@, account_id)
                        && self.network_block_height is Some && has_account(
                        self.store.accounts@,
                        account_id,
                    ))
                    &&& e == (if !all_consistent(self.store.txos@, account_id) {
                        BalanceServiceError::InconsistentState
                    } else if self.network_block_height is None {
                        BalanceServiceError::LedgerUnavailable
                    } else {
                        BalanceServiceError::NotFound
                    })
                }),
            },
    {
        let inner = match Self::get_balance_inner(
            &self.store,
            account_id,
            None,
            self.local_block_height,
            0,
            self.fee,
        ) {
            Ok(t) => t,
            Err(e) => {
                return Err(e);
            },
        };
        let network_block_height = match self.get_network_block_height() {
            Ok(h) => h,
            Err(e) => {
                return Err(e);
            },
        };
        let account = match find_account(&self.store.accounts, account_id) {
            Some(a) => a,
            None => {
                return Err(BalanceServiceError::NotFound);
            },
        };
        proof {
            lemma_account_record_unique(self.store.accounts@, account, account_id);
        }
        Ok(
            Balance {
                unspent: inner.0,
                pending: inner.2,
                spent: inner.3,
                secreted: inner.4,
                orphaned: inner.5,
                network_block_height,
                local_block_height: self.local_block_height,
                synced_blocks: account.next_block_index,
                max_spendable: inner.1,
            },
        )
    }

    /// The balance of one view-only account. Shaped like
    /// `get_balance_for_account`, but the spendability bound and the
    /// secreted sum are always zero: without spend authority the account
    /// can neither construct spends nor secret funds.
    pub fn get_balance_for_view_only_account(&self, account_id: u64) -> (r: Result<
        Balance,
        BalanceServiceError,
    >)
        requires
            self.wf(),
        ensures
            match r {
                Ok(b) => ({
                    let tr = tracked_indices(self.store.view_only_subaddresses@, account_id);
                    &&& self.network_block_height == Some(b.network_block_height)
                    &&& has_view_only_account(self.store.view_only_accounts@, account_id)
                    &&& b.unspent as int == scoped_state_sum(
                        self.store.view_only_txos@,
                        account_id,
                        None,
                        TxoState::Unspent,
                        tr,
                        self.local_block_height,
                        0,
                    )
                    &&& b.pending as int == scoped_state_sum(
                        self.store.view_only_txos@,
                        account_id,
                        None,
                        TxoState::Pending,
                        tr,
                        self.local_block_height,
                        0,
                    )
                    &&& b.spent as int == scoped_state_sum(
                        self.store.view_only_txos@,
                        account_id,
                        None,
                        TxoState::Spent,
                        tr,
                        self.local_block_height,
                        0,
                    )
                    &&& b.orphaned as int == scoped_state_sum(
                        self.store.view_only_txos@,
                        account_id,
                        None,
                        TxoState::Orphaned,
                        tr,
                        self.local_block_height,
                        0,
                    )
                    &&& b.max_spendable == 0
                    &&& b.secreted == 0
                    &&& b.local_block_height == self.local_block_height
                    &&& b.synced_blocks == view_only_account_record(
                        self.store.view_only_accounts@,
                        account_id,
                    ).next_block_index
                }),
                Err(e) => ({
                    &&& !(self.network_block_height is Some && has_view_only_account(
                        self.store.view_only_accounts@,
                        account_id,
                    ))
                    &&& e == (if self.network_block_height is None {
                        BalanceServiceError::LedgerUnavailable
                    } else {
                        BalanceServiceError::NotFound
                    })
                }),
            },
    {
        let inner = match Self::get_view_only_balance_inner(
            &self.store,
            account_id,
            None,
            self.local_block_height,
            0,
        ) {
            Ok(t) => t,
            Err(_) => {
                proof {
                    assert(false);
                }
                return Err(BalanceServiceError::InconsistentState);
            },
        };
        let network_block_height = match self.get_network_block_height() {
            Ok(h) => h,
            Err(e) => {
                return Err(e);
            },
        };
        let account = match find_view_only_account(&self.store.view_only_accounts, account_id) {
            Some(a) => a,
            None => {
                return Err(BalanceServiceError::NotFound);
            },
        };
        proof {
            lemma_view_only_account_record_unique(
                self.store.view_only_accounts@,
                account,
                account_id,
            );
        }
        Ok(
            Balance {
                unspent: inner.0,
                pending: inner.2,
                spent: inner.3,
                secreted: inner.4,
                orphaned: inner.5,
                network_block_height,
                local_block_height: self.local_block_height,
                synced_blocks: account.next_block_index,
                max_spendable: inner.1,
            },
        )
    }

    /// The balance of one assigned subaddress: the lifecycle sums
    /// restricted to outputs received at that subaddress, with secreted and
    /// orphaned zero by definition (they are account-level concepts and an
    /// orphaned output cannot be resolved to a tracked address at all).
    /// The spendability bound is computed against the address-scoped
    /// unspent set only. Fails with `LedgerUnavailable`, then `NotFound`
    /// when the address does not resolve, then `InconsistentState`.
    pub fn get_balance_for_address(&self, address: u64) -> (r: Result<
        Balance,
        BalanceServiceError,
    >)
        requires
            self.wf(),
        ensures
            match r {
                Ok(b) => ({
                    let sub = subaddress_record(self.store.subaddresses@, address);
                    let tr = tracked_indices(self.store.subaddresses@, sub.account_id);
                    &&& self.network_block_height == Some(b.network_block_height)
                    &&& has_subaddress(self.store.subaddresses@, address)
                    &&& all_consistent(self.store.txos@, sub.account_id)
                    &&& b.unspent as int == scoped_state_sum(
                        self.store.txos@,
                        sub.account_id,
                        Some(sub.subaddress_index),
                        TxoState::Unspent,
                        tr,
                        self.local_block_height,
                        0,
                    )
                    &&& b.pending as int == scoped_state_sum(
                        self.store.txos@,
                        sub.account_id,
                        Some(sub.subaddress_index),
                        TxoState::Pending,
                        tr,
                        self.local_block_height,
                        0,
                    )
                    &&& b.spent as int == scoped_state_sum(
                        self.store.txos@,
                        sub.account_id,
                        Some(sub.subaddress_index),
                        TxoState::Spent,
                        tr,
                        self.local_block_height,
                        0,
                    )
                    &&& b.secreted == 0
                    &&& b.orphaned == 0
                    &&& b.max_spendable as int == max_spendable_value(
                        unspent_values(
                            self.store.txos@,
                            sub.account_id,
                            Some(sub.subaddress_index),
                            tr,
                            self.local_block_height,
                            0,
                        ),
                        self.fee,
                    )
                    &&& b.local_block_height == self.local_block_height
                    &&& b.synced_blocks == account_record(
                        self.store.accounts@,
                        sub.account_id,
                    ).next_block_index
                }),
                Err(e) => ({
                    &&& e == (if self.network_block_height is None {
                        BalanceServiceError::LedgerUnavailable
                    } else if !has_subaddress(self.store.subaddresses@, address) {
                        BalanceServiceError::NotFound
                    } else {
                        BalanceServiceError::InconsistentState
                    })
                    &&& self.network_block_height is Some && has_subaddress(
                        self.store.subaddresses@,
                        address,
                    ) ==> !all_consistent(
                        self.store.txos@,
                        subaddress_record(self.store.subaddresses@, address).account_id,
                    )
                }),
            },
    {
        let network_block_height = match self.get_network_block_height() {
            Ok(h) => h,
            Err(e) => {
                return Err(e);
            },
        };
        let sub = match find_subaddress(&self.store.subaddresses, address) {
            Some(s) => s,
            None => {
                return Err(BalanceServiceError::NotFound);
            },
        };
        proof {
            lemma_subaddress_record_unique(self.store.subaddresses@, sub, address);
        }
        let inner = match Self::get_balance_inner(
            &self.store,
            sub.account_id,
            Some(sub.subaddress_index),
            self.local_block_height,
            0,
            self.fee,
        ) {
            Ok(t) => t,
            Err(e) => {
                return Err(e);
            },
        };
        let account = match find_account(&self.store.accounts, sub.account_id) {
            Some(a) => a,
            None => {
                proof {
                    let i = choose|i: int|
                        0 <= i < self.store.subaddresses@.len() && self.store.subaddresses@[i]
                            == sub;
                    assert(has_account(
                        self.store.accounts@,
                        self.store.subaddresses@[i].account_id,
                    ));
                    assert(false);
                }
                return Err(BalanceServiceError::NotFound);
            },
        };
        proof {
            lemma_account_record_unique(self.store.accounts@, account, sub.account_id);
        }
        Ok(
            Balance {
                unspent: inner.0,
                pending: inner.2,
                spent: inner.3,
                secreted: inner.4,
                orphaned: inner.5,
                network_block_height,
                local_block_height: self.local_block_height,
                synced_blocks: account.next_block_index,
                max_spendable: inner.1,
            },
        )
    }

    /// The balance of one view-only subaddress: address-scoped sums with
    /// secreted and orphaned zero by the single-address invariant, and the
    /// spendability bound zero because the account holds no spend
    /// authority. Fails with `NotFound` when the address does not resolve,
    /// then `LedgerUnavailable`.
    pub fn get_balance_for_view_only_address(&self, address: u64) -> (r: Result<
        Balance,
        BalanceServiceError,
    >)
        requires
            self.wf(),
        ensures
            match r {
                Ok(b) => ({
                    let sub = subaddress_record(self.store.view_only_subaddresses@, address);
                    let tr = tracked_indices(self.store.view_only_subaddresses@, sub.account_id);
                    &&& self.network_block_height == Some(b.network_block_height)
                    &&& has_subaddress(self.store.view_only_subaddresses@, address)
                    &&& b.unspent as int == scoped_state_sum(
                        self.store.view_only_txos@,
                        sub.account_id,
                        Some(sub.subaddress_index),
                        TxoState::Unspent,
                        tr,
                        self.local_block_height,
                        0,
                    )
                    &&& b.pending as int == scoped_state_sum(
                        self.store.view_only_txos@,
                        sub.account_id,
                        Some(sub.subaddress_index),
                        TxoState::Pending,
                        tr,
                        self.local_block_height,
                        0,
                    )
                    &&& b.spent as int == scoped_state_sum(
                        self.store.view_only_txos@,
                        sub.account_id,
                        Some(sub.subaddress_index),
                        TxoState::Spent,
                        tr,
                        self.local_block_height,
                        0,
                    )
                    &&& b.secreted == 0
                    &&& b.orphaned == 0
                    &&& b.max_spendable == 0
                    &&& b.local_block_height == self.local_block_height
                    &&& b.synced_blocks == view_only_account_record(
                        self.store.view_only_accounts@,
                        sub.account_id,
                    ).next_block_index
                }),
                Err(e) => ({
                    &&& !(has_subaddress(self.store.view_only_subaddresses@, address)
                        && self.network_block_height is Some)
                    &&& e == (if !has_subaddress(self.store.view_only_subaddresses@, address) {
                        BalanceServiceError::NotFound
                    } else {
                        BalanceServiceError::LedgerUnavailable
                    })
                }),
            },
    {
        let sub = match find_subaddress(&self.store.view_only_subaddresses, address) {
            Some(s) => s,
            None => {
                return Err(BalanceServiceError::NotFound);
            },
        };
        let inner = match Self::get_view_only_balance_inner(
            &self.store,
            sub.account_id,
            Some(sub.subaddress_index),
            self.local_block_height,
            0,
        ) {
            Ok(t) => t,
            Err(_) => {
                proof {
                    assert(false);
                }
                return Err(BalanceServiceError::InconsistentState);
            },
        };
        let network_block_height = match self.get_network_block_height() {
            Ok(h) => h,
            Err(e) => {
                return Err(e);
            },
        };
        let account = match find_view_only_account(
            &self.store.view_only_accounts,
            sub.account_id,
        ) {
            Some(a) => a,
            None => {
                proof {
                    let i = choose|i: int|
                        0 <= i < self.store.view_only_subaddresses@.len()
                            && self.store.view_only_subaddresses@[i] == sub;
                    assert(has_view_only_account(
                        self.store.view_only_accounts@,
                        self.store.view_only_subaddresses@[i].account_id,
                    ));
                    assert(false);
                }
                return Err(BalanceServiceError::NotFound);
            },
        };
        proof {
            lemma_subaddress_record_unique(self.store.view_only_subaddresses@, sub, address);
            lemma_view_only_account_record_unique(
                self.store.view_only_accounts@,
                account,
                sub.account_id,
            );
        }
        Ok(
            Balance {
                unspent: inner.0,
                pending: inner.2,
                spent: inner.3,
                secreted: inner.4,
                orphaned: inner.5,
                network_block_height,
                local_block_height: self.local_block_height,
                synced_blocks: account.next_block_index,
                max_spendable: inner.1,
            },
        )
    }

    /// The network status: the two block heights, the current fee and the
    /// current block version. Fails only when the network height is
    /// unknown.
    pub fn get_network_status(&self) -> (r: Result<NetworkStatus, BalanceServiceError>)
        ensures
            match r {
                Ok(ns) => {
                    &&& self.network_block_height == Some(ns.network_block_height)
                    &&& ns.local_block_height == self.local_block_height
                    &&& ns.fee_pmob == self.fee
                    &&& ns.block_version == self.block_version
                },
                Err(e) => self.network_block_height is None && e
                    == BalanceServiceError::LedgerUnavailable,
            },
    {
        let network_block_height = match self.get_network_block_height() {
            Ok(h) => h,
            Err(e) => {
                return Err(e);
            },
        };
        Ok(
            NetworkStatus {
                network_block_height,
                local_block_height: self.local_block_height,
                fee_pmob: self.fee,
                block_version: self.block_version,
            },
        )
    }

    /// The wallet-wide status: the five lifecycle sums folded over every
    /// spend-capable account at whole-account scope, the minimum sync
    /// cursor (defaulting to `network_block_height - 1` with no accounts),
    /// and the account and view-only account listings. View-only balances
    /// are never folded into the totals. The wallet-wide spendability bound
    /// is not aggregated. Fails with `LedgerUnavailable` when the network
    /// height is unknown, then with `InconsistentState` when some listed
    /// account owns an output that violates the classifier's invariants.
    pub fn get_wallet_status(&self) -> (r: Result<WalletStatus, BalanceServiceError>)
        requires
            self.wf(),
        ensures
            match r {
                Ok(ws) => {
                    &&& self.network_block_height == Some(ws.network_block_height)
                    &&& forall|k: int|
                        0 <= k < self.store.accounts@.len() ==> all_consistent(
                            self.store.txos@,
                            (#[trigger] self.store.accounts@[k]).account_id,
                        )
                    &&& ws.unspent as int == wallet_state_sum(
                        self.store.accounts@,
                        self.store.subaddresses@,
                        self.store.txos@,
                        TxoState::Unspent,
                        self.local_block_height,
                        0,
                    )
                    &&& ws.pending as int == wallet_state_sum(
                        self.store.accounts@,
                        self.store.subaddresses@,
                        self.store.txos@,
                        TxoState::Pending,
                        self.local_block_height,
                        0,
                    )
                    &&& ws.spent as int == wallet_state_sum(
                        self.store.accounts@,
                        self.store.subaddresses@,
                        self.store.txos@,
                        TxoState::Spent,
                        self.local_block_height,
                        0,
                    )
                    &&& ws.secreted as int == wallet_state_sum(
                        self.store.accounts@,
                        self.store.subaddresses@,
                        self.store.txos@,
                        TxoState::Secreted,
                        self.local_block_height,
                        0,
                    )
                    &&& ws.orphaned as int == wallet_state_sum(
                        self.store.accounts@,
                        self.store.subaddresses@,
                        self.store.txos@,
                        TxoState::Orphaned,
                        self.local_block_height,
                        0,
                    )
                    &&& ws.local_block_height == self.local_block_height
                    &&& ws.min_synced_block_index == min_synced_spec(
                        self.store.accounts@,
                        ws.network_block_height,
                    )
                    &&& ws.min_synced_block_index <= sat_dec(ws.network_block_height)
                    &&& forall|k: int|
                        0 <= k < self.store.accounts@.len() ==> ws.min_synced_block_index
                            <= sat_dec((#[trigger] self.store.accounts@[k]).next_block_index)
                    &&& ws.account_ids@ == account_id_list(self.store.accounts@)
                    &&& ws.account_map@ == self.store.accounts@
                    &&& ws.view_only_account_ids@ == view_only_account_id_list(
                        self.store.view_only_accounts@,
                    )
                    &&& ws.view_only_account_map@ == self.store.view_only_accounts@
                },
                Err(e) => ({
                    &&& e == (if self.network_block_height is None {
                        BalanceServiceError::LedgerUnavailable
                    } else {
                        BalanceServiceError::InconsistentState
                    })
                    &&& self.network_block_height is Some ==> exists|k: int|
                        0 <= k < self.store.accounts@.len() && !all_consistent(
                            self.store.txos@,
                            (#[trigger] self.store.accounts@[k]).account_id,
                        )
                }),
            },
    {
        let network_block_height = match self.get_network_block_height() {
            Ok(h) => h,
            Err(e) => {
                return Err(e);
            },
        };
        let mut unspent: u128 = 0;
        let mut pending: u128 = 0;
        let mut spent: u128 = 0;
        let mut secreted: u128 = 0;
        let mut orphaned: u128 = 0;
        let mut min_synced_block_index: u64 = if network_block_height == 0 {
            0
        } else {
            network_block_height - 1
        };
        let mut account_ids: Vec<u64> = Vec::new();
        let mut account_map: Vec<AccountRecord> = Vec::new();
        let txo_count = self.store.txos.len();
        let mut i: usize = 0;
        while i < self.store.accounts.len()
            invariant
                0 <= i <= self.store.accounts@.len(),
                self.wf(),
                self.network_block_height == Some(network_block_height),
                self.store.txos@.len() == txo_count,
                forall|k: int|
                    0 <= k < i ==> all_consistent(
                        self.store.txos@,
                        (#[trigger] self.store.accounts@[k]).account_id,
                    ),
                unspent as int == wallet_state_sum(
                    self.store.accounts@.take(i as int),
                    self.store.subaddresses@,
                    self.store.txos@,
                    TxoState::Unspent,
                    self.local_block_height,
                    0,
                ),
                pending as int == wallet_state_sum(
                    self.store.accounts@.take(i as int),
                    self.store.subaddresses@,
                    self.store.txos@,
                    TxoState::Pending,
                    self.local_block_height,
                    0,
                ),
                spent as int == wallet_state_sum(
                    self.store.accounts@.take(i as int),
                    self.store.subaddresses@,
                    self.store.txos@,
                    TxoState::Spent,
                    self.local_block_height,
                    0,
                ),
                secreted as int == wallet_state_sum(
                    self.store.accounts@.take(i as int),
                    self.store.subaddresses@,
                    self.store.txos@,
                    TxoState::Secreted,
                    self.local_block_height,
                    0,
                ),
                orphaned as int == wallet_state_sum(
                    self.store.accounts@.take(i as int),
                    self.store.subaddresses@,
                    self.store.txos@,
                    TxoState::Orphaned,
                    self.local_block_height,
                    0,
                ),
                min_synced_block_index == min_synced_spec(
                    self.store.accounts@.take(i as int),
                    network_block_height,
                ),
                account_ids@ == account_id_list(self.store.accounts@.take(i as int)),
                account_map@ == self.store.accounts@.take(i as int),
            decreases self.store.accounts@.len() - i,
        {
            let account = self.store.accounts[i];
            let scanned = match scan_txos(
                &self.store.txos,
                &self.store.subaddresses,
                account.account_id,
                None,
                self.local_block_height,
                0,
            ) {
                Ok(t) => t,
                Err(e) => {
                    proof {
                        assert(!all_consistent(
                            self.store.txos@,
                            self.store.accounts@[i as int].account_id,
                        ));
                    }
                    return Err(e);
                },
            };
            proof {
                let t1 = self.store.accounts@.take(i as int + 1);
                assert(t1.drop_last() =~= self.store.accounts@.take(i as int));
                assert(t1.last() == self.store.accounts@[i as int]);
                assert(crate::store::distinct_account_ids(t1)) by {
                    assert(forall|p: int, q: int|
                        0 <= p < q < t1.len() ==> t1[p] == self.store.accounts@[p] && t1[q]
                            == self.store.accounts@[q]);
                }
                lemma_total_value_bounds(self.store.txos@);
                lemma_wallet_state_sum_le_total(
                    t1,
                    self.store.subaddresses@,
                    self.store.txos@,
                    TxoState::Unspent,
                    self.local_block_height,
                    0,
                );
                lemma_wallet_state_sum_le_total(
                    t1,
                    self.store.subaddresses@,
                    self.store.txos@,
                    TxoState::Pending,
                    self.local_block_height,
                    0,
                );
                lemma_wallet_state_sum_le_total(
                    t1,
                    self.store.subaddresses@,
                    self.store.txos@,
                    TxoState::Spent,
                    self.local_block_height,
                    0,
                );
                lemma_wallet_state_sum_le_total(
                    t1,
                    self.store.subaddresses@,
                    self.store.txos@,
                    TxoState::Secreted,
                    self.local_block_height,
                    0,
                );
                lemma_wallet_state_sum_le_total(
                    t1,
                    self.store.subaddresses@,
                    self.store.txos@,
                    TxoState::Orphaned,
                    self.local_block_height,
                    0,
                );
                assert(usize::MAX as int <= u64::MAX as int);
                assert(self.store.txos@.len() * (u64::MAX as int) <= (u64::MAX as int) * (
                u64::MAX as int)) by (nonlinear_arith)
                    requires
                        0 <= self.store.txos@.len() <= u64::MAX as int,
                ;
                assert((u64::MAX as int) * (u64::MAX as int) < u128::MAX as int)
                    by (nonlinear_arith);
            }
            unspent = unspent + scanned.0;
            pending = pending + scanned.1;
            spent = spent + scanned.2;
            secreted = secreted + scanned.3;
            orphaned = orphaned + scanned.4;
            let cursor = if account.next_block_index == 0 {
                0
            } else {
                account.next_block_index - 1
            };
            if cursor < min_synced_block_index {
                min_synced_block_index = cursor;
            }
            account_ids.push(account.account_id);
            account_map.push(account);
            proof {
                let t1 = self.store.accounts@.take(i as int + 1);
                assert(account_ids@ =~= account_id_list(t1));
                assert(account_map@ =~= t1);
            }
            i = i + 1;
        }
        let mut view_only_account_ids: Vec<u64> = Vec::new();
        let mut view_only_account_map: Vec<ViewOnlyAccountRecord> = Vec::new();
        let mut j: usize = 0;
        while j < self.store.view_only_accounts.len()
            invariant
                0 <= j <= self.store.view_only_accounts@.len(),
                view_only_account_ids@ == view_only_account_id_list(
                    self.store.view_only_accounts@.take(j as int),
                ),
                view_only_account_map@ == self.store.view_only_accounts@.take(j as int),
            decreases self.store.view_only_accounts@.len() - j,
        {
            let account = self.store.view_only_accounts[j];
            view_only_account_ids.push(account.account_id);
            view_only_account_map.push(account);
            proof {
                let t1 = self.store.view_only_accounts@.take(j as int + 1);
                assert(view_only_account_ids@ =~= view_only_account_id_list(t1));
                assert(view_only_account_map@ =~= t1);
            }
            j = j + 1;
        }
        proof {
            assert(self.store.accounts@.take(self.store.accounts@.len() as int)
                =~= self.store.accounts@);
            assert(self.store.view_only_accounts@.take(self.store.view_only_accounts@.len() as int)
                =~= self.store.view_only_accounts@);
            lemma_min_synced_le(self.store.accounts@, network_block_height);
        }
        Ok(
            WalletStatus {
                unspent,
                pending,
                spent,
                secreted,
                orphaned,
                network_block_height,
                local_block_height: self.local_block_height,
                min_synced_block_index,
                account_ids,
                account_map,
                view_only_account_ids,
                view_only_account_map,
            },
        )
    }
}

} // verus!
