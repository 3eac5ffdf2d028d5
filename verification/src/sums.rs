//! Value sums over a snapshot's output sequence, per account, per scope and
//! per lifecycle state, with the lemmas the aggregators rest on.

use crate::classify::{TxoState, classify, consistent};
use crate::store::{AccountRecord, SubaddressRecord, TxoRecord, has_account, tracked_indices};
use vstd::prelude::*;

verus! {

/// The output belongs to `account_id` and, when `scope` names a subaddress
/// index, was received at exactly that index.
pub open spec fn in_scope(txo: TxoRecord, account_id: u64, scope: Option<u64>) -> bool {
    txo.account_id == account_id && match scope {
        Some(i) => txo.subaddress_index == Some(i),
        None => true,
    }
}

/// Sum of the values of the outputs of `account_id` that fall inside `scope`
/// and classify to `state`.
pub open spec fn scoped_state_sum(
    txos: Seq<TxoRecord>,
    account_id: u64,
    scope: Option<u64>,
    state: TxoState,
    tracked_set: Set<u64>,
    local_block_height: u64,
    confirmation_depth: u64,
) -> int
    decreases txos.len(),
{
    if txos.len() == 0 {
        0
    } else {
        scoped_state_sum(
            txos.drop_last(),
            account_id,
            scope,
            state,
            tracked_set,
            local_block_height,
            confirmation_depth,
        ) + if in_scope(txos.last(), account_id, scope) && classify(
            txos.last(),
            tracked_set,
            local_block_height,
            confirmation_depth,
        ) == state {
            txos.last().value as int
        } else {
            0
        }
    }
}

/// Sum of the values of all outputs of `account_id` that fall inside `scope`,
/// whatever their state.
pub open spec fn scoped_total(
    txos: Seq<TxoRecord>,
    account_id: u64,
    scope: Option<u64>,
) -> int
    decreases txos.len(),
{
    if txos.len() == 0 {
        0
    } else {
        scoped_total(txos.drop_last(), account_id, scope) + if in_scope(
            txos.last(),
            account_id,
            scope,
        ) {
            txos.last().value as int
        } else {
            0
        }
    }
}

/// Sum of the values of every output in the snapshot.
pub open spec fn total_value(txos: Seq<TxoRecord>) -> int
    decreases txos.len(),
{
    if txos.len() == 0 {
        0
    } else {
        total_value(txos.drop_last()) + txos.last().value as int
    }
}

/// The values, in store order, of the outputs of `account_id` inside `scope`
/// that classify as unspent: the candidates for spending.
pub open spec fn unspent_values(
    txos: Seq<TxoRecord>,
    account_id: u64,
    scope: Option<u64>,
    tracked_set: Set<u64>,
    local_block_height: u64,
    confirmation_depth: u64,
) -> Seq<u64>
    decreases txos.len(),
{
    if txos.len() == 0 {
        Seq::empty()
    } else {
        unspent_values(
            txos.drop_last(),
            account_id,
            scope,
            tracked_set,
            local_block_height,
            confirmation_depth,
        ) + if in_scope(txos.last(), account_id, scope) && classify(
            txos.last(),
            tracked_set,
            local_block_height,
            confirmation_depth,
        ) == TxoState::Unspent {
            seq![txos.last().value]
        } else {
            Seq::empty()
        }
    }
}

/// Every output of `account_id` in the snapshot passes the classifier's
/// consistency condition.
pub open spec fn all_consistent(txos: Seq<TxoRecord>, account_id: u64) -> bool {
    forall|i: int|
        0 <= i < txos.len() && (#[trigger] txos[i]).account_id == account_id ==> consistent(
            txos[i],
        )
}

pub proof fn lemma_total_value_bounds(txos: Seq<TxoRecord>)
    ensures
        0 <= total_value(txos) <= txos.len() * (u64::MAX as int),
    decreases txos.len(),
{
    if txos.len() > 0 {
        lemma_total_value_bounds(txos.drop_last());
        assert((txos.len() - 1) * (u64::MAX as int) + (u64::MAX as int) == txos.len() * (
        u64::MAX as int)) by (nonlinear_arith);
    }
}

/// A per-state, per-scope sum never exceeds the snapshot-wide total.
pub proof fn lemma_scoped_state_sum_le_total(
    txos: Seq<TxoRecord>,
    account_id: u64,
    scope: Option<u64>,
    state: TxoState,
    tracked_set: Set<u64>,
    local_block_height: u64,
    confirmation_depth: u64,
)
    ensures
        scoped_state_sum(
            txos,
            account_id,
            scope,
            state,
            tracked_set,
            local_block_height,
            confirmation_depth,
        ) <= total_value(txos),
    decreases txos.len(),
{
    if txos.len() > 0 {
        lemma_scoped_state_sum_le_total(
            txos.drop_last(),
            account_id,
            scope,
            state,
            tracked_set,
            local_block_height,
            confirmation_depth,
        );
    }
}

/// Per-account sums of one state, folded over a sequence of accounts, each
/// account taken at whole-account scope with its own tracked subaddresses.
pub open spec fn wallet_state_sum(
    accounts: Seq<AccountRecord>,
    subs: Seq<SubaddressRecord>,
    txos: Seq<TxoRecord>,
    state: TxoState,
    local_block_height: u64,
    confirmation_depth: u64,
) -> int
    decreases accounts.len(),
{
    if accounts.len() == 0 {
        0
    } else {
        wallet_state_sum(
            accounts.drop_last(),
            subs,
            txos,
            state,
            local_block_height,
            confirmation_depth,
        ) + scoped_state_sum(
            txos,
            accounts.last().account_id,
            None,
            state,
            tracked_indices(subs, accounts.last().account_id),
            local_block_height,
            confirmation_depth,
        )
    }
}

pub proof fn lemma_wallet_state_sum_empty(
    accounts: Seq<AccountRecord>,
    subs: Seq<SubaddressRecord>,
    state: TxoState,
    local_block_height: u64,
    confirmation_depth: u64,
)
    ensures
        wallet_state_sum(
            accounts,
            subs,
            Seq::empty(),
            state,
            local_block_height,
            confirmation_depth,
        ) == 0,
    decreases accounts.len(),
{
    if accounts.len() > 0 {
        lemma_wallet_state_sum_empty(
            accounts.drop_last(),
            subs,
            state,
            local_block_height,
            confirmation_depth,
        );
    }
}

/// Dropping the last output changes the folded wallet sum by that output's
/// value exactly when some listed account owns the output and it classifies
/// to `state`; with distinct account ids it is counted at most once.
pub proof fn lemma_wallet_state_sum_step(
    accounts: Seq<AccountRecord>,
    subs: Seq<SubaddressRecord>,
    txos: Seq<TxoRecord>,
    state: TxoState,
    local_block_height: u64,
    confirmation_depth: u64,
)
    requires
        txos.len() > 0,
        crate::store::distinct_account_ids(accounts),
    ensures
        wallet_state_sum(accounts, subs, txos, state, local_block_height, confirmation_depth)
            == wallet_state_sum(
            accounts,
            subs,
            txos.drop_last(),
            state,
            local_block_height,
            confirmation_depth,
        ) + if has_account(accounts, txos.last().account_id) && classify(
            txos.last(),
            tracked_indices(subs, txos.last().account_id),
            local_block_height,
            confirmation_depth,
        ) == state {
            txos.last().value as int
        } else {
            0
        },
    decreases accounts.len(),
{
    if accounts.len() > 0 {
        let front = accounts.drop_last();
        let last_account = accounts.last();
        let t = txos.last();
        assert(crate::store::distinct_account_ids(front));
        lemma_wallet_state_sum_step(
            front,
            subs,
            txos,
            state,
            local_block_height,
            confirmation_depth,
        );
        if last_account.account_id == t.account_id {
            assert(!has_account(front, t.account_id)) by {
                if has_account(front, t.account_id) {
                    let i = choose|i: int|
                        0 <= i < front.len() && (#[trigger] front[i]).account_id == t.account_id;
                    assert(accounts[i].account_id != accounts[accounts.len() - 1].account_id);
                }
            }
            assert(has_account(accounts, t.account_id)) by {
                assert(accounts[accounts.len() - 1].account_id == t.account_id);
            }
        } else {
            assert(has_account(accounts, t.account_id) == has_account(front, t.account_id)) by {
                if has_account(accounts, t.account_id) {
                    let i = choose|i: int|
                        0 <= i < accounts.len() && (#[trigger] accounts[i]).account_id
                            == t.account_id;
                    assert(i < accounts.len() - 1);
                    assert(front[i] == accounts[i]);
                }
                if has_account(front, t.account_id) {
                    let i = choose|i: int|
                        0 <= i < front.len() && (#[trigger] front[i]).account_id == t.account_id;
                    assert(accounts[i] == front[i]);
                }
            }
        }
    }
}

/// With distinct account ids the folded wallet sum never exceeds the
/// snapshot-wide total: the per-account output sets are disjoint.
pub proof fn lemma_wallet_state_sum_le_total(
    accounts: Seq<AccountRecord>,
    subs: Seq<SubaddressRecord>,
    txos: Seq<TxoRecord>,
    state: TxoState,
    local_block_height: u64,
    confirmation_depth: u64,
)
    requires
        crate::store::distinct_account_ids(accounts),
    ensures
        0 <= wallet_state_sum(
            accounts,
            subs,
            txos,
            state,
            local_block_height,
            confirmation_depth,
        ) <= total_value(txos),
    decreases txos.len(),
{
    if txos.len() == 0 {
        lemma_wallet_state_sum_empty(accounts, subs, state, local_block_height, confirmation_depth);
        assert(txos =~= Seq::<TxoRecord>::empty());
    } else {
        lemma_wallet_state_sum_le_total(
            accounts,
            subs,
            txos.drop_last(),
            state,
            local_block_height,
            confirmation_depth,
        );
        lemma_wallet_state_sum_step(
            accounts,
            subs,
            txos,
            state,
            local_block_height,
            confirmation_depth,
        );
    }
}

} // verus!
