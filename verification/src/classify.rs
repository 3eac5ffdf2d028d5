//! The output classifier: a pure, total function from an output record and
//! its query context to exactly one lifecycle state.

use crate::store::{SubaddressRecord, TxoRecord, tracked_indices};
use vstd::prelude::*;

verus! {

/// The five mutually exclusive lifecycle states of a tracked output.
#[derive(Clone, Copy, Debug, PartialEq, Eq, Structural)]
pub enum TxoState {
    /// Received, not yet consumed, subaddress known and tracked.
    Unspent,
    /// Consumption submitted or observed, not yet confirmed deeply enough.
    Pending,
    /// Consumption finalized at a block confirmed to the requested depth.
    Spent,
    /// Value left the account's control without returning to a tracked
    /// subaddress; an account-level concept, never address-scoped.
    Secreted,
    /// Received at a subaddress index the account does not track.
    Orphaned,
}

/// A consuming transaction is recorded at a block index confirmed to the
/// requested depth: at or before `local_block_height - confirmation_depth`.
pub open spec fn spend_confirmed(
    txo: TxoRecord,
    local_block_height: u64,
    confirmation_depth: u64,
) -> bool {
    match txo.spent_block_index {
        Some(b) => b + confirmation_depth <= local_block_height,
        None => false,
    }
}

/// Some consumption of the output has been observed, confirmed or not.
pub open spec fn spend_observed(txo: TxoRecord) -> bool {
    txo.spent_block_index is Some || txo.pending_spend
}

/// The output was received at a subaddress index the account tracks.
pub open spec fn received_at_tracked(txo: TxoRecord, tracked_set: Set<u64>) -> bool {
    match txo.subaddress_index {
        Some(i) => tracked_set.contains(i),
        None => false,
    }
}

/// Classifies one output, applying the rules in priority order: a confirmed
/// consumption wins, then an observed one, then the secreted marker, then
/// receipt at a tracked subaddress; everything else is orphaned. The rule
/// order is the tie-break when the stored fields are ambiguous (an observed
/// but unconfirmed consumption is pending, never unspent).
pub open spec fn classify(
    txo: TxoRecord,
    tracked_set: Set<u64>,
    local_block_height: u64,
    confirmation_depth: u64,
) -> TxoState {
    if spend_confirmed(txo, local_block_height, confirmation_depth) {
        TxoState::Spent
    } else if spend_observed(txo) {
        TxoState::Pending
    } else if txo.secreted {
        TxoState::Secreted
    } else if received_at_tracked(txo, tracked_set) {
        TxoState::Unspent
    } else {
        TxoState::Orphaned
    }
}

/// The stored fields respect the classifier's bookkeeping: secreted value is
/// recorded separately from the received-output scan, so a secreted output
/// must not also carry a receipt subaddress or any consumption record.
pub open spec fn consistent(txo: TxoRecord) -> bool {
    txo.secreted ==> txo.subaddress_index is None && txo.spent_block_index is None
        && !txo.pending_spend
}

/// Checks the classifier's consistency condition on one output record.
pub fn txo_consistent(txo: &TxoRecord) -> (r: bool)
    ensures
        r == consistent(*txo),
{
    if txo.secreted {
        txo.subaddress_index.is_none() && txo.spent_block_index.is_none() && !txo.pending_spend
    } else {
        true
    }
}

/// Does `account_id` track the subaddress index `index`?
pub fn is_tracked(subs: &Vec<SubaddressRecord>, account_id: u64, index: u64) -> (r: bool)
    ensures
        r == tracked_indices(subs@, account_id).contains(index),
{
    let mut i: usize = 0;
    while i < subs.len()
        invariant
            0 <= i <= subs@.len(),
            forall|k: int|
                0 <= k < i ==> !((#[trigger] subs@[k]).account_id == account_id
                    && subs@[k].subaddress_index == index),
        decreases subs@.len() - i,
    {
        if subs[i].account_id == account_id && subs[i].subaddress_index == index {
            return true;
        }
        i = i + 1;
    }
    false
}

/// Classifies one output of `account_id` against the current subaddress
/// table, the local block height, and the confirmation depth.
pub fn classify_txo(
    txo: &TxoRecord,
    subs: &Vec<SubaddressRecord>,
    account_id: u64,
    local_block_height: u64,
    confirmation_depth: u64,
) -> (state: TxoState)
    ensures
        state == classify(
            *txo,
            tracked_indices(subs@, account_id),
            local_block_height,
            confirmation_depth,
        ),
{
    let confirmed = match txo.spent_block_index {
        Some(b) => confirmation_depth <= local_block_height && b <= local_block_height
            - confirmation_depth,
        None => false,
    };
    if confirmed {
        TxoState::Spent
    } else if txo.spent_block_index.is_some() || txo.pending_spend {
        TxoState::Pending
    } else if txo.secreted {
        TxoState::Secreted
    } else {
        let at_tracked = match txo.subaddress_index {
            Some(i) => is_tracked(subs, account_id, i),
            None => false,
        };
        if at_tracked {
            TxoState::Unspent
        } else {
            TxoState::Orphaned
        }
    }
}

} // verus!
