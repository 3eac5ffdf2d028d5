//! The laws of the balance engine, stated over the same spec functions the
//! aggregators' contracts use and proved once and for all.

use crate::classify::{TxoState, classify, received_at_tracked};
use crate::store::{SubaddressRecord, TxoRecord, tracked_indices};
use crate::sums::{in_scope, scoped_state_sum, scoped_total};
use vstd::prelude::*;

verus! {

/// The partition invariant: over any output sequence, any scope, any tracked
/// set and any confirmation depth, the five per-state sums add up to the
/// total value in scope. Each output classifies to exactly one state, so no
/// value is counted twice and none is dropped.
pub proof fn lemma_state_partition(
    txos: Seq<TxoRecord>,
    account_id: u64,
    scope: Option<u64>,
    tracked_set: Set<u64>,
    local_block_height: u64,
    confirmation_depth: u64,
)
    ensures
        scoped_state_sum(
            txos,
            account_id,
            scope,
            TxoState::Unspent,
            tracked_set,
            local_block_height,
            confirmation_depth,
        ) + scoped_state_sum(
            txos,
            account_id,
            scope,
            TxoState::Pending,
            tracked_set,
            local_block_height,
            confirmation_depth,
        ) + scoped_state_sum(
            txos,
            account_id,
            scope,
            TxoState::Spent,
            tracked_set,
            local_block_height,
            confirmation_depth,
        ) + scoped_state_sum(
            txos,
            account_id,
            scope,
            TxoState::Secreted,
            tracked_set,
            local_block_height,
            confirmation_depth,
        ) + scoped_state_sum(
            txos,
            account_id,
            scope,
            TxoState::Orphaned,
            tracked_set,
            local_block_height,
            confirmation_depth,
        ) == scoped_total(txos, account_id, scope),
    decreases txos.len(),
{
    if txos.len() > 0 {
        lemma_state_partition(
            txos.drop_last(),
            account_id,
            scope,
            tracked_set,
            local_block_height,
            confirmation_depth,
        );
    }
}

/// An account none of whose outputs carry the secreted marker has a zero
/// secreted sum at every scope.
pub proof fn lemma_no_secreted_sum_zero(
    txos: Seq<TxoRecord>,
    account_id: u64,
    scope: Option<u64>,
    tracked_set: Set<u64>,
    local_block_height: u64,
    confirmation_depth: u64,
)
    requires
        forall|i: int|
            0 <= i < txos.len() && (#[trigger] txos[i]).account_id == account_id
                ==> !txos[i].secreted,
    ensures
        scoped_state_sum(
            txos,
            account_id,
            scope,
            TxoState::Secreted,
            tracked_set,
            local_block_height,
            confirmation_depth,
        ) == 0,
    decreases txos.len(),
{
    if txos.len() > 0 {
        assert(forall|i: int|
            0 <= i < txos.drop_last().len() && (#[trigger] txos.drop_last()[i]).account_id
                == account_id ==> !txos.drop_last()[i].secreted) by {
            assert(forall|i: int|
                0 <= i < txos.len() - 1 ==> txos.drop_last()[i] == (#[trigger] txos[i]));
        }
        lemma_no_secreted_sum_zero(
            txos.drop_last(),
            account_id,
            scope,
            tracked_set,
            local_block_height,
            confirmation_depth,
        );
    }
}

/// The partition invariant for a view-only output store: with no secreted
/// outputs (a view-only account cannot secret funds), the four remaining
/// per-state sums add up to the total value in scope.
pub proof fn lemma_view_only_partition(
    txos: Seq<TxoRecord>,
    account_id: u64,
    scope: Option<u64>,
    tracked_set: Set<u64>,
    local_block_height: u64,
    confirmation_depth: u64,
)
    requires
        forall|i: int|
            0 <= i < txos.len() && (#[trigger] txos[i]).account_id == account_id
                ==> !txos[i].secreted,
    ensures
        scoped_state_sum(
            txos,
            account_id,
            scope,
            TxoState::Unspent,
            tracked_set,
            local_block_height,
            confirmation_depth,
        ) + scoped_state_sum(
            txos,
            account_id,
            scope,
            TxoState::Pending,
            tracked_set,
            local_block_height,
            confirmation_depth,
        ) + scoped_state_sum(
            txos,
            account_id,
            scope,
            TxoState::Spent,
            tracked_set,
            local_block_height,
            confirmation_depth,
        ) + scoped_state_sum(
            txos,
            account_id,
            scope,
            TxoState::Orphaned,
            tracked_set,
            local_block_height,
            confirmation_depth,
        ) == scoped_total(txos, account_id, scope),
{
    lemma_state_partition(
        txos,
        account_id,
        scope,
        tracked_set,
        local_block_height,
        confirmation_depth,
    );
    lemma_no_secreted_sum_zero(
        txos,
        account_id,
        scope,
        tracked_set,
        local_block_height,
        confirmation_depth,
    );
}

/// Sum of the three address-attributable state sums: unspent, pending and
/// spent. Secreted and orphaned value is account-level only and excluded.
pub open spec fn addressable_sum(
    txos: Seq<TxoRecord>,
    account_id: u64,
    scope: Option<u64>,
    tracked_set: Set<u64>,
    local_block_height: u64,
    confirmation_depth: u64,
) -> int {
    scoped_state_sum(
        txos,
        account_id,
        scope,
        TxoState::Unspent,
        tracked_set,
        local_block_height,
        confirmation_depth,
    ) + scoped_state_sum(
        txos,
        account_id,
        scope,
        TxoState::Pending,
        tracked_set,
        local_block_height,
        confirmation_depth,
    ) + scoped_state_sum(
        txos,
        account_id,
        scope,
        TxoState::Spent,
        tracked_set,
        local_block_height,
        confirmation_depth,
    )
}

/// The address-attributable sum of each listed subaddress, added up over
/// the whole list.
pub open spec fn per_address_sum(
    subs_list: Seq<SubaddressRecord>,
    txos: Seq<TxoRecord>,
    account_id: u64,
    tracked_set: Set<u64>,
    local_block_height: u64,
    confirmation_depth: u64,
) -> int
    decreases subs_list.len(),
{
    if subs_list.len() == 0 {
        0
    } else {
        per_address_sum(
            subs_list.drop_last(),
            txos,
            account_id,
            tracked_set,
            local_block_height,
            confirmation_depth,
        ) + addressable_sum(
            txos,
            account_id,
            Some(subs_list.last().subaddress_index),
            tracked_set,
            local_block_height,
            confirmation_depth,
        )
    }
}

/// `idx` is a subaddress index that appears in the list.
pub open spec fn listed_index(subs_list: Seq<SubaddressRecord>, idx: Option<u64>) -> bool {
    match idx {
        Some(i) => exists|j: int|
            0 <= j < subs_list.len() && (#[trigger] subs_list[j]).subaddress_index == i,
        None => false,
    }
}

/// The set of subaddress indices appearing in the list.
pub open spec fn index_set(subs_list: Seq<SubaddressRecord>) -> Set<u64> {
    Set::new(
        |i: u64|
            exists|j: int|
                0 <= j < subs_list.len() && (#[trigger] subs_list[j]).subaddress_index == i,
    )
}

pub open spec fn distinct_subaddress_indices(subs_list: Seq<SubaddressRecord>) -> bool {
    forall|i: int, j: int|
        #![trigger subs_list[i], subs_list[j]]
        0 <= i < j < subs_list.len() ==> subs_list[i].subaddress_index
            != subs_list[j].subaddress_index
}

proof fn lemma_per_address_sum_empty(
    subs_list: Seq<SubaddressRecord>,
    account_id: u64,
    tracked_set: Set<u64>,
    local_block_height: u64,
    confirmation_depth: u64,
)
    ensures
        per_address_sum(
            subs_list,
            Seq::empty(),
            account_id,
            tracked_set,
            local_block_height,
            confirmation_depth,
        ) == 0,
    decreases subs_list.len(),
{
    if subs_list.len() > 0 {
        lemma_per_address_sum_empty(
            subs_list.drop_last(),
            account_id,
            tracked_set,
            local_block_height,
            confirmation_depth,
        );
    }
}

/// Dropping the last output changes the per-address fold by that output's
/// value exactly when the output belongs to the account, sits at a listed
/// index, and classifies to an address-attributable state; with distinct
/// indices it is counted under at most one listed address.
proof fn lemma_per_address_sum_step(
    subs_list: Seq<SubaddressRecord>,
    txos: Seq<TxoRecord>,
    account_id: u64,
    tracked_set: Set<u64>,
    local_block_height: u64,
    confirmation_depth: u64,
)
    requires
        txos.len() > 0,
        distinct_subaddress_indices(subs_list),
    ensures
        per_address_sum(
            subs_list,
            txos,
            account_id,
            tracked_set,
            local_block_height,
            confirmation_depth,
        ) == per_address_sum(
            subs_list,
            txos.drop_last(),
            account_id,
            tracked_set,
            local_block_height,
            confirmation_depth,
        ) + if txos.last().account_id == account_id && listed_index(
            subs_list,
            txos.last().subaddress_index,
        ) && (classify(txos.last(), tracked_set, local_block_height, confirmation_depth)
            == TxoState::Unspent || classify(
            txos.last(),
            tracked_set,
            local_block_height,
            confirmation_depth,
        ) == TxoState::Pending || classify(
            txos.last(),
            tracked_set,
            local_block_height,
            confirmation_depth,
        ) == TxoState::Spent) {
            txos.last().value as int
        } else {
            0
        },
    decreases subs_list.len(),
{
    if subs_list.len() > 0 {
        let front = subs_list.drop_last();
        let last_sub = subs_list.last();
        let t = txos.last();
        assert(distinct_subaddress_indices(front)) by {
            assert(forall|i: int| 0 <= i < front.len() ==> front[i] == (#[trigger] subs_list[i]));
        }
        lemma_per_address_sum_step(
            front,
            txos,
            account_id,
            tracked_set,
            local_block_height,
            confirmation_depth,
        );
        if t.subaddress_index == Some(last_sub.subaddress_index) {
            assert(!listed_index(front, t.subaddress_index)) by {
                if listed_index(front, t.subaddress_index) {
                    let j = choose|j: int|
                        0 <= j < front.len() && (#[trigger] front[j]).subaddress_index
                            == last_sub.subaddress_index;
                    assert(subs_list[j].subaddress_index
                        != subs_list[subs_list.len() - 1].subaddress_index);
                }
            }
            assert(listed_index(subs_list, t.subaddress_index)) by {
                assert(subs_list[subs_list.len() - 1].subaddress_index
                    == last_sub.subaddress_index);
            }
        } else {
            assert(listed_index(subs_list, t.subaddress_index) == listed_index(
                front,
                t.subaddress_index,
            )) by {
                if listed_index(subs_list, t.subaddress_index) {
                    let i = choose|i: int|
                        0 <= i < subs_list.len() && Some(
                            (#[trigger] subs_list[i]).subaddress_index,
                        ) == t.subaddress_index;
                    assert(i < subs_list.len() - 1);
                    assert(front[i] == subs_list[i]);
                }
                if listed_index(front, t.subaddress_index) {
                    let i = choose|i: int|
                        0 <= i < front.len() && Some((#[trigger] front[i]).subaddress_index)
                            == t.subaddress_index;
                    assert(subs_list[i] == front[i]);
                }
            }
        }
    }
}

/// No double counting across scopes: summing the address-scoped unspent,
/// pending and spent sums over every tracked address of an account yields
/// exactly the account's own unspent, pending and spent total. The law asks
/// that the listed addresses carry distinct indices, that they are the
/// account's tracked set, and that every pending or spent output of the
/// account still carries a tracked subaddress index (an output consumed
/// from an untracked address is visible at account scope only, and with it
/// the totals would legitimately differ).
pub proof fn lemma_no_double_counting(
    subs_list: Seq<SubaddressRecord>,
    txos: Seq<TxoRecord>,
    account_id: u64,
    tracked_set: Set<u64>,
    local_block_height: u64,
    confirmation_depth: u64,
)
    requires
        distinct_subaddress_indices(subs_list),
        forall|j: int|
            0 <= j < subs_list.len() ==> (#[trigger] subs_list[j]).account_id == account_id,
        tracked_set == index_set(subs_list),
        forall|i: int|
            0 <= i < txos.len() && (#[trigger] txos[i]).account_id == account_id && (classify(
                txos[i],
                tracked_set,
                local_block_height,
                confirmation_depth,
            ) == TxoState::Pending || classify(
                txos[i],
                tracked_set,
                local_block_height,
                confirmation_depth,
            ) == TxoState::Spent) ==> listed_index(subs_list, txos[i].subaddress_index),
    ensures
        per_address_sum(
            subs_list,
            txos,
            account_id,
            tracked_set,
            local_block_height,
            confirmation_depth,
        ) == addressable_sum(
            txos,
            account_id,
            None,
            tracked_set,
            local_block_height,
            confirmation_depth,
        ),
    decreases txos.len(),
{
    if txos.len() == 0 {
        lemma_per_address_sum_empty(
            subs_list,
            account_id,
            tracked_set,
            local_block_height,
            confirmation_depth,
        );
        assert(txos =~= Seq::<TxoRecord>::empty());
    } else {
        let t = txos.last();
        assert(forall|i: int|
            0 <= i < txos.drop_last().len() ==> txos.drop_last()[i] == (#[trigger] txos[i]));
        lemma_no_double_counting(
            subs_list,
            txos.drop_last(),
            account_id,
            tracked_set,
            local_block_height,
            confirmation_depth,
        );
        lemma_per_address_sum_step(
            subs_list,
            txos,
            account_id,
            tracked_set,
            local_block_height,
            confirmation_depth,
        );
        let state = classify(t, tracked_set, local_block_height, confirmation_depth);
        if t.account_id == account_id && state == TxoState::Unspent {
            assert(listed_index(subs_list, t.subaddress_index)) by {
                let i = choose|i: u64| t.subaddress_index == Some(i) && tracked_set.contains(i);
                assert(tracked_set.contains(i) == index_set(subs_list).contains(i));
            }
        }
        if t.account_id == account_id && (state == TxoState::Pending || state == TxoState::Spent) {
            assert(listed_index(subs_list, t.subaddress_index)) by {
                assert(txos[txos.len() - 1] == t);
            }
        }
    }
}

/// The no-double-counting law against a store's subaddress table, in the
/// vocabulary of the balance contracts: when `subs_list` enumerates, with
/// distinct indices, exactly the rows of the table `subs` owned by the
/// account, summing the address-attributable sums over those addresses
/// yields the account's own unspent, pending and spent total — provided
/// every pending or spent output of the account still sits at a tracked
/// subaddress.
pub proof fn lemma_no_double_counting_in_store(
    subs: Seq<SubaddressRecord>,
    subs_list: Seq<SubaddressRecord>,
    txos: Seq<TxoRecord>,
    account_id: u64,
    local_block_height: u64,
    confirmation_depth: u64,
)
    requires
        distinct_subaddress_indices(subs_list),
        forall|j: int|
            0 <= j < subs_list.len() ==> subs.contains(#[trigger] subs_list[j]) && subs_list[j].account_id
                == account_id,
        forall|i: int|
            0 <= i < subs.len() && (#[trigger] subs[i]).account_id == account_id
                ==> subs_list.contains(subs[i]),
        forall|i: int|
            0 <= i < txos.len() && (#[trigger] txos[i]).account_id == account_id && (classify(
                txos[i],
                tracked_indices(subs, account_id),
                local_block_height,
                confirmation_depth,
            ) == TxoState::Pending || classify(
                txos[i],
                tracked_indices(subs, account_id),
                local_block_height,
                confirmation_depth,
            ) == TxoState::Spent) ==> received_at_tracked(
                txos[i],
                tracked_indices(subs, account_id),
            ),
    ensures
        per_address_sum(
            subs_list,
            txos,
            account_id,
            tracked_indices(subs, account_id),
            local_block_height,
            confirmation_depth,
        ) == addressable_sum(
            txos,
            account_id,
            None,
            tracked_indices(subs, account_id),
            local_block_height,
            confirmation_depth,
        ),
{
    let tracked_set = tracked_indices(subs, account_id);
    assert(index_set(subs_list) =~= tracked_set) by {
        assert forall|x: u64| index_set(subs_list).contains(x) implies tracked_set.contains(
            x,
        ) by {
            let j = choose|j: int|
                0 <= j < subs_list.len() && (#[trigger] subs_list[j]).subaddress_index == x;
            let i = choose|i: int| 0 <= i < subs.len() && subs[i] == subs_list[j];
            assert(subs[i].account_id == account_id && subs[i].subaddress_index == x);
        }
        assert forall|x: u64| tracked_set.contains(x) implies index_set(subs_list).contains(
            x,
        ) by {
            let i = choose|i: int|
                0 <= i < subs.len() && (#[trigger] subs[i]).account_id == account_id
                    && subs[i].subaddress_index == x;
            let j = choose|j: int| 0 <= j < subs_list.len() && subs_list[j] == subs[i];
            assert(subs_list[j].subaddress_index == x);
        }
    }
    assert forall|i: int|
        0 <= i < txos.len() && (#[trigger] txos[i]).account_id == account_id && (classify(
            txos[i],
            tracked_set,
            local_block_height,
            confirmation_depth,
        ) == TxoState::Pending || classify(
            txos[i],
            tracked_set,
            local_block_height,
            confirmation_depth,
        ) == TxoState::Spent) implies listed_index(subs_list, txos[i].subaddress_index) by {
        assert(received_at_tracked(txos[i], tracked_set));
    }
    lemma_no_double_counting(
        subs_list,
        txos,
        account_id,
        tracked_set,
        local_block_height,
        confirmation_depth,
    );
}

} // verus!
