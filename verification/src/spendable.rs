//! The count-bounded greedy spendability bound.
//!
//! `max_spendable` is the largest value spendable in one transaction given a
//! fixed maximum input count and a flat fee: the unspent values are taken
//! largest first, at most [`MAX_SPENDABLE_INPUTS`] of them, and one fee is
//! subtracted (saturating at zero). This is a documented approximation: it
//! maximizes the count-bounded spendable value and does not re-optimize if
//! the true fee were to vary with the number of inputs actually chosen.

use vstd::prelude::*;

verus! {

/// Policy constant: the maximum number of inputs one transaction may spend.
pub const MAX_SPENDABLE_INPUTS: usize = 16;

/// `v` inserted before the first element it is at least as large as, so that
/// inserting into a descending sequence keeps it descending.
pub open spec fn insert_desc(v: u64, s: Seq<u64>) -> Seq<u64>
    decreases s.len(),
{
    if s.len() == 0 {
        seq![v]
    } else if v >= s[0] {
        seq![v] + s
    } else {
        seq![s[0]] + insert_desc(v, s.drop_first())
    }
}

/// The sequence sorted in descending order by repeated insertion.
pub open spec fn sort_desc(s: Seq<u64>) -> Seq<u64>
    decreases s.len(),
{
    if s.len() == 0 {
        Seq::empty()
    } else {
        insert_desc(s.last(), sort_desc(s.drop_last()))
    }
}

pub open spec fn sum_u64(s: Seq<u64>) -> int
    decreases s.len(),
{
    if s.len() == 0 {
        0
    } else {
        sum_u64(s.drop_last()) + s.last() as int
    }
}

/// The greedy largest-first spendability bound over a set of unspent values:
/// the sum of the up-to-sixteen largest values, minus one flat fee,
/// saturating at zero.
pub open spec fn max_spendable_value(values: Seq<u64>, fee: u64) -> int {
    let count = if values.len() < MAX_SPENDABLE_INPUTS as int {
        values.len() as int
    } else {
        MAX_SPENDABLE_INPUTS as int
    };
    let top = sum_u64(sort_desc(values).take(count));
    if top >= fee {
        top - fee
    } else {
        0
    }
}

pub proof fn lemma_insert_desc_len(v: u64, s: Seq<u64>)
    ensures
        insert_desc(v, s).len() == s.len() + 1,
    decreases s.len(),
{
    if s.len() > 0 && !(v >= s[0]) {
        lemma_insert_desc_len(v, s.drop_first());
    }
}

pub proof fn lemma_sort_desc_len(s: Seq<u64>)
    ensures
        sort_desc(s).len() == s.len(),
    decreases s.len(),
{
    if s.len() > 0 {
        lemma_sort_desc_len(s.drop_last());
        lemma_insert_desc_len(s.last(), sort_desc(s.drop_last()));
    }
}

/// Inserting at the position the scan found (every earlier element strictly
/// greater than `v`, the element at the position, if any, at most `v`) is
/// what `insert_desc` denotes.
proof fn lemma_insert_desc_at(v: u64, s: Seq<u64>, pos: int)
    requires
        0 <= pos <= s.len(),
        forall|k: int| 0 <= k < pos ==> s[k] > v,
        pos < s.len() ==> v >= s[pos],
    ensures
        insert_desc(v, s) =~= s.insert(pos, v),
    decreases pos,
{
    if pos == 0 {
        if s.len() == 0 {
            assert(insert_desc(v, s) =~= s.insert(0, v));
        } else {
            assert(v >= s[0]);
            assert(seq![v] + s =~= s.insert(0, v));
        }
    } else {
        assert(s[0] > v);
        lemma_insert_desc_at(v, s.drop_first(), pos - 1);
        assert(seq![s[0]] + s.drop_first().insert(pos - 1, v) =~= s.insert(pos, v));
    }
}

/// Inserts `v` into the descending-ordered vector `out`, keeping the order.
fn insert_sorted_desc(out: &mut Vec<u64>, v: u64)
    ensures
        final(out)@ == insert_desc(v, old(out)@),
{
    let ghost orig = out@;
    let mut pos: usize = 0;
    while pos < out.len() && out[pos] > v
        invariant
            0 <= pos <= out@.len(),
            out@ == orig,
            forall|k: int| 0 <= k < pos ==> out@[k] > v,
        decreases out@.len() - pos,
    {
        pos = pos + 1;
    }
    proof {
        lemma_insert_desc_at(v, orig, pos as int);
    }
    out.insert(pos, v);
}

/// Computes the greedy largest-first spendability bound over the unspent
/// values in scope: up to [`MAX_SPENDABLE_INPUTS`] of the largest values,
/// minus one flat fee, saturating at zero.
pub fn max_spendable(values: &Vec<u64>, fee: u64) -> (r: u128)
    ensures
        r as int == max_spendable_value(values@, fee),
{
    let mut sorted: Vec<u64> = Vec::new();
    let mut i: usize = 0;
    while i < values.len()
        invariant
            0 <= i <= values@.len(),
            sorted@ == sort_desc(values@.take(i as int)),
        decreases values@.len() - i,
    {
        insert_sorted_desc(&mut sorted, values[i]);
        proof {
            let t1 = values@.take(i as int + 1);
            assert(t1.drop_last() =~= values@.take(i as int));
            assert(t1.last() == values@[i as int]);
        }
        i = i + 1;
    }
    proof {
        assert(values@.take(values@.len() as int) =~= values@);
        lemma_sort_desc_len(values@);
    }
    let count = if sorted.len() < MAX_SPENDABLE_INPUTS {
        sorted.len()
    } else {
        MAX_SPENDABLE_INPUTS
    };
    let mut top: u128 = 0;
    let mut j: usize = 0;
    while j < count
        invariant
            0 <= j <= count,
            count <= MAX_SPENDABLE_INPUTS,
            count <= sorted@.len(),
            top as int == sum_u64(sorted@.take(j as int)),
            top <= j * (u64::MAX as u128),
        decreases count - j,
    {
        proof {
            let t1 = sorted@.take(j as int + 1);
            assert(t1.drop_last() =~= sorted@.take(j as int));
            assert(t1.last() == sorted@[j as int]);
        }
        top = top + sorted[j] as u128;
        j = j + 1;
    }
    if top >= fee as u128 {
        top - fee as u128
    } else {
        0
    }
}

} // verus!
