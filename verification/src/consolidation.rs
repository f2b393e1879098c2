//! Change sets: rows with signed multiplicities, and their consolidation.

use crate::repr::{Datum, Diff, Row};
use vstd::prelude::*;

verus! {

/// A change set as contracts see it.
pub type Updates = Seq<(Seq<Datum>, Diff)>;

/// The order of datums: `NULL` before every value, values by size.
pub open spec fn datum_lt(a: Datum, b: Datum) -> bool {
    match (a, b) {
        (None, None) => false,
        (None, Some(_)) => true,
        (Some(_), None) => false,
        (Some(x), Some(y)) => x < y,
    }
}

/// The order of rows: lexicographic over `datum_lt`, a proper prefix before
/// the longer row.
pub open spec fn row_lt(a: Seq<Datum>, b: Seq<Datum>) -> bool
    decreases a.len(),
{
    if a.len() == 0 {
        b.len() > 0
    } else if b.len() == 0 {
        false
    } else if datum_lt(a[0], b[0]) {
        true
    } else if datum_lt(b[0], a[0]) {
        false
    } else {
        row_lt(a.skip(1), b.skip(1))
    }
}

/// The sum of the multiplicities.
pub open spec fn total(s: Updates) -> int
    decreases s.len(),
{
    if s.len() == 0 {
        0
    } else {
        total(s.drop_last()) + s.last().1
    }
}

/// The sum of the absolute values of the multiplicities.
pub open spec fn magnitude(s: Updates) -> int
    decreases s.len(),
{
    if s.len() == 0 {
        0
    } else {
        magnitude(s.drop_last()) + vstd::math::abs(s.last().1 as int)
    }
}

/// The sum of the multiplicities that `s` gives to `row`.
pub open spec fn net_diff(s: Updates, row: Seq<Datum>) -> int
    decreases s.len(),
{
    if s.len() == 0 {
        0
    } else {
        net_diff(s.drop_last(), row) + if s.last().0 == row {
            s.last().1 as int
        } else {
            0
        }
    }
}

/// Whether no multiplicity is negative.
pub open spec fn all_nonnegative(s: Updates) -> bool {
    forall|i: int| 0 <= i < s.len() ==> (#[trigger] s[i]).1 >= 0
}

/// Whether the rows strictly increase, so that none occurs twice.
pub open spec fn strictly_sorted(s: Updates) -> bool {
    forall|i: int, j: int| 0 <= i < j < s.len() ==> row_lt((#[trigger] s[i]).0, (#[trigger] s[j]).0)
}

/// Whether `c` is the consolidation of `s`: the rows of `s` in increasing
/// order, each once with the sum of its multiplicities, without those whose
/// sum is zero.
pub open spec fn consolidates(c: Updates, s: Updates) -> bool {
    &&& strictly_sorted(c)
    &&& forall|i: int| 0 <= i < c.len() ==> (#[trigger] c[i]).1 != 0
    &&& forall|row: Seq<Datum>| net_diff(c, row) == #[trigger] net_diff(s, row)
}

/// No row is before itself.
pub proof fn lemma_row_lt_irreflexive(a: Seq<Datum>)
    ensures
        !row_lt(a, a),
    decreases a.len(),
{
    if a.len() > 0 {
        lemma_row_lt_irreflexive(a.skip(1));
    }
}

/// Whether no row occurs twice.
pub open spec fn distinct_rows(s: Updates) -> bool {
    forall|i: int, j: int| 0 <= i < j < s.len() ==> (#[trigger] s[i]).0 != (#[trigger] s[j]).0
}

/// Rows that strictly increase are distinct.
pub proof fn lemma_sorted_distinct(s: Updates)
    requires
        strictly_sorted(s),
    ensures
        distinct_rows(s),
{
    assert forall|i: int, j: int| 0 <= i < j < s.len() implies (#[trigger] s[i]).0 != (
    #[trigger] s[j]).0 by {
        lemma_row_lt_irreflexive(s[i].0);
        assert(row_lt(s[i].0, s[j].0));
    }
}

/// A row that does not occur has no multiplicity.
pub proof fn lemma_net_diff_absent(s: Updates, row: Seq<Datum>)
    requires
        forall|i: int| 0 <= i < s.len() ==> (#[trigger] s[i]).0 != row,
    ensures
        net_diff(s, row) == 0,
    decreases s.len(),
{
    if s.len() > 0 {
        assert(s[s.len() - 1].0 != row);
        assert forall|i: int| 0 <= i < s.drop_last().len() implies (#[trigger] s.drop_last()[i]).0
            != row by {
            assert(s[i].0 != row);
        }
        lemma_net_diff_absent(s.drop_last(), row);
    }
}

/// Where no row occurs twice, each row's multiplicity is the one it
/// stands with.
pub proof fn lemma_net_diff_distinct(s: Updates, i: int)
    requires
        distinct_rows(s),
        0 <= i < s.len(),
    ensures
        net_diff(s, s[i].0) == s[i].1,
    decreases s.len(),
{
    let init = s.drop_last();
    let row = s[i].0;
    if i == s.len() - 1 {
        assert forall|k: int| 0 <= k < init.len() implies (#[trigger] init[k]).0 != row by {
            assert(s[k].0 != s[i].0);
        }
        lemma_net_diff_absent(init, row);
    } else {
        assert(distinct_rows(init)) by {
            assert forall|a: int, b: int| 0 <= a < b < init.len() implies (#[trigger] init[a]).0 != (
            #[trigger] init[b]).0 by {
                assert(s[a].0 != s[b].0);
            }
        }
        lemma_net_diff_distinct(init, i);
        assert(s[i].0 != s[s.len() - 1].0);
    }
}

/// The sum, over the rows of `c`, of the absolute value of the
/// multiplicity that `s` gives to the row.
pub open spec fn net_magnitude(c: Updates, s: Updates) -> int
    decreases c.len(),
{
    if c.len() == 0 {
        0
    } else {
        net_magnitude(c.drop_last(), s) + vstd::math::abs(net_diff(s, c.last().0))
    }
}

proof fn lemma_net_magnitude_push_absent(c: Updates, s: Updates, u: (Seq<Datum>, Diff))
    requires
        forall|i: int| 0 <= i < c.len() ==> (#[trigger] c[i]).0 != u.0,
    ensures
        net_magnitude(c, s.push(u)) == net_magnitude(c, s),
    decreases c.len(),
{
    if c.len() > 0 {
        assert forall|i: int| 0 <= i < c.drop_last().len() implies (#[trigger] c.drop_last()[i]).0
            != u.0 by {
            assert(c[i].0 != u.0);
        }
        lemma_net_magnitude_push_absent(c.drop_last(), s, u);
        assert(s.push(u).drop_last() =~= s);
        assert(c[c.len() - 1].0 != u.0);
    }
}

proof fn lemma_net_magnitude_push(c: Updates, s: Updates, u: (Seq<Datum>, Diff))
    requires
        distinct_rows(c),
    ensures
        net_magnitude(c, s.push(u)) <= net_magnitude(c, s) + vstd::math::abs(u.1 as int),
    decreases c.len(),
{
    if c.len() > 0 {
        let init = c.drop_last();
        assert(s.push(u).drop_last() =~= s);
        assert(distinct_rows(init)) by {
            assert forall|a: int, b: int| 0 <= a < b < init.len() implies (#[trigger] init[a]).0 != (
            #[trigger] init[b]).0 by {
                assert(c[a].0 != c[b].0);
            }
        }
        if c.last().0 == u.0 {
            assert forall|i: int| 0 <= i < init.len() implies (#[trigger] init[i]).0 != u.0 by {
                assert(c[i].0 != c[c.len() - 1].0);
            }
            lemma_net_magnitude_push_absent(init, s, u);
        } else {
            lemma_net_magnitude_push(init, s, u);
        }
    }
}

proof fn lemma_net_magnitude_bound(c: Updates, s: Updates)
    requires
        distinct_rows(c),
    ensures
        net_magnitude(c, s) <= magnitude(s),
    decreases s.len(),
{
    if s.len() == 0 {
        lemma_net_magnitude_of_nothing(c, s);
    } else {
        lemma_net_magnitude_bound(c, s.drop_last());
        lemma_net_magnitude_push(c, s.drop_last(), s.last());
        assert(s.drop_last().push(s.last()) =~= s);
    }
}

proof fn lemma_net_magnitude_of_nothing(c: Updates, s: Updates)
    requires
        s.len() == 0,
    ensures
        net_magnitude(c, s) == 0,
    decreases c.len(),
{
    if c.len() > 0 {
        lemma_net_magnitude_of_nothing(c.drop_last(), s);
    }
}

proof fn lemma_net_magnitude_same(c: Updates, s: Updates, t: Updates)
    requires
        forall|row: Seq<Datum>| net_diff(s, row) == #[trigger] net_diff(t, row),
    ensures
        net_magnitude(c, s) == net_magnitude(c, t),
    decreases c.len(),
{
    if c.len() > 0 {
        lemma_net_magnitude_same(c.drop_last(), s, t);
        assert(net_diff(s, c.last().0) == net_diff(t, c.last().0));
    }
}

proof fn lemma_magnitude_of_distinct(c: Updates, n: int)
    requires
        distinct_rows(c),
        0 <= n <= c.len(),
    ensures
        magnitude(c.take(n)) == net_magnitude(c.take(n), c),
    decreases n,
{
    if n > 0 {
        lemma_magnitude_of_distinct(c, n - 1);
        assert(c.take(n).drop_last() =~= c.take(n - 1));
        lemma_net_diff_distinct(c, n - 1);
    }
}

/// Consolidation does not raise the magnitude.
pub proof fn lemma_consolidation_magnitude(c: Updates, s: Updates)
    requires
        consolidates(c, s),
    ensures
        magnitude(c) <= magnitude(s),
{
    lemma_sorted_distinct(c);
    lemma_magnitude_of_distinct(c, c.len() as int);
    assert(c.take(c.len() as int) =~= c);
    lemma_net_magnitude_same(c, c, s);
    lemma_net_magnitude_bound(c, s);
}

/// The magnitude is not negative, and the total lies within it.
pub proof fn lemma_total_within_magnitude(s: Updates)
    ensures
        0 <= magnitude(s),
        -magnitude(s) <= total(s) <= magnitude(s),
        all_nonnegative(s) ==> total(s) == magnitude(s),
    decreases s.len(),
{
    if s.len() > 0 {
        lemma_total_within_magnitude(s.drop_last());
        if all_nonnegative(s) {
            assert(s[s.len() - 1].1 >= 0);
            assert forall|i: int| 0 <= i < s.drop_last().len() implies (
            #[trigger] s.drop_last()[i]).1 >= 0 by {
                assert(s[i].1 >= 0);
            }
        }
    }
}

/// Of two rows, at most one is before the other.
pub proof fn lemma_row_lt_asymmetric(a: Seq<Datum>, b: Seq<Datum>)
    ensures
        !(row_lt(a, b) && row_lt(b, a)),
    decreases a.len(),
{
    if a.len() > 0 && b.len() > 0 {
        lemma_row_lt_asymmetric(a.skip(1), b.skip(1));
    }
}

/// Whether the row occurs among the updates.
pub open spec fn occurs(s: Updates, row: Seq<Datum>) -> bool {
    exists|i: int| 0 <= i < s.len() && (#[trigger] s[i]).0 == row
}

/// Among distinct rows with multiplicities that are not zero, the rows
/// that occur are those that have a multiplicity.
proof fn lemma_occurs_iff_net(c: Updates, row: Seq<Datum>)
    requires
        distinct_rows(c),
        forall|i: int| 0 <= i < c.len() ==> (#[trigger] c[i]).1 != 0,
    ensures
        occurs(c, row) <==> net_diff(c, row) != 0,
{
    if occurs(c, row) {
        let i = choose|i: int| 0 <= i < c.len() && (#[trigger] c[i]).0 == row;
        lemma_net_diff_distinct(c, i);
    } else {
        lemma_net_diff_absent(c, row);
    }
}

/// Rows that strictly increase are told by which rows occur: two such
/// sequences of the same rows hold them at the same places.
proof fn lemma_sorted_rows_unique(a: Updates, b: Updates)
    requires
        strictly_sorted(a),
        strictly_sorted(b),
        forall|row: Seq<Datum>| occurs(a, row) <==> occurs(b, row),
    ensures
        a.len() == b.len(),
        forall|i: int| 0 <= i < a.len() ==> (#[trigger] a[i]).0 == b[i].0,
    decreases a.len(),
{
    if a.len() == 0 {
        if b.len() > 0 {
            assert(occurs(b, b[0].0));
            assert(occurs(a, b[0].0));
        }
    } else {
        let la = a.last().0;
        assert(a[a.len() - 1].0 == la);
        assert(occurs(a, la));
        assert(occurs(b, la));
        let lb = b.last().0;
        assert(b[b.len() - 1].0 == lb);
        assert(occurs(b, lb));
        assert(occurs(a, lb));
        let j = choose|j: int| 0 <= j < b.len() && (#[trigger] b[j]).0 == la;
        let k = choose|k: int| 0 <= k < a.len() && (#[trigger] a[k]).0 == lb;
        if j < b.len() - 1 && k < a.len() - 1 {
            assert(row_lt(b[j].0, b[b.len() - 1].0));
            assert(row_lt(a[k].0, a[a.len() - 1].0));
            lemma_row_lt_asymmetric(la, lb);
        }
        assert(la == lb);
        let a0 = a.drop_last();
        let b0 = b.drop_last();
        lemma_sorted_distinct(a);
        lemma_sorted_distinct(b);
        assert(strictly_sorted(a0)) by {
            assert forall|i: int, j: int| 0 <= i < j < a0.len() implies row_lt(
                (#[trigger] a0[i]).0,
                (#[trigger] a0[j]).0,
            ) by {
                assert(row_lt(a[i].0, a[j].0));
            }
        }
        assert(strictly_sorted(b0)) by {
            assert forall|i: int, j: int| 0 <= i < j < b0.len() implies row_lt(
                (#[trigger] b0[i]).0,
                (#[trigger] b0[j]).0,
            ) by {
                assert(row_lt(b[i].0, b[j].0));
            }
        }
        assert forall|row: Seq<Datum>| occurs(a0, row) <==> occurs(b0, row) by {
            if occurs(a0, row) {
                let i = choose|i: int| 0 <= i < a0.len() && (#[trigger] a0[i]).0 == row;
                assert(a[i].0 == row);
                assert(a[i].0 != a[a.len() - 1].0);
                assert(occurs(a, row));
                assert(occurs(b, row));
                let m = choose|m: int| 0 <= m < b.len() && (#[trigger] b[m]).0 == row;
                assert(m < b.len() - 1);
                assert(b0[m].0 == row);
            }
            if occurs(b0, row) {
                let i = choose|i: int| 0 <= i < b0.len() && (#[trigger] b0[i]).0 == row;
                assert(b[i].0 == row);
                assert(b[i].0 != b[b.len() - 1].0);
                assert(occurs(b, row));
                assert(occurs(a, row));
                let m = choose|m: int| 0 <= m < a.len() && (#[trigger] a[m]).0 == row;
                assert(m < a.len() - 1);
                assert(a0[m].0 == row);
            }
        }
        lemma_sorted_rows_unique(a0, b0);
        assert forall|i: int| 0 <= i < a.len() implies (#[trigger] a[i]).0 == b[i].0 by {
            if i < a.len() - 1 {
                assert(a0[i].0 == b0[i].0);
            }
        }
    }
}

/// Updates have one consolidation.
pub proof fn lemma_consolidation_unique(c1: Updates, c2: Updates, s: Updates)
    requires
        consolidates(c1, s),
        consolidates(c2, s),
    ensures
        c1 == c2,
{
    lemma_sorted_distinct(c1);
    lemma_sorted_distinct(c2);
    assert forall|row: Seq<Datum>| occurs(c1, row) <==> occurs(c2, row) by {
        lemma_occurs_iff_net(c1, row);
        lemma_occurs_iff_net(c2, row);
        assert(net_diff(c1, row) == net_diff(s, row));
        assert(net_diff(c2, row) == net_diff(s, row));
    }
    lemma_sorted_rows_unique(c1, c2);
    assert forall|i: int| 0 <= i < c1.len() implies c1[i] == c2[i] by {
        lemma_net_diff_distinct(c1, i);
        lemma_net_diff_distinct(c2, i);
        assert(c1[i].0 == c2[i].0);
        assert(net_diff(c1, c1[i].0) == net_diff(s, c1[i].0));
        assert(net_diff(c2, c1[i].0) == net_diff(s, c1[i].0));
    }
    assert(c1 =~= c2);
}

/// The magnitude of a prefix is no more than the magnitude of the whole.
pub proof fn lemma_magnitude_monotone(s: Updates, n: int)
    requires
        0 <= n <= s.len(),
    ensures
        0 <= magnitude(s.take(n)) <= magnitude(s),
    decreases s.len() - n,
{
    lemma_total_within_magnitude(s.take(n));
    if n < s.len() {
        lemma_magnitude_monotone(s, n + 1);
        assert(s.take(n + 1).drop_last() =~= s.take(n));
    } else {
        assert(s.take(n) =~= s);
    }
}

/// Whether the magnitude of the updates fits the integers in which rows
/// are counted.
pub fn magnitude_fits(updates: &Vec<(Row, Diff)>) -> (b: bool)
    ensures
        b == (magnitude(updates.deep_view()) <= i64::MAX && magnitude(updates.deep_view())
            <= usize::MAX),
{
    let ghost all = updates.deep_view();
    let mut sum: u64 = 0;
    let mut i: usize = 0;
    while i < updates.len()
        invariant
            i <= updates.len(),
            all == updates.deep_view(),
            sum == magnitude(all.take(i as int)),
            sum <= i64::MAX,
        decreases updates.len() - i,
    {
        let diff = updates[i].1;
        proof {
            assert(all[i as int].1 == diff);
            assert(all.take(i + 1).drop_last() =~= all.take(i as int));
            lemma_magnitude_monotone(all, i + 1);
        }
        if diff == i64::MIN {
            return false;
        }
        let size: u64 = if diff < 0 {
            (-diff) as u64
        } else {
            diff as u64
        };
        if size > i64::MAX as u64 - sum {
            return false;
        }
        sum = sum + size;
        i = i + 1;
    }
    proof {
        assert(all.take(updates.len() as int) =~= all);
    }
    sum as u128 <= usize::MAX as u128
}

/// Calls `differential_dataflow::consolidation::consolidate`, which sorts
/// the updates by row, replaces each run of equal rows by one update that
/// carries the sum of the run's multiplicities, and drops the updates whose
/// sum is zero. Rows are compared by the order std gives to vectors of
/// options of integers, which is `row_lt`. The sums are made with `+=`,
/// which overflows where a partial sum leaves `i64`: the bound on the
/// magnitude keeps every partial sum inside.
#[verifier::external_body]
pub(crate) fn consolidate(updates: &mut Vec<(Row, Diff)>)
    requires
        magnitude(old(updates).deep_view()) <= i64::MAX,
    ensures
        consolidates(final(updates).deep_view(), old(updates).deep_view()),
{
    differential_dataflow::consolidation::consolidate(updates)
}

} // verus!
