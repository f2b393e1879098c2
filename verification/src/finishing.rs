//! Finishing the rows that a statement hands back to the client.

use crate::error::AdapterError;
use crate::repr::{row_size, row_size_spec, Datum, Row};
use vstd::prelude::*;

verus! {

/// Rows to hand back as contracts see them: each with the number of times
/// it is handed back.
pub type Returning = Seq<(Seq<Datum>, usize)>;

/// The bytes that the rows take once each is repeated.
pub open spec fn result_bytes(returning: Returning) -> int
    decreases returning.len(),
{
    if returning.len() == 0 {
        0
    } else {
        result_bytes(returning.drop_last()) + returning.last().1 * row_size_spec(returning.last().0)
    }
}

/// The rows in order, each repeated as often as it is to be handed back.
pub open spec fn expanded(returning: Returning) -> Seq<Seq<Datum>>
    decreases returning.len(),
{
    if returning.len() == 0 {
        Seq::empty()
    } else {
        expanded(returning.drop_last()) + Seq::new(
            returning.last().1 as nat,
            |i: int| returning.last().0,
        )
    }
}

/// The bytes of a prefix are no more than the bytes of the whole.
pub proof fn lemma_result_bytes_monotone(returning: Returning, n: int)
    requires
        0 <= n <= returning.len(),
    ensures
        result_bytes(returning.take(n)) <= result_bytes(returning),
    decreases returning.len() - n,
{
    if n < returning.len() {
        lemma_result_bytes_monotone(returning, n + 1);
        assert(returning.take(n + 1).drop_last() =~= returning.take(n));
    } else {
        assert(returning.take(n) =~= returning);
    }
}

/// A copy of `row`.
pub fn clone_row(row: &Row) -> (copy: Row)
    ensures
        copy@ == row@,
{
    let mut copy: Row = Vec::new();
    let mut i: usize = 0;
    while i < row.len()
        invariant
            i <= row.len(),
            copy@ == row@.take(i as int),
        decreases row.len() - i,
    {
        copy.push(row[i]);
        assert(row@.take(i + 1) =~= row@.take(i as int).push(row@[i as int]));
        i = i + 1;
    }
    assert(row@.take(row.len() as int) =~= row@);
    copy
}

/// Whether the rows take more than `max_result_size` bytes once each is
/// repeated.
pub fn exceeds_result_size(returning: &Vec<(Row, usize)>, max_result_size: u32) -> (b: bool)
    ensures
        b == (result_bytes(returning.deep_view()) > max_result_size),
{
    let ghost all = returning.deep_view();
    let mut bytes: usize = 0;
    let mut i: usize = 0;
    while i < returning.len()
        invariant
            i <= returning.len(),
            all == returning.deep_view(),
            bytes == result_bytes(all.take(i as int)),
            bytes <= max_result_size,
        decreases returning.len() - i,
    {
        proof {
            assert(all.take(i + 1).drop_last() =~= all.take(i as int));
            assert(all[i as int] == (returning@[i as int].0@, returning@[i as int].1));
            lemma_result_bytes_monotone(all, i + 1);
        }
        let count = returning[i].1;
        let size = row_size(&returning[i].0);
        let ghost row_bytes = row_size_spec(returning@[i as int].0@);
        let product = match size {
            Some(size) => count.checked_mul(size),
            None => {
                if count == 0 {
                    assert(count * row_bytes == 0) by (nonlinear_arith)
                        requires
                            count == 0,
                    ;
                    Some(0)
                } else {
                    assert(count * row_bytes >= row_bytes) by (nonlinear_arith)
                        requires
                            count >= 1,
                            row_bytes >= 0,
                    ;
                    None
                }
            },
        };
        match product {
            Some(product) => {
                assert(product == count * row_bytes);
                if product > max_result_size as usize - bytes {
                    return true;
                }
                bytes = bytes + product;
            },
            None => {
                assert(count * row_bytes > usize::MAX);
                return true;
            },
        }
        i = i + 1;
    }
    proof {
        assert(all.take(returning.len() as int) =~= all);
    }
    false
}

/// The rows in order, each repeated as often as it is to be handed back,
/// or the error that says they take more than `max_result_size` bytes.
pub fn finish_returning(returning: Vec<(Row, usize)>, max_result_size: u32) -> (r: Result<
    Vec<Row>,
    AdapterError,
>)
    ensures
        match r {
            Ok(rows) => result_bytes(returning.deep_view()) <= max_result_size && rows.deep_view()
                == expanded(returning.deep_view()),
            Err(e) => result_bytes(returning.deep_view()) > max_result_size && e
                == AdapterError::ResultSize(max_result_size),
        },
{
    if exceeds_result_size(&returning, max_result_size) {
        return Err(AdapterError::ResultSize(max_result_size));
    }
    let ghost all = returning.deep_view();
    let mut rows: Vec<Row> = Vec::new();
    let mut i: usize = 0;
    while i < returning.len()
        invariant
            i <= returning.len(),
            all == returning.deep_view(),
            rows.deep_view() == expanded(all.take(i as int)),
        decreases returning.len() - i,
    {
        let ghost before = rows.deep_view();
        let count = returning[i].1;
        let mut k: usize = 0;
        while k < count
            invariant
                k <= count,
                i < returning.len(),
                count == returning@[i as int].1,
                rows.deep_view() == before + Seq::new(k as nat, |j: int| returning@[i as int].0@),
            decreases count - k,
        {
            let copy = clone_row(&returning[i].0);
            let ghost prev = rows.deep_view();
            rows.push(copy);
            assert(rows.deep_view() =~= prev.push(copy@)) by {
                assert(copy.deep_view() =~= copy@);
            }
            assert(rows.deep_view() =~= before + Seq::new(
                (k + 1) as nat,
                |j: int| returning@[i as int].0@,
            ));
            k = k + 1;
        }
        proof {
            assert(all.take(i + 1).drop_last() =~= all.take(i as int));
            assert(all[i as int] == (returning@[i as int].0@, returning@[i as int].1));
            assert(Seq::new(count as nat, |j: int| returning@[i as int].0@) =~= Seq::new(
                all.take(i + 1).last().1 as nat,
                |j: int| all.take(i + 1).last().0,
            ));
        }
        i = i + 1;
    }
    proof {
        assert(all.take(returning.len() as int) =~= all);
    }
    Ok(rows)
}

} // verus!
