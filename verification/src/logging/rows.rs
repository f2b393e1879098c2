//! The rows in which the logs are arranged.

use crate::logging::differential::Update;
use crate::logging::timely::{
    ChannelsRecord, HistogramRecord, MessagesRecord, ParkRecord, ScheduleRecord,
};
use crate::finishing::clone_row;
use crate::repr::Datum;
use vstd::prelude::*;

verus! {

/// A datum of a row of the logs: a scalar, or a list of scalars.
#[derive(Debug, PartialEq, Eq)]
pub enum LogDatum {
    Scalar(Datum),
    List(Vec<Datum>),
}

/// A row of a log: its datums, in column order.
pub type LogRow = Vec<LogDatum>;

/// A datum of a row of the logs as contracts see it.
pub enum LogDatumView {
    Scalar(Datum),
    List(Seq<Datum>),
}

impl View for LogDatum {
    type V = LogDatumView;

    open spec fn view(&self) -> LogDatumView {
        match self {
            LogDatum::Scalar(datum) => LogDatumView::Scalar(*datum),
            LogDatum::List(datums) => LogDatumView::List(datums@),
        }
    }
}

/// A row of a log as contracts see it.
pub open spec fn row_view(row: Seq<LogDatum>) -> Seq<LogDatumView> {
    row.map_values(|datum: LogDatum| datum@)
}

/// An identifier as a datum. One that does not fit is cut to size.
pub open spec fn datum_of(n: usize) -> Datum {
    Some(n as i64)
}

/// An identifier as a datum of a log.
pub open spec fn scalar_of(n: usize) -> LogDatum {
    LogDatum::Scalar(datum_of(n))
}

fn datum(n: usize) -> (d: Datum)
    ensures
        d == datum_of(n),
{
    Some(#[verifier::truncate]
    (n as i64))
}

fn scalar(n: usize) -> (d: LogDatum)
    ensures
        d == scalar_of(n),
{
    LogDatum::Scalar(datum(n))
}

/// The row of an address: the identifier, the worker, and the address as
/// one list, which is empty where the address is.
pub open spec fn address_row(id: i64, worker: i64, address: Seq<usize>) -> Seq<LogDatumView> {
    seq![
        LogDatumView::Scalar(Some(id)),
        LogDatumView::Scalar(Some(worker)),
        LogDatumView::List(address.map_values(|a: usize| datum_of(a))),
    ]
}

pub fn create_address_row(id: i64, worker: i64, address: &[usize]) -> (row: LogRow)
    ensures
        row@.len() == 3,
        row@[0] == LogDatum::Scalar(Some(id)),
        row@[1] == LogDatum::Scalar(Some(worker)),
        row@[2] matches LogDatum::List(entries) && entries@ == address@.map_values(
            |a: usize| datum_of(a),
        ),
        row_view(row@) == address_row(id, worker, address@),
{
    // The entries are gathered first: the list is a datum of its own.
    let mut entries: Vec<Datum> = Vec::with_capacity(address.len());
    let mut i: usize = 0;
    while i < address.len()
        invariant
            i <= address.len(),
            entries@ == address@.take(i as int).map_values(|a: usize| datum_of(a)),
        decreases address.len() - i,
    {
        entries.push(datum(address[i]));
        assert(entries@ =~= address@.take(i + 1).map_values(|a: usize| datum_of(a)));
        i = i + 1;
    }
    assert(address@.take(address.len() as int) =~= address@);
    let mut row: LogRow = Vec::with_capacity(3);
    row.push(LogDatum::Scalar(Some(id)));
    row.push(LogDatum::Scalar(Some(worker)));
    row.push(LogDatum::List(entries));
    assert(row_view(row@) =~= address_row(id, worker, address@));
    row
}

impl Update {
    /// The row of the update on `worker`: the operator and the worker.
    pub fn to_row(&self, worker: usize) -> (row: LogRow)
        ensures
            row@ == seq![scalar_of(self.operator), scalar_of(worker)],
    {
        let mut row: LogRow = Vec::new();
        row.push(scalar(self.operator));
        row.push(scalar(worker));
        row
    }
}

impl ChannelsRecord {
    /// The row of the channel: identifier, worker, and the operator and
    /// port at each end.
    pub fn to_row(&self) -> (row: LogRow)
        ensures
            row@ == seq![
                scalar_of(self.id),
                scalar_of(self.worker),
                scalar_of(self.source_node),
                scalar_of(self.source_port),
                scalar_of(self.target_node),
                scalar_of(self.target_port),
            ],
    {
        let mut row: LogRow = Vec::new();
        row.push(scalar(self.id));
        row.push(scalar(self.worker));
        row.push(scalar(self.source_node));
        row.push(scalar(self.source_port));
        row.push(scalar(self.target_node));
        row.push(scalar(self.target_port));
        row
    }
}

impl ParkRecord {
    /// The row of the park: worker, the time parked, and the time asked
    /// for or `NULL`.
    pub fn to_row(&self) -> (row: LogRow)
        ensures
            row@ == seq![
                scalar_of(self.worker),
                LogDatum::Scalar(Some(self.duration_pow)),
                LogDatum::Scalar(
                    match self.requested_pow {
                        Some(requested) => Some(requested as i64),
                        None => None,
                    },
                ),
            ],
    {
        let mut row: LogRow = Vec::new();
        row.push(scalar(self.worker));
        row.push(LogDatum::Scalar(Some(self.duration_pow)));
        row.push(
            LogDatum::Scalar(
                match self.requested_pow {
                    Some(requested) => Some(#[verifier::truncate]
                    (requested as i64)),
                    None => None,
                },
            ),
        );
        row
    }
}

impl MessagesRecord {
    /// The row of the messages: channel, worker and peer.
    pub fn to_row(&self) -> (row: LogRow)
        ensures
            row@ == seq![scalar_of(self.channel), scalar_of(self.worker), scalar_of(self.peer)],
    {
        let mut row: LogRow = Vec::new();
        row.push(scalar(self.channel));
        row.push(scalar(self.worker));
        row.push(scalar(self.peer));
        row
    }
}

impl ScheduleRecord {
    /// The row of the operator: identifier and worker.
    pub fn to_row(&self) -> (row: LogRow)
        ensures
            row@ == seq![scalar_of(self.id), scalar_of(self.worker)],
    {
        let mut row: LogRow = Vec::new();
        row.push(scalar(self.id));
        row.push(scalar(self.worker));
        row
    }
}

impl HistogramRecord {
    /// The row of the bucket: identifier, worker and the power of two.
    pub fn to_row(&self) -> (row: LogRow)
        ensures
            row@ == seq![
                scalar_of(self.id),
                scalar_of(self.worker),
                LogDatum::Scalar(Some(self.pow as i64)),
            ],
    {
        let mut row: LogRow = Vec::new();
        row.push(scalar(self.id));
        row.push(scalar(self.worker));
        row.push(LogDatum::Scalar(Some(#[verifier::truncate]
        (self.pow as i64))));
        row
    }
}

/// The columns of a relation of `arity` columns that are not among
/// `key`, in order.
pub open spec fn thinned(key: Seq<usize>, arity: int) -> Seq<usize>
    decreases arity,
{
    if arity <= 0 {
        Seq::empty()
    } else if key.contains((arity - 1) as usize) {
        thinned(key, arity - 1)
    } else {
        thinned(key, arity - 1).push((arity - 1) as usize)
    }
}

/// The columns that an arrangement by `key` keeps as its value: those
/// that are not in the key.
pub fn thinning(key: &Vec<usize>, arity: usize) -> (value: Vec<usize>)
    ensures
        value@ == thinned(key@, arity as int),
{
    let mut value: Vec<usize> = Vec::new();
    let mut column: usize = 0;
    while column < arity
        invariant
            column <= arity,
            value@ == thinned(key@, column as int),
        decreases arity - column,
    {
        let mut found = false;
        let mut i: usize = 0;
        while i < key.len()
            invariant
                i <= key.len(),
                found == key@.take(i as int).contains(column),
            decreases key.len() - i,
        {
            if key[i] == column {
                found = true;
            }
            proof {
                let before = key@.take(i as int);
                let after = key@.take(i + 1);
                assert(after =~= before.push(key@[i as int]));
                if before.contains(column) {
                    let k = choose|k: int| 0 <= k < before.len() && before[k] == column;
                    assert(after[k] == column);
                }
                if key@[i as int] == column {
                    assert(after[i as int] == column);
                }
            }
            i = i + 1;
        }
        assert(key@.take(key.len() as int) =~= key@);
        if !found {
            value.push(column);
        }
        column = column + 1;
    }
    value
}

/// The datums of `row` in the columns `columns`, in their order.
pub open spec fn projected(row: Seq<LogDatumView>, columns: Seq<usize>) -> Seq<LogDatumView> {
    columns.map_values(|c: usize| row[c as int])
}

/// A copy of a datum.
pub fn clone_datum(datum: &LogDatum) -> (copy: LogDatum)
    ensures
        copy@ == datum@,
{
    match datum {
        LogDatum::Scalar(scalar) => LogDatum::Scalar(*scalar),
        LogDatum::List(entries) => LogDatum::List(clone_row(entries)),
    }
}

/// The datums of `row` in the columns `columns`, in their order.
pub fn project(row: &LogRow, columns: &Vec<usize>) -> (picked: LogRow)
    requires
        forall|i: int| 0 <= i < columns@.len() ==> #[trigger] columns@[i] < row@.len(),
    ensures
        row_view(picked@) == projected(row_view(row@), columns@),
{
    let mut picked: LogRow = Vec::new();
    let mut i: usize = 0;
    while i < columns.len()
        invariant
            i <= columns.len(),
            forall|i: int| 0 <= i < columns@.len() ==> #[trigger] columns@[i] < row@.len(),
            picked@.len() == i,
            row_view(picked@) == projected(row_view(row@), columns@.take(i as int)),
        decreases columns.len() - i,
    {
        let ghost before = picked@;
        let copy = clone_datum(&row[columns[i]]);
        picked.push(copy);
        proof {
            let wanted = projected(row_view(row@), columns@.take(i + 1));
            assert(picked@.len() == i + 1);
            assert(columns@.take(i + 1).len() == i + 1);
            assert(row_view(picked@).len() == picked@.len());
            assert(wanted.len() == columns@.take(i + 1).len());
            assert forall|j: int| 0 <= j < wanted.len() implies row_view(picked@)[j] == wanted[j] by {
                if j < i {
                    assert(picked@[j] == before[j]);
                    assert(row_view(before)[j] == projected(
                        row_view(row@),
                        columns@.take(i as int),
                    )[j]);
                    assert(columns@.take(i as int)[j] == columns@.take(i + 1)[j]);
                } else {
                    assert(picked@[j] == copy);
                    assert(columns@.take(i + 1)[j] == columns@[i as int]);
                }
            }
            assert(row_view(picked@) =~= wanted);
        }
        i = i + 1;
    }
    assert(columns@.take(columns.len() as int) =~= columns@);
    picked
}

} // verus!
