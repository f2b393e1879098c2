//! Rows, relation descriptions and catalog identifiers, as far as the
//! sequencer reads them.

use vstd::prelude::*;

verus! {

/// One value of a row. `None` is SQL `NULL`.
pub type Datum = Option<i64>;

/// One row of a relation: its datums, in column order.
pub type Row = Vec<Datum>;

/// The signed multiplicity of a row in a change set: positive for
/// insertions, negative for retractions.
pub type Diff = i64;

/// The identifier of a catalog object.
#[derive(Clone, Copy, Debug, PartialEq, Eq, Structural)]
pub enum GlobalId {
    /// An object of the system catalog.
    System(u64),
    /// An object that a user created.
    User(u64),
    /// An object that lives as long as the coordinator that made it.
    Transient(u64),
    /// The query of an `EXPLAIN`.
    Explain,
}

/// The type of one column, as far as rows are held against it.
#[derive(Clone, Copy, Debug, PartialEq, Eq, Structural)]
pub struct ColumnType {
    /// Whether the column takes `NULL`.
    pub nullable: bool,
}

/// The name and type of one column.
#[derive(Debug, PartialEq, Eq)]
pub struct ColumnDesc {
    pub name: String,
    pub typ: ColumnType,
}

/// The columns of a relation.
#[derive(Debug, PartialEq, Eq)]
pub struct RelationDesc {
    pub columns: Vec<ColumnDesc>,
}

/// Why a datum may not stand in a column.
#[derive(Debug, PartialEq, Eq)]
pub struct NotNullViolation {
    /// The name of the column that refuses `NULL`.
    pub column: String,
}

/// The bytes that a datum takes in a row: a tag, and eight bytes of payload
/// where it is not `NULL`.
pub open spec fn datum_size_spec(datum: Datum) -> nat {
    match datum {
        None => 1,
        Some(_) => 9,
    }
}

/// The bytes that a row takes: the sum of its datums' sizes.
pub open spec fn row_size_spec(row: Seq<Datum>) -> nat
    decreases row.len(),
{
    if row.len() == 0 {
        0
    } else {
        row_size_spec(row.drop_last()) + datum_size_spec(row.last())
    }
}

pub fn datum_size(datum: &Datum) -> (n: usize)
    ensures
        n == datum_size_spec(*datum),
{
    match datum {
        None => 1,
        Some(_) => 9,
    }
}

/// The size of `row` in bytes, or `None` where it does not fit a `usize`.
pub fn row_size(row: &Row) -> (n: Option<usize>)
    ensures
        match n {
            Some(n) => n == row_size_spec(row@),
            None => row_size_spec(row@) > usize::MAX,
        },
{
    let mut size: usize = 0;
    let mut i: usize = 0;
    while i < row.len()
        invariant
            i <= row.len(),
            size == row_size_spec(row@.take(i as int)),
        decreases row.len() - i,
    {
        let d = datum_size(&row[i]);
        proof {
            assert(row@.take(i + 1).drop_last() =~= row@.take(i as int));
        }
        if size > usize::MAX - d {
            proof {
                lemma_row_size_monotone(row@, i + 1);
            }
            return None;
        }
        size = size + d;
        i = i + 1;
    }
    proof {
        assert(row@.take(row.len() as int) =~= row@);
    }
    Some(size)
}

/// A prefix of a row takes no more bytes than the row.
pub proof fn lemma_row_size_monotone(row: Seq<Datum>, n: int)
    requires
        0 <= n <= row.len(),
    ensures
        row_size_spec(row.take(n)) <= row_size_spec(row),
    decreases row.len() - n,
{
    if n < row.len() {
        lemma_row_size_monotone(row, n + 1);
        assert(row.take(n + 1).drop_last() =~= row.take(n));
    } else {
        assert(row.take(n) =~= row);
    }
}

impl RelationDesc {
    /// The number of columns.
    pub open spec fn arity_spec(&self) -> nat {
        self.columns@.len()
    }

    pub fn arity(&self) -> (n: usize)
        ensures
            n == self.arity_spec(),
    {
        self.columns.len()
    }

    /// Whether `datum` may stand in column `i`: only `NULL` in a column
    /// that is not nullable may not.
    pub open spec fn admits(&self, i: int, datum: Datum) -> bool {
        datum is Some || self.columns@[i].typ.nullable
    }

    /// Whether every datum of `row` that has a column may stand in it.
    pub open spec fn admits_row(&self, row: Seq<Datum>) -> bool {
        forall|i: int| 0 <= i < row.len() && i < self.columns@.len() ==> self.admits(i, row[i])
    }

    /// Tests `datum` against the constraints of column `i`. The error names
    /// the column.
    pub fn constraints_met(&self, i: usize, datum: &Datum) -> (r: Result<(), NotNullViolation>)
        requires
            i < self.arity_spec(),
        ensures
            r is Ok <==> self.admits(i as int, *datum),
            r matches Err(e) ==> e.column@ == self.columns@[i as int].name@,
    {
        if datum.is_none() && !self.columns[i].typ.nullable {
            Err(NotNullViolation { column: self.columns[i].name.clone() })
        } else {
            Ok(())
        }
    }
}

} // verus!
