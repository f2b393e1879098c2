//! Values that stand for rows of a schema known only at run time, and the
//! conversions between them and rows.

use crate::finishing::clone_row;
use crate::repr::{ColumnType, Datum, Row};
use vstd::prelude::*;

verus! {

/// A schema as contracts see it: `None` where none is given.
pub type Schema = Option<Seq<ColumnType>>;

/// The schema that is given, as contracts see it.
pub open spec fn schema_of(types: Option<&[ColumnType]>) -> Schema {
    match types {
        Some(types) => Some(types@),
        None => None,
    }
}

/// A value from which the datums of a row can be had, given a schema.
pub trait IntoRowByTypes: Sized {
    /// Whether the value can be read under the schema.
    spec fn reads_under(self, types: Schema) -> bool;

    /// The datums that the value stands for.
    spec fn datums(self) -> Seq<Datum>;

    /// The datums of the value, under the schema `types`.
    fn into_datum_iter(self, types: Option<&[ColumnType]>) -> (datums: Vec<Datum>)
        requires
            self.reads_under(schema_of(types)),
        ensures
            datums@ == self.datums(),
    ;
}

/// A row describes itself: it is read without a schema and gives its own
/// datums.
impl<'b> IntoRowByTypes for &'b Row {
    open spec fn reads_under(self, types: Schema) -> bool {
        types is None
    }

    open spec fn datums(self) -> Seq<Datum> {
        self@
    }

    fn into_datum_iter(self, types: Option<&[ColumnType]>) -> (datums: Vec<Datum>) {
        clone_row(self)
    }
}

/// The unit value stands for the row without columns, under the schema
/// without columns.
impl<'b> IntoRowByTypes for &'b () {
    open spec fn reads_under(self, types: Schema) -> bool {
        types matches Some(columns) && columns.len() == 0
    }

    open spec fn datums(self) -> Seq<Datum> {
        Seq::empty()
    }

    fn into_datum_iter(self, types: Option<&[ColumnType]>) -> (datums: Vec<Datum>) {
        Vec::new()
    }
}

/// The datums that come before the first error of `items`.
pub open spec fn datums_before_error<E>(items: Seq<Result<Datum, E>>) -> Seq<Datum>
    decreases items.len(),
{
    if items.len() == 0 {
        Seq::empty()
    } else {
        match items[0] {
            Ok(datum) => seq![datum] + datums_before_error(items.skip(1)),
            Err(_) => Seq::empty(),
        }
    }
}

/// The first error of `items`.
pub open spec fn first_error<E>(items: Seq<Result<Datum, E>>) -> Option<E>
    decreases items.len(),
{
    if items.len() == 0 {
        None
    } else {
        match items[0] {
            Ok(_) => first_error(items.skip(1)),
            Err(e) => Some(e),
        }
    }
}

/// A value that can be made from the datums of a row, given a schema.
pub trait FromRowByTypes: Sized + Default {
    /// Whether a value can be made from the datums under the schema.
    spec fn made_under(types: Schema, datums: Seq<Datum>) -> bool;

    /// Whether the value stands for the datums.
    spec fn stands_for(&self, datums: Seq<Datum>) -> bool;

    /// A value for `row`, under the schema `types`. `self` may serve as
    /// a buffer.
    fn from_row(&mut self, row: Row, types: Option<&[ColumnType]>) -> (made: Self)
        requires
            Self::made_under(schema_of(types), row@),
        ensures
            made.stands_for(row@),
    {
        self.from_datum_iter(row.as_slice(), types)
    }

    /// A value for the datums, under the schema `types`. `self` may
    /// serve as a buffer.
    fn from_datum_iter(&mut self, datum_iter: &[Datum], types: Option<&[ColumnType]>) -> (made: Self)
        requires
            Self::made_under(schema_of(types), datum_iter@),
        ensures
            made.stands_for(datum_iter@),
    ;

    /// A value for the datums, under the schema `types`, where none of
    /// them is an error; else the first error, and no datum after it is
    /// looked at.
    fn try_from_datum_iter<E>(
        &mut self,
        datum_iter: Vec<Result<Datum, E>>,
        types: Option<&[ColumnType]>,
    ) -> (made: Result<Self, E>)
        requires
            Self::made_under(schema_of(types), datums_before_error(datum_iter@)),
        ensures
            match made {
                Ok(made) => first_error(datum_iter@) is None && made.stands_for(
                    datums_before_error(datum_iter@),
                ),
                Err(e) => first_error(datum_iter@) == Some(e),
            },
    ;
}

/// A row is made of any datums, without a schema, and stands for them.
/// The buffer holds the same datums afterwards: all of them, or those
/// before the first error.
impl FromRowByTypes for Row {
    open spec fn made_under(types: Schema, datums: Seq<Datum>) -> bool {
        types is None
    }

    open spec fn stands_for(&self, datums: Seq<Datum>) -> bool {
        self@ == datums
    }

    fn from_row(&mut self, row: Row, types: Option<&[ColumnType]>) -> (made: Self)
        ensures
            *final(self) == *old(self),
    {
        row
    }

    fn from_datum_iter(&mut self, datum_iter: &[Datum], types: Option<&[ColumnType]>) -> (made: Self)
        ensures
            final(self)@ == datum_iter@,
    {
        self.clear();
        let mut i: usize = 0;
        while i < datum_iter.len()
            invariant
                i <= datum_iter.len(),
                self@ == datum_iter@.take(i as int),
            decreases datum_iter.len() - i,
        {
            self.push(datum_iter[i]);
            assert(datum_iter@.take(i + 1) =~= datum_iter@.take(i as int).push(
                datum_iter@[i as int],
            ));
            i = i + 1;
        }
        assert(datum_iter@.take(datum_iter.len() as int) =~= datum_iter@);
        clone_row(self)
    }

    fn try_from_datum_iter<E>(
        &mut self,
        datum_iter: Vec<Result<Datum, E>>,
        types: Option<&[ColumnType]>,
    ) -> (made: Result<Self, E>)
        ensures
            final(self)@ == datums_before_error(datum_iter@),
    {
        self.clear();
        let ghost items = datum_iter@;
        let mut rest = datum_iter;
        let mut taken: usize = 0;
        let n = rest.len();
        proof {
            assert(items.skip(0) =~= items);
            assert(self@ + datums_before_error(items) =~= datums_before_error(items));
        }
        while taken < n
            invariant
                taken <= n,
                n == items.len(),
                rest@ == items.skip(taken as int),
                items == datum_iter@,
                datums_before_error(items) == self@ + datums_before_error(items.skip(taken as int)),
                first_error(items) == first_error(items.skip(taken as int)),
            decreases n - taken,
        {
            let item = rest.remove(0);
            proof {
                assert(items.skip(taken as int)[0] == item);
                assert(items.skip(taken as int).skip(1) =~= items.skip(taken + 1));
                assert(rest@ =~= items.skip(taken + 1));
            }
            match item {
                Ok(datum) => {
                    let ghost before = self@;
                    self.push(datum);
                    assert(before.push(datum) + datums_before_error(items.skip(taken + 1)) =~= before
                        + (seq![datum] + datums_before_error(items.skip(taken + 1))));
                },
                Err(e) => {
                    assert(self@ + Seq::<Datum>::empty() =~= self@);
                    return Err(e);
                },
            }
            taken = taken + 1;
        }
        assert(self@ + Seq::<Datum>::empty() =~= self@);
        Ok(clone_row(self))
    }
}

/// The unit value is made of no datums, under the schema without columns.
impl FromRowByTypes for () {
    open spec fn made_under(types: Schema, datums: Seq<Datum>) -> bool {
        &&& types matches Some(columns)
        &&& columns.len() == 0
        &&& datums.len() == 0
    }

    open spec fn stands_for(&self, datums: Seq<Datum>) -> bool {
        datums.len() == 0
    }

    fn from_row(&mut self, row: Row, types: Option<&[ColumnType]>) -> (made: Self) {
        ()
    }

    fn from_datum_iter(&mut self, datum_iter: &[Datum], types: Option<&[ColumnType]>) -> (made: Self) {
        ()
    }

    fn try_from_datum_iter<E>(
        &mut self,
        datum_iter: Vec<Result<Datum, E>>,
        types: Option<&[ColumnType]>,
    ) -> (made: Result<Self, E>) {
        let mut datum_iter = datum_iter;
        if datum_iter.len() == 0 {
            Ok(())
        } else {
            match datum_iter.remove(0) {
                Ok(_) => Ok(()),
                Err(e) => Err(e),
            }
        }
    }
}

} // verus!
