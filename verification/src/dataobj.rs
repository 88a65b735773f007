//! The upstream interface supplied per entity type by a
//! code-generation layer: the entity's table identity, its column
//! list, its primary key, and a factory building instances from rows.

use vstd::prelude::*;

use crate::connmethods::{BackendRows, Column, ColumnView, VecRow, column_views, vec_from_backend_rows};
use crate::sqlval::{SqlType, SqlVal, SqlValView};
use crate::Result;

verus! {

/// An entity type that can be persisted: the code-generation layer
/// implements this for each model struct. The relationship types of
/// this crate are generic over it.
pub trait DataObject: Sized {
    /// The model of the entity's primary key. Every implementation
    /// gives this a body of its own; the placeholder here only spares
    /// unverified implementations the ghost items.
    open spec fn spec_pk(&self) -> SqlValView {
        arbitrary()
    }

    /// The name of the entity's table, as a sequence of characters.
    open spec fn spec_table() -> Seq<char> {
        arbitrary()
    }

    /// The name of the entity's primary-key column.
    open spec fn spec_pk_column_name() -> Seq<char> {
        arbitrary()
    }

    /// The models of the entity's table columns, in row order.
    open spec fn spec_columns() -> Seq<ColumnView> {
        arbitrary()
    }

    /// The column type of the entity's primary key.
    open spec fn spec_pk_type() -> SqlType {
        arbitrary()
    }

    /// Whether the entity's primary key looks assigned. An entity with
    /// an automatically generated key that has not been saved yet
    /// reports false.
    open spec fn spec_pk_valid(&self) -> bool {
        arbitrary()
    }

    /// The factory's model: the entity a row decodes to, or nothing
    /// when the row does not decode.
    open spec fn spec_from_row(cells: Seq<SqlValView>) -> Option<Self> {
        arbitrary()
    }

    /// The name of the table the entity is stored in.
    fn table() -> (r: &'static str)
        ensures
            r@ == Self::spec_table(),
    ;

    /// The columns of the entity's table, in row order.
    fn columns() -> (r: Vec<Column>)
        ensures
            column_views(r@) == Self::spec_columns(),
    ;

    /// The primary-key column of the entity's table.
    fn pk_column() -> (r: Column)
        ensures
            r.spec_name() == Self::spec_pk_column_name(),
            r.spec_ty() == Self::spec_pk_type(),
    ;

    /// The column type of the entity's primary key.
    fn pk_type() -> (r: SqlType)
        ensures
            r == Self::spec_pk_type(),
    ;

    /// The entity's primary key as a column value.
    fn pk(&self) -> (r: SqlVal)
        ensures
            r@ == self.spec_pk(),
    ;

    /// Whether the entity's primary key looks assigned.
    fn pk_is_valid(&self) -> (r: bool)
        ensures
            r == self.spec_pk_valid(),
    ;

    /// Builds an entity from a materialized row of its table.
    fn from_row(row: &VecRow) -> (r: Result<Self>)
        ensures
            match r {
                Ok(t) => Self::spec_from_row(row@) == Some(t),
                Err(_) => Self::spec_from_row(row@) is None,
            },
    ;
}

/// Whether `ents` is exactly the factory decoding of `rows`: one
/// entity per row, in row order.
pub open spec fn all_rows_decode<T: DataObject>(rows: Seq<Seq<SqlValView>>, ents: Seq<T>) -> bool {
    ents.len() == rows.len() && (forall|i: int|
        0 <= i < rows.len() ==> T::spec_from_row(#[trigger] rows[i]) == Some(ents[i]))
}

/// Materializes every row of a fresh cursor and decodes each through
/// the entity factory. The first failure of the cursor, of a cell
/// read, or of the factory is propagated; on success the result holds
/// exactly one entity per row, in row order, each the factory's
/// decoding of its row. A failure is the cursor's or the factory's
/// own error, passed through; since a driver may report any error
/// value, nothing further can be stated of it, and the consumed
/// cursor has no final state to speak of.
pub fn load_entities<T: DataObject, B: BackendRows>(rows: B, columns: &[Column]) -> (r: Result<
    Vec<T>,
>)
    requires
        rows.pos() == 0,
    ensures
        match r {
            Ok(v) => all_rows_decode(rows.views(), v@),
            Err(_) => true,
        },
{
    let ghost all = rows.views();
    let mut vrows = match vec_from_backend_rows(rows, columns) {
        Ok(vrows) => vrows,
        Err(e) => {
            return Err(e);
        },
    };
    let mut out: Vec<T> = Vec::new();
    proof {
        assert(vrows.rows_seq().len() == all.len());
    }
    loop
        invariant
            vrows.views().len() == all.len(),
            forall|j: int| 0 <= j < all.len() ==> #[trigger] vrows.views()[j] == all[j],
            0 <= vrows.pos() <= all.len(),
            out@.len() == vrows.pos(),
            forall|i: int|
                0 <= i < out@.len() ==> T::spec_from_row(all[i]) == Some(#[trigger] out@[i]),
        ensures
            out@.len() == all.len(),
            forall|i: int|
                0 <= i < out@.len() ==> T::spec_from_row(#[trigger] all[i]) == Some(out@[i]),
        decreases all.len() - vrows.pos(),
    {
        match vrows.next() {
            Ok(Some(row)) => {
                let obj = match T::from_row(&row) {
                    Ok(obj) => obj,
                    Err(e) => {
                        return Err(e);
                    },
                };
                out.push(obj);
            },
            Ok(None) => {
                break ;
            },
            Err(e) => {
                return Err(e);
            },
        }
    }
    Ok(out)
}

} // verus!
