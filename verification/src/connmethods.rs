//! The backend-agnostic row-cursor and connection contract: columns,
//! single rows, forward-only cursors over query results, and the
//! CRUD-shaped operations a backend driver must offer.

use vstd::prelude::*;

use crate::query::{BoolExpr, BoolExprView, Expr, ExprView, Order, OrderView, order_views};
use crate::sqlval::{SqlType, SqlVal, SqlValView, cell_views};
use crate::{Error, Result};

verus! {

/// Represents a database column: a name and a type, identifying one
/// table slot. Owned by the schema layer; referenced by this crate.
#[derive(Clone, Copy, Debug)]
pub struct Column {
    name: &'static str,
    ty: SqlType,
}

/// The model of a [`Column`]: its name and its declared type.
pub struct ColumnView {
    /// The name of the column.
    pub name: Seq<char>,
    /// The declared type of the column.
    pub ty: SqlType,
}

impl View for Column {
    type V = ColumnView;

    closed spec fn view(&self) -> ColumnView {
        ColumnView { name: self.name@, ty: self.ty }
    }
}

/// The models of a list of columns.
pub open spec fn column_views(s: Seq<Column>) -> Seq<ColumnView> {
    s.map(|i: int, c: Column| c@)
}

impl Column {
    /// The name of the column.
    pub open spec fn spec_name(&self) -> Seq<char> {
        self@.name
    }

    /// The declared type of the column.
    pub open spec fn spec_ty(&self) -> SqlType {
        self@.ty
    }

    /// Makes a column from a name and a type.
    pub fn new(name: &'static str, ty: SqlType) -> (c: Column)
        ensures
            c.spec_name() == name@,
            c.spec_ty() == ty,
    {
        Column { name, ty }
    }

    /// Returns the column's name.
    pub fn name(&self) -> (r: &'static str)
        ensures
            r@ == self.spec_name(),
    {
        self.name
    }

    /// Returns the column's declared type.
    pub fn ty(&self) -> (r: &SqlType)
        ensures
            *r == self.spec_ty(),
    {
        &self.ty
    }
}

/// Backend-specific abstraction of a single result row: an ordered
/// sequence of cells, fixed at cursor-open time, accessed by position
/// with an expected type. Implemented by backend drivers; the
/// contracts here are what every driver must honour.
pub trait BackendRow: Sized {
    /// The models of the row's cells, in order.
    spec fn cells(&self) -> Seq<SqlValView>;

    /// Returns the cell at `idx` read with the declared type `ty`:
    /// out-of-range access is a bounds error and a type-incompatible
    /// read is a conversion error, never a silent coercion.
    fn get(&self, idx: usize, ty: SqlType) -> (r: Result<SqlVal>)
        ensures
            spec_get_obeyed(self.cells(), idx, ty, r),
    ;

    /// The number of cells in the row.
    fn len(&self) -> (r: usize)
        ensures
            r == self.cells().len(),
    ;

    /// Whether the row has no cells.
    fn is_empty(&self) -> (r: bool)
        ensures
            r == (self.cells().len() == 0),
    {
        self.len() == 0
    }

    /// Hands out a copy of the row with the same cells. Cursors use
    /// this to give out rows without consuming their backing store.
    fn duplicate(&self) -> (r: Self)
        ensures
            r.cells() == self.cells(),
    ;
}

/// The outcomes [`BackendRow::get`] admits on a row with the given
/// cells: the contract every implementation's `get` is bound to.
pub open spec fn spec_get_obeyed(
    cells: Seq<SqlValView>,
    idx: usize,
    ty: SqlType,
    r: Result<SqlVal>,
) -> bool {
    match r {
        Ok(v) => idx < cells.len() && v@ == cells[idx as int] && v@.compatible(ty, true),
        Err(e) => {
            &&& (idx < cells.len() && cells[idx as int].compatible(ty, true)) == false
            &&& (e matches Error::BoundsError(_) ==> idx >= cells.len())
            &&& (e matches Error::CannotConvertSqlVal(t, v) ==> idx < cells.len() && t == ty && v@
                == cells[idx as int])
            &&& (e matches Error::BoundsError(_) || e matches Error::CannotConvertSqlVal(_, _))
        },
    }
}

/// A materialized row: the cells themselves, owned.
#[derive(Debug)]
pub struct VecRow {
    values: Vec<SqlVal>,
}

impl View for VecRow {
    type V = Seq<SqlValView>;

    closed spec fn view(&self) -> Seq<SqlValView> {
        cell_views(self.values@)
    }
}

impl VecRow {
    /// Makes a row directly from owned column values.
    pub fn from_values(values: Vec<SqlVal>) -> (r: VecRow)
        ensures
            r@ == cell_views(values@),
    {
        VecRow { values }
    }

    /// Materializes a backend row against a declared column list,
    /// reading each cell with its column's declared type. Fails with a
    /// bounds error when the row's length does not match the column
    /// list, and with a conversion error when a cell is incompatible
    /// with its column's type.
    pub fn new<R: BackendRow>(original: &R, columns: &[Column]) -> (r: Result<VecRow>)
        ensures
            match r {
                Ok(row) => {
                    &&& original.cells().len() == columns@.len()
                    &&& row@ == original.cells()
                    &&& forall|i: int|
                        0 <= i < columns@.len() ==> original.cells()[i].compatible(
                            (#[trigger] columns@[i]).spec_ty(),
                            true,
                        )
                },
                Err(e) => {
                    if original.cells().len() != columns@.len() {
                        e matches Error::BoundsError(_)
                    } else {
                        (e matches Error::CannotConvertSqlVal(t, v) && exists|i: int|
                            0 <= i < columns@.len() && t == (#[trigger] columns@[i]).spec_ty()
                                && v@ == original.cells()[i] && !original.cells()[i].compatible(
                                columns@[i].spec_ty(),
                                true,
                            ))
                    }
                },
            },
    {
        if original.len() != columns.len() {
            return Err(
                Error::BoundsError(String::from_str("row length doesn't match columns specifier length")),
            );
        }
        let mut values: Vec<SqlVal> = Vec::new();
        let mut i: usize = 0;
        while i < columns.len()
            invariant
                i <= columns@.len(),
                original.cells().len() == columns@.len(),
                values@.len() == i,
                forall|j: int| 0 <= j < i ==> (#[trigger] values@[j])@ == original.cells()[j],
                forall|j: int|
                    0 <= j < i ==> original.cells()[j].compatible(
                        (#[trigger] columns@[j]).spec_ty(),
                        true,
                    ),
            decreases columns@.len() - i,
        {
            let v = match original.get(i, *columns[i].ty()) {
                Ok(v) => v,
                Err(e) => {
                    return Err(e);
                },
            };
            values.push(v);
            i = i + 1;
        }
        proof {
            assert(cell_views(values@) =~= original.cells());
        }
        Ok(VecRow { values })
    }
}

impl BackendRow for VecRow {
    open spec fn cells(&self) -> Seq<SqlValView> {
        self@
    }

    fn get(&self, idx: usize, ty: SqlType) -> (r: Result<SqlVal>) {
        if idx >= self.values.len() {
            return Err(Error::BoundsError(String::from_str("idx out of bounds")));
        }
        let val = &self.values[idx];
        if val.is_compatible(&ty, true) {
            Ok(val.clone())
        } else {
            Err(Error::CannotConvertSqlVal(ty, val.clone()))
        }
    }

    fn len(&self) -> (r: usize) {
        self.values.len()
    }

    fn duplicate(&self) -> (r: Self) {
        let mut values: Vec<SqlVal> = Vec::new();
        let mut i: usize = 0;
        while i < self.values.len()
            invariant
                i <= self.values@.len(),
                values@.len() == i,
                forall|j: int| 0 <= j < i ==> (#[trigger] values@[j])@ == self.values@[j]@,
            decreases self.values@.len() - i,
        {
            values.push(self.values[i].clone());
            i = i + 1;
        }
        proof {
            assert(cell_views(values@) =~= cell_views(self.values@));
        }
        VecRow { values }
    }
}

/// Abstraction of the rows returned from a query: a forward-only
/// cursor with no random access and no rewind. Implemented by backend
/// drivers; the contracts here are what every driver must honour.
pub trait BackendRows: Sized {
    /// The row type the cursor yields.
    type Row: BackendRow;

    /// The models of all the rows of the result, in order.
    spec fn views(&self) -> Seq<Seq<SqlValView>>;

    /// How many rows have been advanced over so far.
    spec fn pos(&self) -> int;

    /// Advances to the next row and returns a copy of it, or reports
    /// end-of-data. A driver may also fail; a failure does not advance
    /// the cursor.
    fn next(&mut self) -> (r: Result<Option<Self::Row>>)
        ensures
            final(self).views() == old(self).views(),
            match r {
                Ok(Some(row)) => 0 <= old(self).pos() < old(self).views().len() && row.cells()
                    == old(self).views()[old(self).pos()] && final(self).pos() == old(self).pos()
                    + 1,
                Ok(None) => old(self).pos() >= old(self).views().len() && final(self).pos() == old(
                    self,
                ).pos(),
                Err(_) => final(self).pos() == old(self).pos(),
            },
    ;

    /// Returns a copy of the row most recently advanced to, without
    /// consuming it, or nothing when the cursor has not yet advanced
    /// or has run past the end.
    fn current(&self) -> (r: Option<Self::Row>)
        ensures
            match r {
                Some(row) => 1 <= self.pos() <= self.views().len() && row.cells() == self.views()[
                    self.pos() - 1],
                None => self.pos() < 1 || self.pos() > self.views().len(),
            },
    ;

    /// Wraps the cursor in a lazy adapter that projects each row
    /// through a fallible function.
    fn mapped<F, B>(self, f: F) -> (r: MapDeref<Self, F>) where F: Fn(Self::Row) -> Result<B>
        ensures
            r.inner() == self,
            r.func() == f,
    {
        MapDeref { it: self, f }
    }
}

/// A lazy mapping adapter over a row cursor: yields each row projected
/// through a fallible function, halting on the first failure. Items
/// already yielded stay valid; the cursor is not retried.
#[derive(Debug)]
pub struct MapDeref<I, F> {
    it: I,
    f: F,
}

impl<I, F> MapDeref<I, F> {
    /// The wrapped cursor.
    pub closed spec fn inner(&self) -> I {
        self.it
    }

    /// The projection function.
    pub closed spec fn func(&self) -> F {
        self.f
    }
}

impl<I: BackendRows, F> MapDeref<I, F> {
    /// Advances the underlying cursor and projects the row, or reports
    /// end-of-data. The first failure of either the cursor or the
    /// projection is propagated and does not advance the cursor past
    /// the failing row.
    pub fn next<B>(&mut self) -> (r: Result<Option<B>>) where F: Fn(I::Row) -> Result<B>
        requires
            forall|row: <I as BackendRows>::Row| call_requires(old(self).func(), (row,)),
        ensures
            final(self).func() == old(self).func(),
            final(self).views() == old(self).views(),
            match r {
                Ok(Some(b)) => 0 <= old(self).pos() < old(self).views().len() && final(self).pos()
                    == old(self).pos() + 1 && exists|row: <I as BackendRows>::Row|
                    row.cells() == old(self).views()[old(self).pos()] && call_ensures(
                        old(self).func(),
                        (row,),
                        Ok(b),
                    ),
                Ok(None) => old(self).pos() >= old(self).views().len() && final(self).pos() == old(
                    self,
                ).pos(),
                Err(e) => {
                    ||| final(self).pos() == old(self).pos()
                    ||| (0 <= old(self).pos() < old(self).views().len() && final(self).pos() == old(
                        self,
                    ).pos() + 1 && exists|row: <I as BackendRows>::Row|
                        row.cells() == old(self).views()[old(self).pos()] && call_ensures(
                            old(self).func(),
                            (row,),
                            Err(e),
                        ))
                },
            },
    {
        match self.it.next() {
            Ok(Some(v)) => {
                proof {
                    assert(call_requires(old(self).func(), (v,)));
                    assert(self.func() == old(self).func());
                }
                match (self.f)(v) {
                    Ok(b) => Ok(Some(b)),
                    Err(e) => Err(e),
                }
            },
            Ok(None) => Ok(None),
            Err(e) => Err(e),
        }
    }

    /// The models of the rows of the underlying cursor.
    pub open spec fn views(&self) -> Seq<Seq<SqlValView>> {
        self.inner().views()
    }

    /// How many rows the underlying cursor has advanced over.
    pub open spec fn pos(&self) -> int {
        self.inner().pos()
    }
}

/// An in-memory result cursor over materialized rows.
#[derive(Debug)]
pub struct VecRows<T> {
    rows: Vec<T>,
    idx: usize,
}

impl<T> VecRows<T> {
    /// Makes a cursor over the given rows, positioned before the first.
    pub fn new(rows: Vec<T>) -> (r: VecRows<T>)
        ensures
            r.rows_seq() == rows@,
            r.spec_idx() == 0,
    {
        VecRows { rows, idx: 0 }
    }

    /// The rows the cursor was made over.
    pub closed spec fn rows_seq(&self) -> Seq<T> {
        self.rows@
    }

    /// The cursor's position.
    pub closed spec fn spec_idx(&self) -> int {
        self.idx as int
    }
}

impl<T: BackendRow> BackendRows for VecRows<T> {
    type Row = T;

    open spec fn views(&self) -> Seq<Seq<SqlValView>> {
        Seq::new(self.rows_seq().len(), |i: int| self.rows_seq()[i].cells())
    }

    open spec fn pos(&self) -> int {
        self.spec_idx()
    }

    fn next(&mut self) -> (r: Result<Option<T>>)
        ensures
            r is Ok,
    {
        if self.idx < self.rows.len() {
            let row = self.rows[self.idx].duplicate();
            self.idx = self.idx + 1;
            Ok(Some(row))
        } else {
            Ok(None)
        }
    }

    fn current(&self) -> (r: Option<T>) {
        if 1 <= self.idx && self.idx <= self.rows.len() {
            Some(self.rows[self.idx - 1].duplicate())
        } else {
            None
        }
    }
}

/// Materializes every remaining row of a cursor into owned rows,
/// reading each cell with its column's declared type. A failure is the
/// cursor's own error or a length or compatibility error from one row,
/// passed through; since a driver may report any error value, nothing
/// further can be stated of it.
pub fn vec_from_backend_rows<B: BackendRows>(other: B, columns: &[Column]) -> (r: Result<
    VecRows<VecRow>,
>)
    ensures
        match r {
            Ok(rows) => {
                &&& rows.spec_idx() == 0
                &&& rows.rows_seq().len() == other.views().len() - other.pos() || (other.pos()
                    > other.views().len() && rows.rows_seq().len() == 0)
                &&& forall|j: int|
                    0 <= j < rows.rows_seq().len() ==> (#[trigger] rows.rows_seq()[j])@
                        == other.views()[other.pos() + j] && other.views()[other.pos() + j].len()
                        == columns@.len()
                &&& forall|j: int, i: int|
                    0 <= j < rows.rows_seq().len() && 0 <= i < columns@.len() ==> (
                    #[trigger] rows.rows_seq()[j])@[i].compatible(
                        (#[trigger] columns@[i]).spec_ty(),
                        true,
                    )
            },
            Err(_) => true,
        },
{
    let mut other = other;
    let mut rows: Vec<VecRow> = Vec::new();
    let ghost start = other.pos();
    let ghost all = other.views();
    loop
        invariant_except_break
            other.pos() >= start,
            start <= all.len() ==> other.pos() <= all.len(),
            start > all.len() ==> other.pos() == start,
            rows@.len() == other.pos() - start || (start > all.len() && rows@.len() == 0
                && other.pos() == start),
        invariant
            other.views() == all,
            forall|j: int|
                0 <= j < rows@.len() ==> (#[trigger] rows@[j])@ == all[start + j] && all[start
                    + j].len() == columns@.len(),
            forall|j: int, i: int|
                0 <= j < rows@.len() && 0 <= i < columns@.len() ==> (#[trigger] rows@[j])@[i].compatible(
                    (#[trigger] columns@[i]).spec_ty(),
                    true,
                ),
        ensures
            rows@.len() == all.len() - start || (start > all.len() && rows@.len() == 0),
        decreases all.len() - other.pos() + 1,
    {
        match other.next() {
            Ok(Some(row)) => {
                let vrow = match VecRow::new(&row, columns) {
                    Ok(v) => v,
                    Err(e) => {
                        return Err(e);
                    },
                };
                rows.push(vrow);
            },
            Ok(None) => {
                proof {
                    if start <= all.len() {
                        assert(other.pos() == all.len());
                        assert(rows@.len() == all.len() - start);
                    } else {
                        assert(rows@.len() == 0);
                    }
                }
                break ;
            },
            Err(e) => {
                return Err(e);
            },
        }
    }
    Ok(VecRows::new(rows))
}

/// The round trip of the value bridge: when a backend row matching a
/// declared column list is materialized (the hypotheses here are what
/// [`VecRow::new`] ensures on success), reading any cell back with its
/// column's declared type lands in the success case of
/// [`BackendRow::get`]'s contract — the read cannot fail — and the
/// only value `get` may then return is exactly the cell that was
/// written.
pub proof fn lemma_row_round_trip<R: BackendRow>(
    source: R,
    row: VecRow,
    cols: Seq<Column>,
    idx: usize,
)
    requires
        source.cells().len() == cols.len(),
        row@ == source.cells(),
        forall|j: int|
            0 <= j < cols.len() ==> source.cells()[j].compatible(
                (#[trigger] cols[j]).spec_ty(),
                true,
            ),
        idx < cols.len(),
    ensures
        row.cells()[idx as int] == source.cells()[idx as int],
        row.cells()[idx as int].compatible(cols[idx as int].spec_ty(), true),
        forall|r: Result<SqlVal>|
            #[trigger] spec_get_obeyed(row.cells(), idx, cols[idx as int].spec_ty(), r) ==> (
            r matches Ok(v) && v@ == source.cells()[idx as int]),
{
}



/// One operation of a database session, as the session log records
/// it: the operation's arguments, abstracted to their models, and the
/// typed response the backend gave, where one exists.
pub enum DbOp {
    /// A statement run with no typed result.
    Execute {
        /// The statement text.
        sql: Seq<char>,
    },
    /// A query and the rows it returned.
    Query {
        /// The table queried.
        table: Seq<char>,
        /// The columns selected, in row order.
        columns: Seq<ColumnView>,
        /// The predicate restricting the rows, if any.
        expr: Option<BoolExprView>,
        /// The largest number of rows to return, if restricted.
        limit: Option<i32>,
        /// How many matching rows to skip, if any.
        offset: Option<i32>,
        /// The sort keys applied, if any.
        sort: Option<Seq<OrderView>>,
        /// The models of the rows the backend returned.
        result: Seq<Seq<SqlValView>>,
    },
    /// An insertion that returned the row's primary key.
    InsertReturningPk {
        /// The table inserted into.
        table: Seq<char>,
        /// The columns the values fill, in order.
        columns: Seq<ColumnView>,
        /// The primary-key column.
        pkcol: ColumnView,
        /// The inserted values.
        values: Seq<SqlValView>,
        /// The key the backend reported.
        pk: SqlValView,
    },
    /// A plain insertion of one row.
    Insert {
        /// The table inserted into.
        table: Seq<char>,
        /// The columns the values fill, in order.
        columns: Seq<ColumnView>,
        /// The inserted values.
        values: Seq<SqlValView>,
    },
    /// An insertion that overwrites on a primary-key conflict.
    InsertOrReplace {
        /// The table inserted into.
        table: Seq<char>,
        /// The columns the values fill, in order.
        columns: Seq<ColumnView>,
        /// The primary-key column.
        pkcol: ColumnView,
        /// The inserted values.
        values: Seq<SqlValView>,
    },
    /// An update of the row matching a primary key.
    Update {
        /// The table updated.
        table: Seq<char>,
        /// The primary-key column.
        pkcol: ColumnView,
        /// The key of the row updated.
        pk: SqlValView,
        /// The columns the values fill, in order.
        columns: Seq<ColumnView>,
        /// The new values.
        values: Seq<SqlValView>,
    },
    /// A bulk deletion and the count the backend reported.
    DeleteWhere {
        /// The table deleted from.
        table: Seq<char>,
        /// The predicate selecting the rows deleted.
        expr: BoolExprView,
        /// How many rows the backend reported deleted.
        deleted: int,
    },
    /// An existence check and its answer.
    HasTable {
        /// The table asked about.
        table: Seq<char>,
        /// Whether the backend reported it present.
        exists: bool,
    },
}

/// The log entry of a deletion keyed on a single primary-key value.
pub open spec fn delete_op(table: Seq<char>, pkcol: Seq<char>, pk: SqlValView, n: int) -> DbOp {
    DbOp::DeleteWhere { table, expr: BoolExprView::Eq(pkcol, ExprView::Val(pk)), deleted: n }
}

/// Methods available on a database connection: a single specification
/// of the CRUD-shaped operations every backend driver must offer. One
/// driver value represents one database session; failures it reports
/// are passed through this crate unchanged.
///
/// The session's effects are modelled by an abstract log: each
/// successful operation appends one entry recording what was handed to
/// the backend and what it answered. The contracts of this crate's
/// relationship types speak of that log; what a backend does with an
/// operation is its own affair.
pub trait ConnectionMethods {
    /// The cursor type returned by queries.
    type Rows: BackendRows;

    /// The abstract log of the operations this session has performed.
    /// A verified driver defines it over its own state; the
    /// placeholder spares unverified drivers the ghost item.
    open spec fn log(&self) -> Seq<DbOp> {
        arbitrary()
    }

    /// Runs a statement with no typed result.
    fn execute(&mut self, sql: &str) -> (r: Result<()>)
        ensures
            r is Ok ==> final(self).log() == old(self).log().push(
                DbOp::Execute { sql: sql@ },
            ),
            r is Err ==> final(self).log() == old(self).log(),
    ;

    /// Returns a cursor over the rows of `table` restricted to the
    /// given columns; `expr` is an optional predicate, `sort` an
    /// ordered list of sort keys, and absent `limit`/`offset` mean no
    /// restriction. The cursor is positioned before its first row.
    fn query(
        &mut self,
        table: &str,
        columns: &[Column],
        expr: Option<BoolExpr>,
        limit: Option<i32>,
        offset: Option<i32>,
        sort: Option<&[Order]>,
    ) -> (r: Result<Self::Rows>)
        ensures
            r matches Ok(rows) ==> rows.pos() == 0 && final(self).log() == old(self).log().push(
                DbOp::Query {
                    table: table@,
                    columns: column_views(columns@),
                    expr: match expr {
                        Some(e) => Some(e@),
                        None => None,
                    },
                    limit,
                    offset,
                    sort: match sort {
                        Some(s) => Some(order_views(s@)),
                        None => None,
                    },
                    result: rows.views(),
                },
            ),
            r is Err ==> final(self).log() == old(self).log(),
    ;

    /// Inserts one row and returns the generated or assigned primary
    /// key value.
    fn insert_returning_pk(
        &mut self,
        table: &str,
        columns: &[Column],
        pkcol: &Column,
        values: &[SqlVal],
    ) -> (r: Result<SqlVal>)
        ensures
            r matches Ok(pk) ==> final(self).log() == old(self).log().push(
                DbOp::InsertReturningPk {
                    table: table@,
                    columns: column_views(columns@),
                    pkcol: pkcol@,
                    values: cell_views(values@),
                    pk: pk@,
                },
            ),
            r is Err ==> final(self).log() == old(self).log(),
    ;

    /// Like `insert_returning_pk`, but with no return value.
    fn insert_only(&mut self, table: &str, columns: &[Column], values: &[SqlVal]) -> (r: Result<
        (),
    >)
        ensures
            r is Ok ==> final(self).log() == old(self).log().push(
                DbOp::Insert {
                    table: table@,
                    columns: column_views(columns@),
                    values: cell_views(values@),
                },
            ),
            r is Err ==> final(self).log() == old(self).log(),
    ;

    /// Inserts one row, or overwrites all non-key columns when a row
    /// with the same primary key already exists.
    fn insert_or_replace(
        &mut self,
        table: &str,
        columns: &[Column],
        pkcol: &Column,
        values: &[SqlVal],
    ) -> (r: Result<()>)
        ensures
            r is Ok ==> final(self).log() == old(self).log().push(
                DbOp::InsertOrReplace {
                    table: table@,
                    columns: column_views(columns@),
                    pkcol: pkcol@,
                    values: cell_views(values@),
                },
            ),
            r is Err ==> final(self).log() == old(self).log(),
    ;

    /// Updates the row of `table` matching the primary key value.
    fn update(
        &mut self,
        table: &str,
        pkcol: Column,
        pk: &SqlVal,
        columns: &[Column],
        values: &[SqlVal],
    ) -> (r: Result<()>)
        ensures
            r is Ok ==> final(self).log() == old(self).log().push(
                DbOp::Update {
                    table: table@,
                    pkcol: pkcol@,
                    pk: pk@,
                    columns: column_views(columns@),
                    values: cell_views(values@),
                },
            ),
            r is Err ==> final(self).log() == old(self).log(),
    ;

    /// Deletes the row matching the primary key value. Defined in
    /// terms of `delete_where` with an equality predicate on the key;
    /// a default, not a primitive.
    fn delete(&mut self, table: &str, pkcol: &'static str, pk: SqlVal) -> (r: Result<()>)
        ensures
            r is Ok ==> exists|n: int|
                final(self).log() == old(self).log().push(#[trigger] delete_op(table@, pkcol@, pk@, n)),
            r is Err ==> final(self).log() == old(self).log(),
    {
        match self.delete_where(table, BoolExpr::Eq(pkcol, Expr::Val(pk))) {
            Ok(n) => {
                proof {
                    assert(final(self).log() == old(self).log().push(
                        delete_op(table@, pkcol@, pk@, n as int),
                    ));
                }
                Ok(())
            },
            Err(e) => Err(e),
        }
    }

    /// Deletes all rows of `table` matching the predicate and returns
    /// how many were deleted.
    fn delete_where(&mut self, table: &str, expr: BoolExpr) -> (r: Result<usize>)
        ensures
            r matches Ok(n) ==> final(self).log() == old(self).log().push(
                DbOp::DeleteWhere { table: table@, expr: expr@, deleted: n as int },
            ),
            r is Err ==> final(self).log() == old(self).log(),
    ;

    /// Tests whether a table exists. Never fails for a merely-absent
    /// table.
    fn has_table(&mut self, table: &str) -> (r: Result<bool>)
        ensures
            r matches Ok(b) ==> final(self).log() == old(self).log().push(
                DbOp::HasTable { table: table@, exists: b },
            ),
            r is Err ==> final(self).log() == old(self).log(),
    ;
}

/// Implemented by values that wrap a database connection and can hand
/// out its connection methods.
pub trait ConnectionMethodWrapper {
    /// The wrapped connection type.
    type Wrapped: ConnectionMethods;

    /// Returns the wrapped connection.
    fn wrapped_connection_methods(&mut self) -> Result<&mut Self::Wrapped>;
}

} // verus!
