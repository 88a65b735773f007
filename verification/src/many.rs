//! The multi reference: a lazily-resolved, mutable many-to-many
//! relationship backed by a join table, with an in-memory pending
//! add/remove log reconciled against the backing store on demand.
//!
//! The join table has two columns, "owner" and "has": one row per
//! membership, holding the owning entity's key and the member
//! entity's key.

use vstd::multiset::Multiset;
use vstd::prelude::*;
use vstd::seq_lib::group_seq_properties;

use crate::connmethods::{BackendRows, Column, ColumnView, ConnectionMethods, DbOp, column_views};
use crate::dataobj::{DataObject, all_rows_decode, load_entities};
use crate::oncecell::ButaneOnceCell;
use crate::query::{BoolExpr, BoolExprView, Expr, ExprView, Order, OrderDirection, OrderView, order_views};
use crate::sqlval::{SqlType, SqlVal, SqlValView, cell_views};
use crate::{Error, Result};

verus! {

/// The model of a [`Many`]: the join-table identity (unset until
/// initialization), the two pending logs, and the cached result set,
/// if any.
pub struct ManyView<T> {
    /// The name of the backing join table.
    pub item_table: Seq<char>,
    /// The model of the owning entity's key; `None` until initialized.
    pub owner: Option<SqlValView>,
    /// The column type of the owner's key.
    pub owner_type: SqlType,
    /// The models of the keys in the pending-add log, oldest first.
    pub new_values: Seq<SqlValView>,
    /// The models of the keys in the pending-remove log, oldest first.
    pub removed_values: Seq<SqlValView>,
    /// The members of the last successful load, or `None` when no
    /// result set is cached.
    pub all_values: Option<Seq<T>>,
}

/// Whether some entity of `s` has `k` as its primary key.
pub open spec fn has_pk_in<T: DataObject>(s: Seq<T>, k: SqlValView) -> bool {
    exists|i: int| 0 <= i < s.len() && (#[trigger] s[i]).spec_pk() == k
}

/// The shape of every freshly loaded result set: the stored members,
/// followed by the pending members deduplicated by presence. Members
/// named only in the pending-remove log are not filtered out.
pub open spec fn merged_members<T: DataObject>(stored: Seq<T>, pending: Seq<T>) -> Seq<T> {
    stored + pending.filter(|e: T| !has_pk_in(stored, e.spec_pk()))
}

/// The membership predicate of one relationship: entities whose key
/// appears in the "has" column of a join row of `item_table` owned by
/// `owner`.
pub open spec fn member_filter_view(
    pk_col: Seq<char>,
    item_table: Seq<char>,
    owner: SqlValView,
) -> BoolExprView {
    BoolExprView::Subquery {
        col: pk_col,
        tbl2: item_table,
        tbl2_col: "has"@,
        expr: Box::new(BoolExprView::Eq("owner"@, ExprView::Val(owner))),
    }
}

/// The log entry of a query for members of `T` under `filter`.
pub open spec fn member_query_op<T: DataObject>(
    filter: BoolExprView,
    sort: Option<Seq<OrderView>>,
    rows: Seq<Seq<SqlValView>>,
) -> DbOp {
    DbOp::Query {
        table: T::spec_table(),
        columns: T::spec_columns(),
        expr: Some(filter),
        limit: None,
        offset: None,
        sort,
        result: rows,
    }
}

/// What one fresh load records on the session log and how its result
/// is assembled: one query of the member table under `filter` with the
/// given ordering, then, when keys are pending, one query for exactly
/// those keys; the result is the factory decoding of the first query's
/// rows merged with the decoding of the second's, deduplicated by
/// presence.
pub open spec fn load_recorded<T: DataObject>(
    log0: Seq<DbOp>,
    log1: Seq<DbOp>,
    filter: BoolExprView,
    sort: Option<Seq<OrderView>>,
    pending_keys: Seq<SqlValView>,
    result: Seq<T>,
) -> bool {
    if pending_keys.len() == 0 {
        exists|rows1: Seq<Seq<SqlValView>>, stored: Seq<T>|
            all_rows_decode::<T>(rows1, stored) && log1 == log0.push(
                #[trigger] member_query_op::<T>(filter, sort, rows1),
            ) && result == #[trigger] merged_members(stored, Seq::<T>::empty())
    } else {
        exists|rows1: Seq<Seq<SqlValView>>, stored: Seq<T>, rows2: Seq<Seq<SqlValView>>, pending: Seq<T>|
            #![trigger member_query_op::<T>(filter, sort, rows1), all_rows_decode::<T>(rows2, pending), merged_members(stored, pending)]
            all_rows_decode::<T>(rows1, stored) && all_rows_decode::<T>(rows2, pending) && log1
                == log0.push(member_query_op::<T>(filter, sort, rows1)).push(
                member_query_op::<T>(
                    BoolExprView::In(T::spec_pk_column_name(), pending_keys),
                    None,
                    rows2,
                ),
            ) && result == merged_members(stored, pending)
    }
}

/// The log entry of one join-row insertion: the owner's key and one
/// member key, into the two-column join table.
pub open spec fn join_insert_op(
    table: Seq<char>,
    owner_ty: SqlType,
    member_ty: SqlType,
    owner: SqlValView,
    key: SqlValView,
) -> DbOp {
    DbOp::Insert {
        table,
        columns: seq![
            ColumnView { name: "owner"@, ty: owner_ty },
            ColumnView { name: "has"@, ty: member_ty },
        ],
        values: seq![owner, key],
    }
}

/// The log entries of one join-row insertion per key, in order.
pub open spec fn join_insert_ops(
    table: Seq<char>,
    owner_ty: SqlType,
    member_ty: SqlType,
    owner: SqlValView,
    keys: Seq<SqlValView>,
) -> Seq<DbOp> {
    keys.map(|i: int, k: SqlValView| join_insert_op(table, owner_ty, member_ty, owner, k))
}

/// The log entry of the one bulk deletion reconciling the
/// pending-remove log: join rows whose member key is in `removed`.
pub open spec fn join_remove_op(table: Seq<char>, removed: Seq<SqlValView>, n: int) -> DbOp {
    DbOp::DeleteWhere { table, expr: BoolExprView::In("has"@, removed), deleted: n }
}

/// What one successful reconciliation records on the session log: one
/// join-row insertion per key of the pending-add log (the keys in some
/// order), followed, when removals are pending, by exactly one bulk
/// deletion keyed on the pending-remove log.
pub open spec fn save_recorded<T: DataObject>(
    log0: Seq<DbOp>,
    log1: Seq<DbOp>,
    table: Seq<char>,
    owner_ty: SqlType,
    owner: SqlValView,
    added: Seq<SqlValView>,
    removed: Seq<SqlValView>,
) -> bool {
    if removed.len() == 0 {
        exists|ks: Seq<SqlValView>|
            ks.to_multiset() == added.to_multiset() && log1 == log0 + #[trigger] join_insert_ops(
                table,
                owner_ty,
                T::spec_pk_type(),
                owner,
                ks,
            )
    } else {
        exists|ks: Seq<SqlValView>, n: int|
            #![trigger join_insert_ops(table, owner_ty, T::spec_pk_type(), owner, ks), join_remove_op(table, removed, n)]
            ks.to_multiset() == added.to_multiset() && log1 == (log0 + join_insert_ops(
                table,
                owner_ty,
                T::spec_pk_type(),
                owner,
                ks,
            )).push(join_remove_op(table, removed, n))
    }
}

/// The log entry of the purge of every join row owned by `owner`.
pub open spec fn owner_purge_op(table: Seq<char>, owner: SqlValView, n: int) -> DbOp {
    DbOp::DeleteWhere {
        table,
        expr: BoolExprView::Eq("owner"@, ExprView::Val(owner)),
        deleted: n,
    }
}

/// A lazily-resolved many-to-many relationship. Constructed unbound;
/// an owning entity's load or save path binds it once to its owner's
/// key and join-table identity. Mutated in memory through `add` and
/// `remove`; reconciled against the join table by `save`; loaded and
/// cached by `load`.
#[derive(Debug)]
pub struct Many<T: DataObject> {
    item_table: String,
    owner: Option<SqlVal>,
    owner_type: SqlType,
    new_values: Vec<SqlVal>,
    removed_values: Vec<SqlVal>,
    all_values: ButaneOnceCell<Vec<T>>,
}

impl<T: DataObject> View for Many<T> {
    type V = ManyView<T>;

    closed spec fn view(&self) -> ManyView<T> {
        ManyView {
            item_table: self.item_table@,
            owner: match self.owner {
                Some(o) => Some(o@),
                None => None,
            },
            owner_type: self.owner_type,
            new_values: cell_views(self.new_values@),
            removed_values: cell_views(self.removed_values@),
            all_values: match self.all_values@ {
                Some(v) => Some(v@),
                None => None,
            },
        }
    }
}

impl<T: DataObject> Many<T> {
    /// Everything but the cached result set, for stating what a
    /// mutation leaves untouched.
    pub open spec fn spec_identity(self) -> (Seq<char>, Option<SqlValView>, SqlType)
    {
        (self@.item_table, self@.owner, self@.owner_type)
    }

    /// Constructs a new, unbound relationship. `ensure_init` must bind
    /// it before it can be loaded or saved; until then those methods
    /// report `NotInitialized` (and `load` reports no members).
    pub fn new() -> (r: Self)
        ensures
            r@.item_table == "not_initialized"@,
            r@.owner is None,
            r@.owner_type == SqlType::Int,
            r@.new_values.len() == 0,
            r@.removed_values.len() == 0,
            r@.all_values is None,
    {
        let r = Many {
            item_table: String::from_str("not_initialized"),
            owner: None,
            owner_type: SqlType::Int,
            new_values: Vec::new(),
            removed_values: Vec::new(),
            all_values: ButaneOnceCell::new(),
        };
        proof {
            assert(cell_views(Seq::<SqlVal>::empty()) =~= Seq::<SqlValView>::empty());
        }
        r
    }

    /// One-time binding of the relationship to its owner's key and
    /// join-table identity; clears any cached result set. A second
    /// call on an already-bound relationship is a no-op, not an error.
    pub fn ensure_init(&mut self, item_table: &str, owner: SqlVal, owner_type: SqlType)
        ensures
            old(self)@.owner is Some ==> *final(self) == *old(self),
            old(self)@.owner is None ==> {
                &&& final(self)@.item_table == item_table@
                &&& final(self)@.owner == Some(owner@)
                &&& final(self)@.owner_type == owner_type
                &&& final(self)@.new_values == old(self)@.new_values
                &&& final(self)@.removed_values == old(self)@.removed_values
                &&& final(self)@.all_values is None
            },
    {
        if self.owner.is_some() {
            return ;
        }
        self.item_table = String::from_str(item_table);
        self.owner = Some(owner);
        self.owner_type = owner_type;
        self.all_values = ButaneOnceCell::new();
    }

    /// Appends the entity's key to the pending-add log and clears any
    /// cached result set. Fails with `ValueNotSaved`, touching
    /// nothing, when the entity's key looks unassigned.
    pub fn add(&mut self, new_val: &T) -> (r: Result<()>)
        ensures
            match r {
                Ok(_) => {
                    &&& new_val.spec_pk_valid()
                    &&& final(self)@.new_values == old(self)@.new_values.push(new_val.spec_pk())
                    &&& final(self)@.all_values is None
                    &&& final(self).spec_identity() == old(self).spec_identity()
                    &&& final(self)@.removed_values == old(self)@.removed_values
                },
                Err(e) => {
                    &&& !new_val.spec_pk_valid()
                    &&& e matches Error::ValueNotSaved
                    &&& *final(self) == *old(self)
                },
            },
    {
        if !new_val.pk_is_valid() {
            return Err(Error::ValueNotSaved);
        }
        self.all_values = ButaneOnceCell::new();
        self.new_values.push(new_val.pk());
        proof {
            assert(cell_views(self.new_values@) =~= cell_views(old(self).new_values@).push(
                new_val.spec_pk(),
            ));
        }
        Ok(())
    }

    /// Appends the entity's key to the pending-remove log and clears
    /// any cached result set. Does not check whether the entity is a
    /// current member.
    pub fn remove(&mut self, val: &T)
        ensures
            final(self)@.removed_values == old(self)@.removed_values.push(val.spec_pk()),
            final(self)@.all_values is None,
            final(self).spec_identity() == old(self).spec_identity(),
            final(self)@.new_values == old(self)@.new_values,
    {
        self.all_values = ButaneOnceCell::new();
        self.removed_values.push(val.pk());
        proof {
            assert(cell_views(self.removed_values@) =~= cell_views(old(self).removed_values@).push(
                val.spec_pk(),
            ));
        }
    }

    /// Returns the members of the last successful load. Fails with
    /// `ValueNotLoaded` if no result set is cached; this accessor
    /// never queries the backing store.
    pub fn get(&self) -> (r: Result<&Vec<T>>)
        ensures
            match r {
                Ok(v) => self@.all_values == Some(v@),
                Err(e) => self@.all_values is None && e matches Error::ValueNotLoaded,
            },
    {
        match self.all_values.get() {
            Some(v) => Ok(v),
            None => Err(Error::ValueNotLoaded),
        }
    }

    /// Describes the two columns of the join table: the owner-key
    /// column, typed per this relationship's owner key, and the
    /// member-key column, typed per the member entity's key. The shape
    /// never depends on the pending logs or the cached result set.
    pub fn columns(&self) -> (r: [Column; 2])
        ensures
            r@.len() == 2,
            r@[0].spec_name() == "owner"@,
            r@[0].spec_ty() == self@.owner_type,
            r@[1].spec_name() == "has"@,
            r@[1].spec_ty() == T::spec_pk_type(),
    {
        [Column::new("owner", self.owner_type), Column::new("has", T::pk_type())]
    }

    /// Reconciles the pending logs against the join table: inserts one
    /// join row per pending addition (draining newest first), then, if
    /// any removals are pending, issues one bulk delete of their join
    /// rows, and clears both logs. On success both logs are empty and
    /// any cached result set is dropped, so the next load reads the
    /// reconciled table. A backend failure stops the reconciliation
    /// and keeps the cache: additions already
    /// inserted have left the pending-add log (the remainder is a
    /// prefix of the old log, so a retry does not double-apply), and
    /// the pending removals are either untouched or already drained.
    /// Callers must serialize calls on one relationship.
    pub fn save<C: ConnectionMethods>(&mut self, conn: &mut C) -> (r: Result<()>)
        ensures
            final(self).spec_identity() == old(self).spec_identity(),
            r is Err ==> final(self)@.all_values == old(self)@.all_values,
            old(self)@.owner is None ==> *final(conn) == *old(conn),
            (old(self)@.owner is Some && old(self)@.new_values.len() == 0 && old(
                self,
            )@.removed_values.len() == 0) ==> (r is Ok && *final(conn) == *old(conn)),
            match r {
                Ok(_) => {
                    &&& old(self)@.owner is Some
                    &&& final(self)@.new_values.len() == 0
                    &&& final(self)@.removed_values.len() == 0
                    &&& final(self)@.all_values is None
                    &&& match old(self)@.owner {
                        Some(o) => save_recorded::<T>(
                            old(conn).log(),
                            final(conn).log(),
                            old(self)@.item_table,
                            old(self)@.owner_type,
                            o,
                            old(self)@.new_values,
                            old(self)@.removed_values,
                        ),
                        None => false,
                    }
                },
                Err(e) => {
                    ||| (old(self)@.owner is None && (e matches Error::NotInitialized)
                        && *final(self) == *old(self))
                    ||| (old(self)@.owner is Some
                        && (exists|k: int|
                            0 <= k <= old(self)@.new_values.len()
                            && final(self)@.new_values == old(self)@.new_values.take(k))
                        && (final(self)@.removed_values == old(self)@.removed_values
                            || final(self)@.removed_values.len() == 0))
                },
            },
    {
        let owner = match &self.owner {
            Some(o) => o.clone(),
            None => {
                return Err(Error::NotInitialized);
            },
        };
        proof {
            assert(old(self)@.owner is Some);
        }
        let ghost o = owner@;
        let ghost tbl = old(self)@.item_table;
        let ghost oty = old(self)@.owner_type;
        let ghost mty = T::spec_pk_type();
        let cols = self.columns();
        proof {
            broadcast use vstd::seq_lib::group_to_multiset_ensures;

            assert(column_views(cols@) =~= seq![
                ColumnView { name: "owner"@, ty: oty },
                ColumnView { name: "has"@, ty: mty },
            ]);
            assert(join_insert_ops(tbl, oty, mty, o, Seq::<SqlValView>::empty())
                =~= Seq::<DbOp>::empty());
            assert(conn.log() =~= old(conn).log() + join_insert_ops(
                tbl,
                oty,
                mty,
                o,
                Seq::<SqlValView>::empty(),
            ));
        }
        let ghost ks = Seq::<SqlValView>::empty();
        while !self.new_values.is_empty()
            invariant
                old(self)@.owner is Some,
                o == owner@,
                tbl == old(self)@.item_table,
                oty == old(self)@.owner_type,
                mty == T::spec_pk_type(),
                column_views(cols@) == seq![
                    ColumnView { name: "owner"@, ty: oty },
                    ColumnView { name: "has"@, ty: mty },
                ],
                self.owner == old(self).owner,
                self.item_table == old(self).item_table,
                self.owner_type == old(self).owner_type,
                self.all_values@ == old(self).all_values@,
                self.removed_values == old(self).removed_values,
                self.new_values@.len() <= old(self).new_values@.len(),
                self.new_values@ == old(self).new_values@.take(self.new_values@.len() as int),
                conn.log() == old(conn).log() + join_insert_ops(tbl, oty, mty, o, ks),
                old(self)@.new_values.len() == 0 ==> *conn == *old(conn),
                ks.to_multiset().add(cell_views(self.new_values@).to_multiset()) == old(
                    self,
                )@.new_values.to_multiset(),
            decreases self.new_values@.len(),
        {
            let ghost k = self.new_values@.len() as int;
            let ghost nv_prev = cell_views(self.new_values@);
            let new_val = match self.new_values.pop() {
                Some(v) => v,
                None => unreached(),
            };
            let ghost x = new_val@;
            proof {
                broadcast use vstd::seq_lib::group_to_multiset_ensures;

                assert(self.new_values@ =~= old(self).new_values@.take(k - 1));
                assert(nv_prev =~= cell_views(self.new_values@).push(x));
            }
            let values = vec![owner.clone(), new_val];
            match conn.insert_only(self.item_table.as_str(), cols.as_slice(), values.as_slice()) {
                Ok(_) => {
                    proof {
                        broadcast use vstd::seq_lib::group_to_multiset_ensures;

                        assert(cell_views(values@) =~= seq![o, x]);
                        assert(join_insert_ops(tbl, oty, mty, o, ks.push(x)) =~= join_insert_ops(
                            tbl,
                            oty,
                            mty,
                            o,
                            ks,
                        ).push(join_insert_op(tbl, oty, mty, o, x)));
                        assert(old(conn).log() + join_insert_ops(tbl, oty, mty, o, ks.push(x)) =~= (
                        old(conn).log() + join_insert_ops(tbl, oty, mty, o, ks)).push(
                            join_insert_op(tbl, oty, mty, o, x),
                        ));
                        assert(ks.push(x).to_multiset().add(
                            cell_views(self.new_values@).to_multiset(),
                        ) =~= ks.to_multiset().add(nv_prev.to_multiset()));
                        ks = ks.push(x);
                    }
                },
                Err(e) => {
                    proof {
                        let ghost kk = self.new_values@.len() as int;
                        assert(self@.new_values =~= old(self)@.new_values.take(kk));
                        assert(exists|k: int|
                            0 <= k <= old(self)@.new_values.len() && self@.new_values == old(
                                self,
                            )@.new_values.take(k));
                    }
                    return Err(e);
                },
            }
        }
        proof {
            broadcast use vstd::seq_lib::group_to_multiset_ensures;

            assert(self@.new_values =~= old(self)@.new_values.take(0));
            assert(exists|k: int|
                0 <= k <= old(self)@.new_values.len() && self@.new_values == old(
                    self,
                )@.new_values.take(k));
            assert(cell_views(self.new_values@).to_multiset() =~= Multiset::<SqlValView>::empty())
                by {
                assert(cell_views(self.new_values@).len() == 0);
                assert forall|v: SqlValView|
                    cell_views(self.new_values@).to_multiset().count(v) == 0 by {
                    assert(!cell_views(self.new_values@).contains(v));
                }
            }
            assert(ks.to_multiset().add(Multiset::<SqlValView>::empty()) =~= ks.to_multiset());
            assert(ks.to_multiset() == old(self)@.new_values.to_multiset());
        }
        if !self.removed_values.is_empty() {
            let ghost removed_view = old(self)@.removed_values;
            let mut removed: Vec<SqlVal> = Vec::new();
            core::mem::swap(&mut removed, &mut self.removed_values);
            proof {
                assert(cell_views(self.removed_values@) =~= Seq::<SqlValView>::empty());
                assert(cell_views(removed@) == removed_view);
            }
            match conn.delete_where(self.item_table.as_str(), BoolExpr::In("has", removed)) {
                Ok(n) => {
                    proof {
                        assert(conn.log() == (old(conn).log() + join_insert_ops(
                            tbl,
                            oty,
                            mty,
                            o,
                            ks,
                        )).push(join_remove_op(tbl, removed_view, n as int)));
                    }
                },
                Err(e) => {
                    return Err(e);
                },
            }
        }
        self.all_values = ButaneOnceCell::new();
        Ok(())
    }

    /// Deletes every join row owned by this relationship's owner key
    /// and clears both pending logs and any cached result set. Used
    /// when the owning entity itself is deleted. A backend failure
    /// leaves the relationship untouched.
    pub fn delete<C: ConnectionMethods>(&mut self, conn: &mut C) -> (r: Result<()>)
        ensures
            final(self).spec_identity() == old(self).spec_identity(),
            old(self)@.owner is None ==> *final(conn) == *old(conn),
            match r {
                Ok(_) => {
                    &&& old(self)@.owner is Some
                    &&& final(self)@.new_values.len() == 0
                    &&& final(self)@.removed_values.len() == 0
                    &&& final(self)@.all_values is None
                    &&& match old(self)@.owner {
                        Some(o) => exists|n: int|
                            final(conn).log() == old(conn).log().push(
                                #[trigger] owner_purge_op(old(self)@.item_table, o, n),
                            ),
                        None => false,
                    }
                },
                Err(e) => {
                    &&& *final(self) == *old(self)
                    &&& (old(self)@.owner is None ==> e matches Error::NotInitialized)
                },
            },
    {
        let owner = match &self.owner {
            Some(o) => o.clone(),
            None => {
                return Err(Error::NotInitialized);
            },
        };
        let ghost o = owner@;
        match conn.delete_where(
            self.item_table.as_str(),
            BoolExpr::Eq("owner", Expr::Val(owner)),
        ) {
            Ok(n) => {
                proof {
                    assert(conn.log() == old(conn).log().push(
                        owner_purge_op(old(self)@.item_table, o, n as int),
                    ));
                }
            },
            Err(e) => {
                return Err(e);
            },
        }
        self.new_values.clear();
        self.removed_values.clear();
        self.all_values = ButaneOnceCell::new();
        proof {
            assert(cell_views(self.new_values@) =~= Seq::<SqlValView>::empty());
            assert(cell_views(self.removed_values@) =~= Seq::<SqlValView>::empty());
        }
        Ok(())
    }

    /// The predicate selecting this relationship's members from the
    /// member entities' table: entities whose key appears in the "has"
    /// column of a join row owned by this relationship's owner key.
    /// Fails with `NotInitialized` on an unbound relationship.
    fn query(&self) -> (r: Result<BoolExpr>)
        ensures
            match r {
                Ok(e) => match self@.owner {
                    Some(o) => e@ == member_filter_view(
                        T::spec_pk_column_name(),
                        self@.item_table,
                        o,
                    ),
                    None => false,
                },
                Err(e) => self@.owner is None && e matches Error::NotInitialized,
            },
    {
        let owner = match &self.owner {
            Some(o) => o.clone(),
            None => {
                return Err(Error::NotInitialized);
            },
        };
        let e = BoolExpr::Subquery {
            col: T::pk_column().name(),
            tbl2: self.item_table.clone(),
            tbl2_col: "has",
            expr: Box::new(BoolExpr::Eq("owner", Expr::Val(owner))),
        };
        proof {
            reveal_with_fuel(crate::query::bool_expr_view, 2);
            assert(e@ == member_filter_view(
                T::spec_pk_column_name(),
                self@.item_table,
                owner@,
            ));
        }
        Ok(e)
    }

    /// Loads the members through a given member-table predicate and
    /// optional ordering, unless a result set is already cached:
    /// queries the member table, merges in the entities of pending
    /// additions not yet durably joined, caches the merged set, and
    /// returns it. Keys in the pending-remove log are not filtered
    /// out: a pending removal only takes effect once reconciled.
    fn load_query<C: ConnectionMethods>(
        &mut self,
        conn: &mut C,
        expr: BoolExpr,
        sort: Option<&[Order]>,
    ) -> (r: Result<&Vec<T>>)
        ensures
            final(self).spec_identity() == old(self).spec_identity(),
            final(self)@.new_values == old(self)@.new_values,
            final(self)@.removed_values == old(self)@.removed_values,
            old(self)@.all_values is Some ==> *final(self) == *old(self) && *final(conn) == *old(
                conn,
            ) && r is Ok,
            match r {
                Ok(v) => final(self)@.all_values == Some(v@) && (old(self)@.all_values matches Some(
                    cached,
                ) ==> v@ == cached) && (old(self)@.all_values is None ==> load_recorded::<T>(
                    old(conn).log(),
                    final(conn).log(),
                    expr@,
                    match sort {
                        Some(s) => Some(order_views(s@)),
                        None => None,
                    },
                    old(self)@.new_values,
                    v@,
                )),
                Err(_) => *final(self) == *old(self),
            },
    {
        if self.all_values.get().is_none() {
            let ghost log0 = conn.log();
            let ghost filter = expr@;
            let ghost sort_view: Option<Seq<OrderView>> = match sort {
                Some(s) => Some(order_views(s@)),
                None => None,
            };
            let cols = T::columns();
            let rows = match conn.query(
                T::table(),
                cols.as_slice(),
                Some(expr),
                None,
                None,
                sort,
            ) {
                Ok(rows) => rows,
                Err(e) => {
                    return Err(e);
                },
            };
            let ghost rows1 = rows.views();
            proof {
                assert(column_views(cols@) == T::spec_columns());
                assert(conn.log() == log0.push(member_query_op::<T>(filter, sort_view, rows1)));
            }
            let mut vals: Vec<T> = match load_entities(rows, cols.as_slice()) {
                Ok(vals) => vals,
                Err(e) => {
                    return Err(e);
                },
            };
            let ghost stored_ghost = vals@;
            if !self.new_values.is_empty() {
                let pending_keys = clone_vals(&self.new_values);
                let pending_expr = BoolExpr::In(T::pk_column().name(), pending_keys);
                proof {
                    assert(pending_expr@ == BoolExprView::In(
                        T::spec_pk_column_name(),
                        old(self)@.new_values,
                    ));
                }
                let rows = match conn.query(
                    T::table(),
                    cols.as_slice(),
                    Some(pending_expr),
                    None,
                    None,
                    None,
                ) {
                    Ok(rows) => rows,
                    Err(e) => {
                        return Err(e);
                    },
                };
                let ghost rows2 = rows.views();
                let pending: Vec<T> = match load_entities(rows, cols.as_slice()) {
                    Ok(pending) => pending,
                    Err(e) => {
                        return Err(e);
                    },
                };
                let ghost pending_ghost = pending@;
                vals = merge_loaded(vals, pending);
                proof {
                    assert(all_rows_decode::<T>(rows1, stored_ghost));
                    assert(all_rows_decode::<T>(rows2, pending_ghost));
                    assert(conn.log() == log0.push(
                        member_query_op::<T>(filter, sort_view, rows1),
                    ).push(
                        member_query_op::<T>(
                            BoolExprView::In(T::spec_pk_column_name(), old(self)@.new_values),
                            None,
                            rows2,
                        ),
                    ));
                    assert(load_recorded::<T>(
                        log0,
                        conn.log(),
                        filter,
                        sort_view,
                        old(self)@.new_values,
                        vals@,
                    ));
                }
            } else {
                proof {
                    lemma_filter_of_empty::<T>(|e: T| !has_pk_in(stored_ghost, e.spec_pk()));
                    assert(vals@ =~= merged_members(stored_ghost, Seq::<T>::empty()));
                    assert(load_recorded::<T>(
                        log0,
                        conn.log(),
                        filter,
                        sort_view,
                        old(self)@.new_values,
                        vals@,
                    ));
                }
            }
            match self.all_values.set(vals) {
                Ok(_) => {},
                Err(_) => unreached(),
            }
        }
        match self.all_values.get() {
            Some(v) => Ok(v),
            None => unreached(),
        }
    }

    /// Loads the members of the relationship, querying the backing
    /// store only when no result set is cached. A never-initialized
    /// relationship has no members: the result is empty, never an
    /// error, and nothing is queried or cached. Entities whose keys
    /// sit in the pending-add log appear in the result even before
    /// reconciliation; entities in the pending-remove log still appear
    /// until a reconciliation has deleted their join rows.
    pub fn load<C: ConnectionMethods>(&mut self, conn: &mut C) -> (r: Result<Vec<&T>>)
        ensures
            final(self).spec_identity() == old(self).spec_identity(),
            final(self)@.new_values == old(self)@.new_values,
            final(self)@.removed_values == old(self)@.removed_values,
            old(self)@.owner is None ==> (*final(self) == *old(self) && *final(conn) == *old(conn)
                && (r matches Ok(v) && v@.len() == 0)),
            old(self)@.all_values is Some ==> *final(self) == *old(self) && *final(conn) == *old(
                conn,
            ) && r is Ok,
            match r {
                Ok(v) => {
                    ||| (old(self)@.owner is None && v@.len() == 0)
                    ||| (final(self)@.all_values matches Some(c) && v@.len() == c.len() && (forall|
                        i: int,
                    |
                        0 <= i < v@.len() ==> *(#[trigger] v@[i]) == c[i]) && (old(
                        self,
                    )@.all_values matches Some(cached) ==> c == cached) && (old(
                        self,
                    )@.all_values is None ==> match old(self)@.owner {
                        Some(o) => load_recorded::<T>(
                            old(conn).log(),
                            final(conn).log(),
                            member_filter_view(
                                T::spec_pk_column_name(),
                                old(self)@.item_table,
                                o,
                            ),
                            None,
                            old(self)@.new_values,
                            c,
                        ),
                        None => false,
                    }))
                },
                Err(_) => *final(self) == *old(self),
            },
    {
        let expr = match self.query() {
            Ok(expr) => expr,
            Err(_) => {
                return Ok(Vec::new());
            },
        };
        let vals = match self.load_query(conn, expr, None) {
            Ok(vals) => vals,
            Err(e) => {
                return Err(e);
            },
        };
        Ok(borrow_all(vals))
    }

    /// Like `load`, with the member entities' own primary key as the
    /// sort key in the given direction. The ordering is applied by the
    /// backend only when the result set is actually queried; a cached
    /// result set is returned as cached.
    pub fn load_ordered<C: ConnectionMethods>(&mut self, conn: &mut C, order: OrderDirection) -> (r:
        Result<Vec<&T>>)
        ensures
            final(self).spec_identity() == old(self).spec_identity(),
            final(self)@.new_values == old(self)@.new_values,
            final(self)@.removed_values == old(self)@.removed_values,
            old(self)@.owner is None ==> (*final(self) == *old(self) && *final(conn) == *old(conn)
                && (r matches Ok(v) && v@.len() == 0)),
            old(self)@.all_values is Some ==> *final(self) == *old(self) && *final(conn) == *old(
                conn,
            ) && r is Ok,
            match r {
                Ok(v) => {
                    ||| (old(self)@.owner is None && v@.len() == 0)
                    ||| (final(self)@.all_values matches Some(c) && v@.len() == c.len() && (forall|
                        i: int,
                    |
                        0 <= i < v@.len() ==> *(#[trigger] v@[i]) == c[i]) && (old(
                        self,
                    )@.all_values matches Some(cached) ==> c == cached) && (old(
                        self,
                    )@.all_values is None ==> match old(self)@.owner {
                        Some(o) => load_recorded::<T>(
                            old(conn).log(),
                            final(conn).log(),
                            member_filter_view(
                                T::spec_pk_column_name(),
                                old(self)@.item_table,
                                o,
                            ),
                            Some(
                                seq![
                                    OrderView { column: T::spec_pk_column_name(), direction: order },
                                ],
                            ),
                            old(self)@.new_values,
                            c,
                        ),
                        None => false,
                    }))
                },
                Err(_) => *final(self) == *old(self),
            },
    {
        let expr = match self.query() {
            Ok(expr) => expr,
            Err(_) => {
                return Ok(Vec::new());
            },
        };
        let sort = [Order { column: T::pk_column().name(), direction: order }];
        proof {
            assert(order_views(sort@) =~= seq![
                OrderView { column: T::spec_pk_column_name(), direction: order },
            ]);
        }
        let vals = match self.load_query(conn, expr, Some(&sort)) {
            Ok(vals) => vals,
            Err(e) => {
                return Err(e);
            },
        };
        Ok(borrow_all(vals))
    }

    /// The name of the backing join table.
    pub fn item_table(&self) -> (r: &String)
        ensures
            r@ == self@.item_table,
    {
        &self.item_table
    }

    /// The owning entity's key, or nothing while unbound.
    pub fn owner(&self) -> (r: &Option<SqlVal>)
        ensures
            match r {
                Some(o) => self@.owner == Some(o@),
                None => self@.owner is None,
            },
    {
        &self.owner
    }

    /// The column type of the owner's key.
    pub fn owner_type(&self) -> (r: SqlType)
        ensures
            r == self@.owner_type,
    {
        self.owner_type
    }

    /// Rebuilds a relationship from its stored representation: the
    /// join-table identity and the members of the last load. The
    /// pending logs are not part of the stored representation and come
    /// back empty; an empty member list comes back as no cached result
    /// set.
    pub fn from_parts(
        item_table: String,
        owner: Option<SqlVal>,
        owner_type: SqlType,
        all_values: Vec<T>,
    ) -> (r: Self)
        ensures
            r@.item_table == item_table@,
            r@.owner == match owner {
                Some(o) => Some(o@),
                None => None::<SqlValView>,
            },
            r@.owner_type == owner_type,
            r@.new_values.len() == 0,
            r@.removed_values.len() == 0,
            r@.all_values == if all_values@.len() == 0 {
                None::<Seq<T>>
            } else {
                Some(all_values@)
            },
    {
        let cell = if all_values.is_empty() {
            ButaneOnceCell::new()
        } else {
            ButaneOnceCell::from_value(all_values)
        };
        let r = Many {
            item_table,
            owner,
            owner_type,
            new_values: Vec::new(),
            removed_values: Vec::new(),
            all_values: cell,
        };
        proof {
            assert(cell_views(Seq::<SqlVal>::empty()) =~= Seq::<SqlValView>::empty());
        }
        r
    }
}

impl<T: DataObject> PartialEq for Many<T> {
    /// Two relationships are equal when they are bound to the same
    /// owner key and the same join table; the pending logs and the
    /// cached result set do not take part.
    fn eq(&self, other: &Self) -> (r: bool) {
        let owners_match = match (&self.owner, &other.owner) {
            (Some(a), Some(b)) => *a == *b,
            (None, None) => true,
            _ => false,
        };
        owners_match && self.item_table == other.item_table
    }
}

impl<T: DataObject> vstd::std_specs::cmp::PartialEqSpecImpl for Many<T> {
    open spec fn obeys_eq_spec() -> bool {
        true
    }

    open spec fn eq_spec(&self, other: &Many<T>) -> bool {
        self@.owner == other@.owner && self@.item_table == other@.item_table
    }
}

impl<T: DataObject> Eq for Many<T> {

}

impl<T: DataObject> Default for Many<T> {
    /// The default relationship is a new, unbound one.
    fn default() -> (r: Self)
        ensures
            r@.owner is None,
            r@.new_values.len() == 0,
            r@.removed_values.len() == 0,
            r@.all_values is None,
    {
        Self::new()
    }
}

/// Borrows every member of a result set, in order.
fn borrow_all<T>(vals: &Vec<T>) -> (r: Vec<&T>)
    ensures
        r@.len() == vals@.len(),
        forall|i: int| 0 <= i < vals@.len() ==> *(#[trigger] r@[i]) == vals@[i],
{
    let mut out: Vec<&T> = Vec::new();
    let mut i: usize = 0;
    while i < vals.len()
        invariant
            out@.len() == i,
            i <= vals@.len(),
            forall|j: int| 0 <= j < i ==> *(#[trigger] out@[j]) == vals@[j],
        decreases vals@.len() - i,
    {
        out.push(&vals[i]);
        i = i + 1;
    }
    out
}

/// Filtering the empty sequence yields the empty sequence.
proof fn lemma_filter_of_empty<T>(pred: spec_fn(T) -> bool)
    ensures
        Seq::<T>::empty().filter(pred) == Seq::<T>::empty(),
{
    reveal_with_fuel(Seq::filter, 1);
}

/// Duplicates a list of column values; the copy's models match the
/// input's elementwise.
fn clone_vals(v: &Vec<SqlVal>) -> (r: Vec<SqlVal>)
    ensures
        cell_views(r@) == cell_views(v@),
{
    let mut out: Vec<SqlVal> = Vec::new();
    let mut i: usize = 0;
    while i < v.len()
        invariant
            out@.len() == i,
            i <= v@.len(),
            forall|j: int| 0 <= j < i ==> (#[trigger] out@[j])@ == v@[j]@,
        decreases v@.len() - i,
    {
        out.push(v[i].clone());
        i = i + 1;
    }
    proof {
        assert(cell_views(out@) =~= cell_views(v@));
    }
    out
}

/// Merges the entities of pending additions into a loaded result set,
/// deduplicated by presence: a pending entity whose key is already
/// present among the stored members is not appended again. The stored
/// members keep their order; appended entities keep theirs.
pub fn merge_loaded<T: DataObject>(stored: Vec<T>, pending: Vec<T>) -> (r: Vec<T>)
    ensures
        r@ == merged_members(stored@, pending@),
{
    broadcast use group_seq_properties;

    let ghost pred = |e: T| !has_pk_in(stored@, e.spec_pk());
    let ghost stored_view = stored@;
    let ghost pend_all = pending@;
    let stored_len = stored.len();
    let mut out = stored;
    let mut pending = pending;
    proof {
        assert(out@ =~= stored_view + pend_all.take(0).filter(pred));
    }
    let ghost i: int = 0;
    while !pending.is_empty()
        invariant
            stored_len == stored_view.len(),
            pred == (|e: T| !has_pk_in(stored_view, e.spec_pk())),
            0 <= i <= pend_all.len(),
            pending@ == pend_all.skip(i),
            out@ == stored_view + pend_all.take(i).filter(pred),
            forall|m: int| 0 <= m < stored_len ==> out@[m] == stored_view[m],
        decreases pend_all.len() - i,
    {
        let e = pending.remove(0);
        proof {
            assert(e == pend_all[i]);
            assert(pending@ =~= pend_all.skip(i + 1));
        }
        let k = e.pk();
        let mut present = false;
        let mut j: usize = 0;
        while j < stored_len
            invariant
                stored_len == stored_view.len(),
                stored_len <= out@.len(),
                forall|m: int| 0 <= m < stored_len ==> out@[m] == stored_view[m],
                j <= stored_len,
                k@ == pend_all[i].spec_pk(),
                0 <= i < pend_all.len(),
                present == (exists|m: int|
                    0 <= m < j && (#[trigger] stored_view[m]).spec_pk() == k@),
            decreases stored_len - j,
        {
            proof {
                assert(out@[j as int] == stored_view[j as int]);
            }
            if out[j].pk() == k {
                present = true;
                proof {
                    assert((#[trigger] stored_view[j as int]).spec_pk() == k@);
                }
            }
            j = j + 1;
        }
        proof {
            assert(present == has_pk_in(stored_view, pend_all[i].spec_pk()));
            assert(pend_all.take(i + 1) =~= pend_all.take(i) + seq![pend_all[i]]);
            Seq::filter_distributes_over_add(pend_all.take(i), seq![pend_all[i]], pred);
            reveal_with_fuel(Seq::filter, 2);
            assert(seq![pend_all[i]].drop_last() =~= Seq::<T>::empty());
            assert(seq![pend_all[i]].filter(pred) == if pred(pend_all[i]) {
                seq![pend_all[i]]
            } else {
                Seq::<T>::empty()
            });
        }
        if !present {
            out.push(e);
        }
        proof {
            i = i + 1;
            assert(out@ =~= stored_view + pend_all.take(i).filter(pred));
        }
    }
    proof {
        assert(pend_all.take(pend_all.len() as int) =~= pend_all);
    }
    out
}

} // verus!
