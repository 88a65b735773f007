//! The single reference: a lazily-resolved pointer to one related
//! entity, addressable by a cached value, a cached key, or both.

use vstd::prelude::*;

use crate::connmethods::{BackendRows, ConnectionMethods, DbOp, column_views, vec_from_backend_rows};
use crate::dataobj::DataObject;
use crate::query::{BoolExpr, BoolExprView, Expr, ExprView};
use crate::sqlval::{SqlVal, SqlValView};
use crate::{Error, Result};

verus! {

/// The model of a [`ForeignKey`]: the cached entity, if any, and the
/// cached key, if any. At least one of the two is always populated.
pub struct ForeignKeyView<T> {
    /// The cached entity.
    pub val: Option<T>,
    /// The model of the cached key.
    pub key: Option<SqlValView>,
}

impl<T: DataObject> ForeignKeyView<T> {
    /// The two-source-of-truth invariant: a reference is known by
    /// value, by key, or both, but never by neither.
    pub open spec fn wf(self) -> bool {
        self.val is Some || self.key is Some
    }

    /// The key the reference stands for: the cached key when one is
    /// cached, else the cached entity's own key.
    pub open spec fn spec_key(self) -> SqlValView
        recommends
            self.wf(),
    {
        match self.key {
            Some(k) => k,
            None => match self.val {
                Some(v) => v.spec_pk(),
                None => arbitrary(),
            },
        }
    }
}

/// The log entry of a primary-key lookup of one entity of type `T` by
/// the key `k`, together with the rows the backend returned for it.
pub open spec fn pk_lookup_op<T: DataObject>(k: SqlValView, rows: Seq<Seq<SqlValView>>) -> DbOp {
    DbOp::Query {
        table: T::spec_table(),
        columns: T::spec_columns(),
        expr: Some(BoolExprView::Eq(T::spec_pk_column_name(), ExprView::Val(k))),
        limit: Some(1i32),
        offset: None,
        sort: None,
        result: rows,
    }
}

/// A lazily-resolved reference to one related entity. Created from an
/// owned entity (value known, key derived on demand) or from a known
/// key (value loaded on demand); resolution caches its result, so at
/// most one lookup is ever performed. Equality is defined purely on
/// the key.
#[derive(Debug)]
pub struct ForeignKey<T: DataObject> {
    val: Option<Box<T>>,
    valpk: Option<SqlVal>,
}

impl<T: DataObject> View for ForeignKey<T> {
    type V = ForeignKeyView<T>;

    closed spec fn view(&self) -> ForeignKeyView<T> {
        ForeignKeyView {
            val: match self.val {
                Some(b) => Some(*b),
                None => None,
            },
            key: match self.valpk {
                Some(k) => Some(k@),
                None => None,
            },
        }
    }
}

impl<T: DataObject> ForeignKey<T> {
    #[verifier::type_invariant]
    closed spec fn type_inv(self) -> bool {
        self@.wf()
    }

    /// Creates a reference from the primary key of the entity; the
    /// entity itself is left to be loaded on demand.
    pub fn from_pk(pk: SqlVal) -> (r: Self)
        ensures
            r@.val is None,
            r@.key == Some(pk@),
    {
        ForeignKey { val: None, valpk: Some(pk) }
    }

    /// Creates a reference from an owned entity; the key is derived
    /// from the entity on demand.
    pub fn from_entity(obj: T) -> (r: Self)
        ensures
            r@.val == Some(obj),
            r@.key is None,
    {
        ForeignKey { val: Some(Box::new(obj)), valpk: None }
    }

    /// Rebuilds a reference from an optional cached entity and an
    /// optional cached key, as a stored representation holds them.
    /// A pair with neither populated cannot form a reference and is
    /// rejected with `ValueNotLoaded`.
    pub fn from_parts(val: Option<T>, key: Option<SqlVal>) -> (r: Result<Self>)
        ensures
            match r {
                Ok(fk) => {
                    &&& (val is Some || key is Some)
                    &&& fk@.val == val
                    &&& fk@.key == match key {
                        Some(k) => Some(k@),
                        None => None::<SqlValView>,
                    }
                },
                Err(e) => val is None && key is None && e matches Error::ValueNotLoaded,
            },
    {
        match (val, key) {
            (Some(v), Some(k)) => Ok(ForeignKey { val: Some(Box::new(v)), valpk: Some(k) }),
            (Some(v), None) => Ok(ForeignKey { val: Some(Box::new(v)), valpk: None }),
            (None, Some(k)) => Ok(ForeignKey { val: None, valpk: Some(k) }),
            (None, None) => Err(Error::ValueNotLoaded),
        }
    }

    /// Returns the cached entity. Fails with `ValueNotLoaded` if the
    /// entity has not been resolved yet; this accessor never performs
    /// a lookup.
    pub fn get(&self) -> (r: Result<&T>)
        ensures
            match r {
                Ok(v) => self@.val == Some(*v),
                Err(e) => self@.val is None && e matches Error::ValueNotLoaded,
            },
    {
        match &self.val {
            Some(v) => Ok(&**v),
            None => Err(Error::ValueNotLoaded),
        }
    }

    /// Returns the key of the referenced entity: the cached key when
    /// one is cached, else the key derived from the cached entity. A
    /// derived key is memoized: it is computed at most once and later
    /// calls reuse it.
    pub fn pk(&mut self) -> (r: SqlVal)
        ensures
            r@ == old(self)@.spec_key(),
            final(self)@.val == old(self)@.val,
            final(self)@.key == Some(r@),
            final(self)@.spec_key() == old(self)@.spec_key(),
    {
        self.ensure_valpk().clone()
    }

    /// Computes the key of the referenced entity without touching the
    /// cache: the cached key when one is cached, else the key derived
    /// afresh from the cached entity.
    fn current_pk(&self) -> (r: SqlVal)
        ensures
            r@ == self@.spec_key(),
    {
        proof {
            use_type_invariant(&*self);
        }
        match &self.valpk {
            Some(k) => k.clone(),
            None => match &self.val {
                Some(v) => v.pk(),
                None => unreached(),
            },
        }
    }

    /// Caches the key, deriving it from the cached entity when only
    /// the entity is populated, and returns it. The key is derived at
    /// most once; later calls reuse the cache.
    fn ensure_valpk(&mut self) -> (r: &SqlVal)
        ensures
            final(self)@.val == old(self)@.val,
            final(self)@.key == Some(r@),
            r@ == old(self)@.spec_key(),
            final(self)@.spec_key() == old(self)@.spec_key(),
    {
        proof {
            use_type_invariant(&*self);
        }
        if self.valpk.is_none() {
            let k = match &self.val {
                Some(v) => v.pk(),
                None => unreached(),
            };
            self.valpk = Some(k);
        }
        match &self.valpk {
            Some(k) => k,
            None => unreached(),
        }
    }

    /// The cached key, or nothing when only the entity is cached.
    pub fn valpk(&self) -> (r: &Option<SqlVal>)
        ensures
            match r {
                Some(k) => self@.key == Some(k@),
                None => self@.key is None,
            },
    {
        &self.valpk
    }

    /// The key of the reference as a column value.
    pub fn to_sql(&self) -> (r: SqlVal)
        ensures
            r@ == self@.spec_key(),
    {
        self.current_pk()
    }

    /// Consumes the reference into the key it stands for.
    pub fn into_sql(self) -> (r: SqlVal)
        ensures
            r@ == self@.spec_key(),
    {
        self.current_pk()
    }

    /// Rebuilds a reference from a stored key value.
    pub fn from_sql(v: SqlVal) -> (r: Self)
        ensures
            r@.val is None,
            r@.key == Some(v@),
    {
        Self::from_pk(v)
    }

    /// Resolves the reference: returns the cached entity when one is
    /// cached, performing no lookup and leaving the connection
    /// untouched; otherwise performs exactly one primary-key lookup
    /// through the connection — recorded on its session log with this
    /// reference's key as the lookup key — and, when a row comes back,
    /// caches its decoding and returns it. A failed lookup leaves the
    /// reference unchanged, so a later call may retry; a lookup that
    /// returns no row fails with `NoSuchObject`.
    pub fn load<C: ConnectionMethods>(&mut self, conn: &mut C) -> (r: Result<&T>)
        ensures
            old(self)@.val is Some ==> *final(self) == *old(self) && *final(conn) == *old(conn)
                && r is Ok,
            old(self)@.val is None ==> (final(conn).log() == old(conn).log() || exists|
                rows: Seq<Seq<SqlValView>>,
            |
                final(conn).log() == old(conn).log().push(
                    #[trigger] pk_lookup_op::<T>(old(self)@.spec_key(), rows),
                )),
            match r {
                Ok(v) => {
                    &&& final(self)@.val == Some(*v)
                    &&& final(self)@.key == old(self)@.key
                    &&& (old(self)@.val matches Some(cached) ==> cached == *v)
                    &&& (old(self)@.val is None ==> exists|rows: Seq<Seq<SqlValView>>|
                        final(conn).log() == old(conn).log().push(
                            #[trigger] pk_lookup_op::<T>(old(self)@.spec_key(), rows),
                        ) && rows.len() >= 1 && T::spec_from_row(rows[0]) == Some(*v))
                },
                Err(_) => *final(self) == *old(self),
            },
    {
        proof {
            use_type_invariant(&*self);
        }
        if self.val.is_none() {
            let pk = match &self.valpk {
                Some(k) => k.clone(),
                None => unreached(),
            };
            let cols = T::columns();
            let expr = BoolExpr::Eq(T::pk_column().name(), Expr::Val(pk));
            let rows = match conn.query(
                T::table(),
                cols.as_slice(),
                Some(expr),
                Some(1),
                None,
                None,
            ) {
                Ok(rows) => rows,
                Err(e) => {
                    return Err(e);
                },
            };
            let ghost returned = rows.views();
            proof {
                assert(column_views(cols@) == T::spec_columns());
                assert(conn.log() == old(conn).log().push(
                    pk_lookup_op::<T>(old(self)@.spec_key(), returned),
                ));
            }
            let mut vrows = match vec_from_backend_rows(rows, cols.as_slice()) {
                Ok(vrows) => vrows,
                Err(e) => {
                    return Err(e);
                },
            };
            let row = match vrows.next() {
                Ok(Some(row)) => row,
                Ok(None) => {
                    return Err(Error::NoSuchObject);
                },
                Err(e) => {
                    return Err(e);
                },
            };
            let obj = match T::from_row(&row) {
                Ok(obj) => obj,
                Err(e) => {
                    return Err(e);
                },
            };
            self.val = Some(Box::new(obj));
        }
        match &self.val {
            Some(v) => Ok(&**v),
            None => unreached(),
        }
    }
}

impl<T: DataObject> Clone for ForeignKey<T> {
    /// Clones the reference as a reference by key: the copy carries
    /// the original's key and resolves its own entity on demand.
    fn clone(&self) -> (r: Self)
        ensures
            r@.val is None,
            r@.key == Some(self@.spec_key()),
    {
        ForeignKey { val: None, valpk: Some(self.current_pk()) }
    }
}

impl<T: DataObject> PartialEq for ForeignKey<T> {
    /// Equality of references is equality of their keys alone.
    fn eq(&self, other: &Self) -> (r: bool) {
        self.current_pk() == other.current_pk()
    }
}

impl<T: DataObject> vstd::std_specs::cmp::PartialEqSpecImpl for ForeignKey<T> {
    open spec fn obeys_eq_spec() -> bool {
        true
    }

    open spec fn eq_spec(&self, other: &ForeignKey<T>) -> bool {
        self@.spec_key() == other@.spec_key()
    }
}

impl<T: DataObject> Eq for ForeignKey<T> {

}

/// A single reference built from an entity alone reports that
/// entity's own key.
pub proof fn lemma_key_of_entity_reference<T: DataObject>(m: ForeignKeyView<T>, e: T)
    requires
        m.val == Some(e),
        m.key is None,
    ensures
        m.spec_key() == e.spec_pk(),
{
}

/// A single reference that holds a cached key always reports exactly
/// that key, resolved or not.
pub proof fn lemma_key_of_key_reference<T: DataObject>(m: ForeignKeyView<T>, k: SqlValView)
    requires
        m.key == Some(k),
    ensures
        m.spec_key() == k,
{
}

} // verus!
