//! Tests of the single reference and the multi reference against an
//! in-memory backend driver.

use std::collections::HashMap;

use butane_core::connmethods::{
    BackendRow, Column, ConnectionMethods, VecRow, VecRows,
};
use butane_core::dataobj::DataObject;
use butane_core::fkey::ForeignKey;
use butane_core::many::Many;
use butane_core::query::{BoolExpr, Expr, Order, OrderDirection};
use butane_core::sqlval::{SqlType, SqlVal};
use butane_core::{Error, Result};

/// The member entity used throughout: a key and a name.
#[derive(Clone, Debug, PartialEq)]
struct Member {
    id: i64,
    name: String,
}

fn member(id: i64, name: &str) -> Member {
    Member {
        id,
        name: String::from(name),
    }
}

impl DataObject for Member {
    fn table() -> &'static str {
        "member"
    }

    fn columns() -> Vec<Column> {
        vec![
            Column::new("id", SqlType::BigInt),
            Column::new("name", SqlType::Text),
        ]
    }

    fn pk_column() -> Column {
        Column::new("id", SqlType::BigInt)
    }

    fn pk_type() -> SqlType {
        SqlType::BigInt
    }

    fn pk(&self) -> SqlVal {
        SqlVal::BigInt(self.id)
    }

    fn pk_is_valid(&self) -> bool {
        self.id != 0
    }

    fn from_row(row: &VecRow) -> Result<Member> {
        let id = row.get(0, SqlType::BigInt)?.as_big_int()?;
        let name = row.get(1, SqlType::Text)?.as_text()?.clone();
        Ok(Member { id, name })
    }
}

/// One in-memory table: ordered column names and rows of cells.
struct Table {
    columns: Vec<&'static str>,
    rows: Vec<Vec<SqlVal>>,
}

impl Table {
    fn column_index(&self, name: &str) -> usize {
        self.columns
            .iter()
            .position(|c| *c == name)
            .expect("unknown column in test backend")
    }
}

/// An in-memory backend driver: tables of rows, plus a counter of the
/// queries it has served, so tests can observe how many lookups a
/// relationship performed.
struct TestConn {
    tables: HashMap<String, Table>,
    queries: usize,
}

impl TestConn {
    fn new() -> TestConn {
        let mut tables = HashMap::new();
        tables.insert(
            String::from("member"),
            Table {
                columns: vec!["id", "name"],
                rows: Vec::new(),
            },
        );
        tables.insert(
            String::from("owner_member_many"),
            Table {
                columns: vec!["owner", "has"],
                rows: Vec::new(),
            },
        );
        TestConn { tables, queries: 0 }
    }

    fn with_members(members: &[Member]) -> TestConn {
        let mut conn = TestConn::new();
        for m in members {
            conn.tables.get_mut("member").unwrap().rows.push(vec![
                SqlVal::BigInt(m.id),
                SqlVal::Text(m.name.clone()),
            ]);
        }
        conn
    }

    fn join_rows(&self) -> Vec<(i64, i64)> {
        let mut out: Vec<(i64, i64)> = self.tables["owner_member_many"]
            .rows
            .iter()
            .map(|r| {
                (
                    r[0].as_big_int().unwrap(),
                    r[1].as_big_int().unwrap(),
                )
            })
            .collect();
        out.sort();
        out
    }

    fn eval(&self, table: &Table, row: &[SqlVal], expr: &BoolExpr) -> bool {
        match expr {
            BoolExpr::Eq(col, Expr::Val(v)) => row[table.column_index(col)] == *v,
            BoolExpr::In(col, vals) => vals.contains(&row[table.column_index(col)]),
            BoolExpr::Subquery {
                col,
                tbl2,
                tbl2_col,
                expr,
            } => {
                let sub = &self.tables[tbl2.as_str()];
                let proj = sub.column_index(tbl2_col);
                let keys: Vec<&SqlVal> = sub
                    .rows
                    .iter()
                    .filter(|r| self.eval(sub, r, expr))
                    .map(|r| &r[proj])
                    .collect();
                keys.contains(&&row[table.column_index(col)])
            }
        }
    }
}

impl ConnectionMethods for TestConn {
    type Rows = VecRows<VecRow>;

    fn execute(&mut self, _sql: &str) -> Result<()> {
        Ok(())
    }

    fn query(
        &mut self,
        table: &str,
        columns: &[Column],
        expr: Option<BoolExpr>,
        limit: Option<i32>,
        offset: Option<i32>,
        sort: Option<&[Order]>,
    ) -> Result<VecRows<VecRow>> {
        self.queries += 1;
        let t = self
            .tables
            .get(table)
            .ok_or_else(|| Error::Backend(String::from("no such table")))?;
        let mut selected: Vec<&Vec<SqlVal>> = t
            .rows
            .iter()
            .filter(|r| match &expr {
                Some(e) => self.eval(t, r, e),
                None => true,
            })
            .collect();
        if let Some(orders) = sort {
            for o in orders.iter().rev() {
                let idx = t.column_index(o.column);
                selected.sort_by_key(|r| r[idx].as_big_int().unwrap());
                if o.direction == OrderDirection::Descending {
                    selected.reverse();
                }
            }
        }
        let skip = offset.unwrap_or(0) as usize;
        let take = limit.map(|l| l as usize).unwrap_or(usize::MAX);
        let rows: Vec<VecRow> = selected
            .into_iter()
            .skip(skip)
            .take(take)
            .map(|r| {
                let cells: Vec<SqlVal> = columns
                    .iter()
                    .map(|c| r[t.column_index(c.name())].clone())
                    .collect();
                VecRow::from_values(cells)
            })
            .collect();
        Ok(VecRows::new(rows))
    }

    fn insert_returning_pk(
        &mut self,
        table: &str,
        columns: &[Column],
        pkcol: &Column,
        values: &[SqlVal],
    ) -> Result<SqlVal> {
        self.insert_only(table, columns, values)?;
        let pos = columns
            .iter()
            .position(|c| c.name() == pkcol.name())
            .expect("pk column not in column list");
        Ok(values[pos].clone())
    }

    fn insert_only(&mut self, table: &str, columns: &[Column], values: &[SqlVal]) -> Result<()> {
        let t = self
            .tables
            .get_mut(table)
            .ok_or_else(|| Error::Backend(String::from("no such table")))?;
        assert_eq!(columns.len(), values.len());
        let mut row = vec![SqlVal::Null; t.columns.len()];
        for (c, v) in columns.iter().zip(values.iter()) {
            let idx = t
                .columns
                .iter()
                .position(|n| *n == c.name())
                .expect("unknown column in insert");
            row[idx] = v.clone();
        }
        t.rows.push(row);
        Ok(())
    }

    fn insert_or_replace(
        &mut self,
        table: &str,
        columns: &[Column],
        pkcol: &Column,
        values: &[SqlVal],
    ) -> Result<()> {
        let pos = columns
            .iter()
            .position(|c| c.name() == pkcol.name())
            .expect("pk column not in column list");
        let pk = values[pos].clone();
        let _ = self.delete_where(table, BoolExpr::Eq(pkcol.name(), Expr::Val(pk)))?;
        self.insert_only(table, columns, values)
    }

    fn update(
        &mut self,
        table: &str,
        pkcol: Column,
        pk: &SqlVal,
        columns: &[Column],
        values: &[SqlVal],
    ) -> Result<()> {
        let _ = self.delete_where(table, BoolExpr::Eq(pkcol.name(), Expr::Val(pk.clone())))?;
        let mut all_columns = vec![pkcol];
        all_columns.extend_from_slice(columns);
        let mut all_values = vec![pk.clone()];
        all_values.extend_from_slice(values);
        self.insert_only(table, &all_columns, &all_values)
    }

    fn delete_where(&mut self, table: &str, expr: BoolExpr) -> Result<usize> {
        let t = self
            .tables
            .get(table)
            .ok_or_else(|| Error::Backend(String::from("no such table")))?;
        let keep: Vec<Vec<SqlVal>> = t
            .rows
            .iter()
            .filter(|r| !self.eval(t, r, &expr))
            .cloned()
            .collect();
        let t = self.tables.get_mut(table).unwrap();
        let deleted = t.rows.len() - keep.len();
        t.rows = keep;
        Ok(deleted)
    }

    fn has_table(&mut self, table: &str) -> Result<bool> {
        Ok(self.tables.contains_key(table))
    }
}

const JOIN_TABLE: &str = "owner_member_many";

fn names<'a>(loaded: &[&'a Member]) -> Vec<&'a str> {
    let mut out: Vec<&str> = loaded.iter().map(|m| m.name.as_str()).collect();
    out.sort();
    out
}

#[test]
fn reference_from_entity_reports_its_key() {
    let a = member(3, "ada");
    let mut fk = ForeignKey::from_entity(a.clone());
    assert_eq!(fk.pk(), a.pk());
}

#[test]
fn reference_from_entity_resolves_without_lookup() {
    let a = member(3, "ada");
    let mut conn = TestConn::new();
    let mut fk = ForeignKey::from_entity(a.clone());
    let resolved = fk.load(&mut conn).unwrap();
    assert_eq!(*resolved, a);
    assert_eq!(conn.queries, 0);
}

#[test]
fn reference_from_key_always_reports_that_key() {
    let a = member(3, "ada");
    let mut conn = TestConn::with_members(&[a.clone()]);
    let mut fk: ForeignKey<Member> = ForeignKey::from_pk(SqlVal::BigInt(3));
    assert_eq!(fk.pk(), SqlVal::BigInt(3));
    fk.load(&mut conn).unwrap();
    assert_eq!(fk.pk(), SqlVal::BigInt(3));
}

#[test]
fn reference_from_key_looks_up_exactly_once() {
    let a = member(3, "ada");
    let mut conn = TestConn::with_members(&[a.clone()]);
    let mut fk: ForeignKey<Member> = ForeignKey::from_pk(SqlVal::BigInt(3));
    let first = fk.load(&mut conn).unwrap().clone();
    assert_eq!(first, a);
    assert_eq!(conn.queries, 1);
    let second = fk.load(&mut conn).unwrap().clone();
    assert_eq!(second, a);
    // The second resolution reuses the cache: zero further lookups.
    assert_eq!(conn.queries, 1);
}

#[test]
fn reference_get_before_resolution_fails() {
    let fk: ForeignKey<Member> = ForeignKey::from_pk(SqlVal::BigInt(3));
    assert!(matches!(fk.get(), Err(Error::ValueNotLoaded)));
}

#[test]
fn reference_resolution_of_missing_row_fails_and_may_retry() {
    let mut conn = TestConn::new();
    let mut fk: ForeignKey<Member> = ForeignKey::from_pk(SqlVal::BigInt(3));
    assert!(matches!(fk.load(&mut conn), Err(Error::NoSuchObject)));
    // The failure was not cached: a later call retries the lookup.
    let a = member(3, "ada");
    conn.tables.get_mut("member").unwrap().rows.push(vec![
        SqlVal::BigInt(3),
        SqlVal::Text(String::from("ada")),
    ]);
    assert_eq!(*fk.load(&mut conn).unwrap(), a);
    assert_eq!(conn.queries, 2);
}

#[test]
fn reference_clone_keeps_key_and_drops_value() {
    let a = member(3, "ada");
    let fk = ForeignKey::from_entity(a.clone());
    let mut copy = fk.clone();
    assert_eq!(copy.pk(), SqlVal::BigInt(3));
    assert!(matches!(copy.get(), Err(Error::ValueNotLoaded)));
}

#[test]
fn reference_equality_is_by_key() {
    let a = member(3, "ada");
    let by_value = ForeignKey::from_entity(a.clone());
    let by_key: ForeignKey<Member> = ForeignKey::from_pk(SqlVal::BigInt(3));
    let other: ForeignKey<Member> = ForeignKey::from_pk(SqlVal::BigInt(4));
    assert_eq!(by_value, by_key);
    assert_ne!(by_value, other);
}

#[test]
fn reference_sql_round_trip() {
    let mut fk: ForeignKey<Member> = ForeignKey::from_sql(SqlVal::BigInt(9));
    assert_eq!(fk.to_sql(), SqlVal::BigInt(9));
    assert_eq!(fk.pk(), SqlVal::BigInt(9));
    assert_eq!(fk.into_sql(), SqlVal::BigInt(9));
}

#[test]
fn reference_from_parts_rejects_the_empty_pair() {
    assert!(matches!(
        ForeignKey::<Member>::from_parts(None, None),
        Err(Error::ValueNotLoaded)
    ));
    let a = member(3, "ada");
    let fk = ForeignKey::from_parts(Some(a.clone()), None).unwrap();
    assert_eq!(*fk.get().unwrap(), a);
    let mut fk2 = ForeignKey::<Member>::from_parts(None, Some(SqlVal::BigInt(3))).unwrap();
    assert_eq!(fk2.pk(), SqlVal::BigInt(3));
}

#[test]
fn uninitialized_many_loads_empty_and_never_errors() {
    let mut conn = TestConn::new();
    let mut many: Many<Member> = Many::new();
    let loaded = many.load(&mut conn).unwrap();
    assert!(loaded.is_empty());
    // Nothing was queried for an unbound relationship.
    assert_eq!(conn.queries, 0);
}

#[test]
fn uninitialized_many_save_and_delete_report_not_initialized() {
    let mut conn = TestConn::new();
    let mut many: Many<Member> = Many::new();
    assert!(matches!(many.save(&mut conn), Err(Error::NotInitialized)));
    assert!(matches!(many.delete(&mut conn), Err(Error::NotInitialized)));
}

#[test]
fn pending_additions_are_visible_before_and_after_persist() {
    let a = member(1, "ada");
    let b = member(2, "bob");
    let mut conn = TestConn::with_members(&[a.clone(), b.clone()]);
    let mut many: Many<Member> = Many::new();
    many.ensure_init(JOIN_TABLE, SqlVal::BigInt(7), SqlType::BigInt);
    many.add(&a).unwrap();
    many.add(&b).unwrap();
    // Before persisting, the join table is empty, yet both pending
    // members are reported.
    assert_eq!(conn.join_rows(), vec![]);
    let before = many.load(&mut conn).unwrap();
    assert_eq!(names(&before), vec!["ada", "bob"]);
    // Persist writes one join row per pending member.
    many.save(&mut conn).unwrap();
    assert_eq!(conn.join_rows(), vec![(7, 1), (7, 2)]);
    // Loading again reads the reconciled table.
    let after = many.load(&mut conn).unwrap();
    assert_eq!(names(&after), vec!["ada", "bob"]);
}

#[test]
fn removal_takes_effect_only_once_persisted() {
    let a = member(1, "ada");
    let b = member(2, "bob");
    let mut conn = TestConn::with_members(&[a.clone(), b.clone()]);
    let mut many: Many<Member> = Many::new();
    many.ensure_init(JOIN_TABLE, SqlVal::BigInt(7), SqlType::BigInt);
    many.add(&a).unwrap();
    many.add(&b).unwrap();
    many.save(&mut conn).unwrap();
    // A pending removal is not reflected by load until persisted.
    many.remove(&a);
    let still_both = many.load(&mut conn).unwrap();
    assert_eq!(names(&still_both), vec!["ada", "bob"]);
    many.save(&mut conn).unwrap();
    assert_eq!(conn.join_rows(), vec![(7, 2)]);
    let only_b = many.load(&mut conn).unwrap();
    assert_eq!(names(&only_b), vec!["bob"]);
}

#[test]
fn adding_an_unsaved_member_fails_and_changes_nothing() {
    let unsaved = member(0, "ghost");
    let a = member(1, "ada");
    let mut conn = TestConn::with_members(&[a.clone()]);
    let mut many: Many<Member> = Many::new();
    many.ensure_init(JOIN_TABLE, SqlVal::BigInt(7), SqlType::BigInt);
    assert!(matches!(many.add(&unsaved), Err(Error::ValueNotSaved)));
    // The pending-add log was not altered: persisting writes nothing.
    many.save(&mut conn).unwrap();
    assert_eq!(conn.join_rows(), vec![]);
}

#[test]
fn many_columns_always_report_owner_and_has() {
    let mut many: Many<Member> = Many::new();
    let before_init = many.columns();
    assert_eq!(before_init[0].name(), "owner");
    assert_eq!(before_init[1].name(), "has");
    many.ensure_init(JOIN_TABLE, SqlVal::BigInt(7), SqlType::BigInt);
    many.add(&member(1, "ada")).unwrap();
    let cols = many.columns();
    assert_eq!(cols[0].name(), "owner");
    assert_eq!(*cols[0].ty(), SqlType::BigInt);
    assert_eq!(cols[1].name(), "has");
    assert_eq!(*cols[1].ty(), SqlType::BigInt);
}

#[test]
fn many_get_requires_a_prior_load() {
    let a = member(1, "ada");
    let mut conn = TestConn::with_members(&[a.clone()]);
    let mut many: Many<Member> = Many::new();
    many.ensure_init(JOIN_TABLE, SqlVal::BigInt(7), SqlType::BigInt);
    assert!(matches!(many.get(), Err(Error::ValueNotLoaded)));
    many.add(&a).unwrap();
    many.load(&mut conn).unwrap();
    let cached = many.get().unwrap();
    assert_eq!(cached.len(), 1);
    assert_eq!(cached[0], a);
}

#[test]
fn many_load_reuses_the_cached_result_set() {
    let a = member(1, "ada");
    let mut conn = TestConn::with_members(&[a.clone()]);
    let mut many: Many<Member> = Many::new();
    many.ensure_init(JOIN_TABLE, SqlVal::BigInt(7), SqlType::BigInt);
    many.add(&a).unwrap();
    many.save(&mut conn).unwrap();
    many.load(&mut conn).unwrap();
    let queries_after_first = conn.queries;
    many.load(&mut conn).unwrap();
    assert_eq!(conn.queries, queries_after_first);
}

#[test]
fn many_merges_pending_members_without_duplicates() {
    let a = member(1, "ada");
    let b = member(2, "bob");
    let mut conn = TestConn::with_members(&[a.clone(), b.clone()]);
    let mut many: Many<Member> = Many::new();
    many.ensure_init(JOIN_TABLE, SqlVal::BigInt(7), SqlType::BigInt);
    // `ada` is durably joined already; adding her again while also
    // adding `bob` must not report her twice.
    many.add(&a).unwrap();
    many.save(&mut conn).unwrap();
    many.add(&a).unwrap();
    many.add(&b).unwrap();
    let loaded = many.load(&mut conn).unwrap();
    assert_eq!(names(&loaded), vec!["ada", "bob"]);
}

#[test]
fn many_load_ordered_sorts_by_member_key() {
    let a = member(1, "ada");
    let b = member(2, "bob");
    let c = member(3, "cyd");
    let mut conn = TestConn::with_members(&[b.clone(), c.clone(), a.clone()]);
    let mut many: Many<Member> = Many::new();
    many.ensure_init(JOIN_TABLE, SqlVal::BigInt(7), SqlType::BigInt);
    many.add(&a).unwrap();
    many.add(&b).unwrap();
    many.add(&c).unwrap();
    many.save(&mut conn).unwrap();
    let descending = many.load_ordered(&mut conn, OrderDirection::Descending).unwrap();
    let ids: Vec<i64> = descending.iter().map(|m| m.id).collect();
    assert_eq!(ids, vec![3, 2, 1]);
}

#[test]
fn many_delete_purges_join_rows_and_state() {
    let a = member(1, "ada");
    let b = member(2, "bob");
    let mut conn = TestConn::with_members(&[a.clone(), b.clone()]);
    let mut many: Many<Member> = Many::new();
    many.ensure_init(JOIN_TABLE, SqlVal::BigInt(7), SqlType::BigInt);
    many.add(&a).unwrap();
    many.add(&b).unwrap();
    many.save(&mut conn).unwrap();
    assert_eq!(conn.join_rows().len(), 2);
    many.delete(&mut conn).unwrap();
    assert_eq!(conn.join_rows(), vec![]);
    let loaded = many.load(&mut conn).unwrap();
    assert!(loaded.is_empty());
}

#[test]
fn many_initialization_is_idempotent() {
    let a = member(1, "ada");
    let mut conn = TestConn::with_members(&[a.clone()]);
    let mut many: Many<Member> = Many::new();
    many.ensure_init(JOIN_TABLE, SqlVal::BigInt(7), SqlType::BigInt);
    // Rebinding to another owner is silently ignored.
    many.ensure_init("other_table", SqlVal::BigInt(8), SqlType::BigInt);
    many.add(&a).unwrap();
    many.save(&mut conn).unwrap();
    assert_eq!(conn.join_rows(), vec![(7, 1)]);
}

#[test]
fn many_equality_is_by_owner_and_table() {
    let mut first: Many<Member> = Many::new();
    let mut second: Many<Member> = Many::new();
    assert_eq!(first, second);
    first.ensure_init(JOIN_TABLE, SqlVal::BigInt(7), SqlType::BigInt);
    assert_ne!(first, second);
    second.ensure_init(JOIN_TABLE, SqlVal::BigInt(7), SqlType::BigInt);
    // The pending logs take no part in equality.
    second.add(&member(1, "ada")).unwrap();
    assert_eq!(first, second);
}

#[test]
fn many_default_is_unbound() {
    let mut conn = TestConn::new();
    let mut many: Many<Member> = Many::default();
    assert!(many.load(&mut conn).unwrap().is_empty());
    assert!(matches!(many.save(&mut conn), Err(Error::NotInitialized)));
}

#[test]
fn many_from_parts_restores_the_cached_members() {
    let a = member(1, "ada");
    let mut conn = TestConn::new();
    let mut restored: Many<Member> = Many::from_parts(
        String::from(JOIN_TABLE),
        Some(SqlVal::BigInt(7)),
        SqlType::BigInt,
        vec![a.clone()],
    );
    // The members come back cached: no query is needed.
    let loaded = restored.load(&mut conn).unwrap();
    assert_eq!(names(&loaded), vec!["ada"]);
    assert_eq!(conn.queries, 0);
    // An empty member list comes back uncached.
    let empty: Many<Member> = Many::from_parts(
        String::from(JOIN_TABLE),
        Some(SqlVal::BigInt(7)),
        SqlType::BigInt,
        Vec::new(),
    );
    assert!(matches!(empty.get(), Err(Error::ValueNotLoaded)));
}
