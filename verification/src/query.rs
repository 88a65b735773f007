//! The predicate and ordering trees consumed by the connection
//! contract. Building these is the caller's business; backend drivers
//! interpret them when executing a query.

use vstd::prelude::*;

use crate::sqlval::{SqlVal, SqlValView, cell_views};

verus! {

/// A scalar expression inside a predicate.
#[derive(Debug)]
pub enum Expr {
    /// A literal column value.
    Val(SqlVal),
}

/// A boolean predicate tree over the rows of one table.
#[derive(Debug)]
pub enum BoolExpr {
    /// The named column equals the expression.
    Eq(&'static str, Expr),
    /// The named column's value is one of the listed values.
    In(&'static str, Vec<SqlVal>),
    /// The named column's value appears in column `tbl2_col` of table
    /// `tbl2`, restricted to the rows of `tbl2` matching `expr`.
    Subquery {
        /// Column of the outer table whose value is tested.
        col: &'static str,
        /// The table the subquery runs against.
        tbl2: String,
        /// The column of `tbl2` that is projected.
        tbl2_col: &'static str,
        /// The predicate restricting the rows of `tbl2`.
        expr: Box<BoolExpr>,
    },
}

/// The model of an [`Expr`].
pub enum ExprView {
    /// A literal column value.
    Val(SqlValView),
}

impl View for Expr {
    type V = ExprView;

    open spec fn view(&self) -> ExprView {
        match self {
            Expr::Val(v) => ExprView::Val(v@),
        }
    }
}

/// The model of a [`BoolExpr`].
pub enum BoolExprView {
    /// The named column equals the expression.
    Eq(Seq<char>, ExprView),
    /// The named column's value is one of the listed values.
    In(Seq<char>, Seq<SqlValView>),
    /// The named column's value appears in column `tbl2_col` of table
    /// `tbl2`, restricted to the rows of `tbl2` matching `expr`.
    Subquery {
        /// Column of the outer table whose value is tested.
        col: Seq<char>,
        /// The table the subquery runs against.
        tbl2: Seq<char>,
        /// The column of `tbl2` that is projected.
        tbl2_col: Seq<char>,
        /// The predicate restricting the rows of `tbl2`.
        expr: Box<BoolExprView>,
    },
}

/// The model of a predicate tree.
pub open spec fn bool_expr_view(e: BoolExpr) -> BoolExprView
    decreases e,
{
    match e {
        BoolExpr::Eq(c, x) => BoolExprView::Eq(c@, x@),
        BoolExpr::In(c, vs) => BoolExprView::In(c@, cell_views(vs@)),
        BoolExpr::Subquery { col, tbl2, tbl2_col, expr } => BoolExprView::Subquery {
            col: col@,
            tbl2: tbl2@,
            tbl2_col: tbl2_col@,
            expr: Box::new(bool_expr_view(*expr)),
        },
    }
}

impl View for BoolExpr {
    type V = BoolExprView;

    open spec fn view(&self) -> BoolExprView {
        bool_expr_view(*self)
    }
}

/// The direction of one sort key.
#[derive(Clone, Copy, Debug, PartialEq, Eq, Structural)]
pub enum OrderDirection {
    /// Smallest value first.
    Ascending,
    /// Largest value first.
    Descending,
}

/// One sort key of a query: a column and a direction.
#[derive(Clone, Copy, Debug)]
pub struct Order {
    /// The column sorted by.
    pub column: &'static str,
    /// The direction to sort in.
    pub direction: OrderDirection,
}

/// The model of an [`Order`].
pub struct OrderView {
    /// The column sorted by.
    pub column: Seq<char>,
    /// The direction to sort in.
    pub direction: OrderDirection,
}

impl View for Order {
    type V = OrderView;

    open spec fn view(&self) -> OrderView {
        OrderView { column: self.column@, direction: self.direction }
    }
}

/// The models of a list of sort keys.
pub open spec fn order_views(s: Seq<Order>) -> Seq<OrderView> {
    s.map(|i: int, o: Order| o@)
}

} // verus!
