// Subquery analysis utilities: where a subquery occurs in a statement and
// in what role. An optional analysis surface; nothing here feeds command
// generation. Results borrow the subqueries, so callers can descend into
// one by walking its query directly.

use vstd::prelude::*;

use crate::ast::{
    SqlExpr, SqlQuery, SqlSelect, SqlSelectItem, SqlStatement, SqlTableFactor, SqlTableWithJoins,
};
use crate::pattern::matchers::select::spec_stmt_select;

verus! {

/// Subquery roles, by the clause a subquery occurs in.
#[derive(Debug, Clone, PartialEq)]
pub enum SubqueryContext {
    /// Subquery in a FROM clause (derived table)
    FromClause { alias: Option<String> },
    /// Subquery in a WHERE clause
    WhereClause,
    /// Subquery in a SELECT clause (scalar subquery)
    SelectClause,
    /// Subquery in an EXISTS predicate
    ExistsPredicate,
    /// Subquery in an IN predicate
    InPredicate { column: Option<String> },
    /// Subquery compared through a quantifier
    Quantified { column: Option<String>, operator: String, quantifier: String },
}

/// Information about one subquery, borrowing it from the statement.
pub struct SubqueryInfo<'a> {
    pub query: &'a SqlQuery,
    pub context: SubqueryContext,
    pub negated: bool,
}

/// The mathematical shape of a `SubqueryContext`.
#[verifier::ext_equal]
pub enum SubCtxView {
    FromClause(Option<Seq<char>>),
    WhereClause,
    SelectClause,
    ExistsPredicate,
    InPredicate(Option<Seq<char>>),
    Quantified(Option<Seq<char>>, Seq<char>, Seq<char>),
}

/// The mathematical shape of a `SubqueryInfo`.
#[verifier::ext_equal]
pub struct SubView {
    pub query: SqlQuery,
    pub context: SubCtxView,
    pub negated: bool,
}

pub open spec fn spec_sub_ctx_view(c: SubqueryContext) -> SubCtxView {
    match c {
        SubqueryContext::FromClause { alias } => SubCtxView::FromClause(
            match alias {
                Some(a) => Some(a@),
                None => None,
            },
        ),
        SubqueryContext::WhereClause => SubCtxView::WhereClause,
        SubqueryContext::SelectClause => SubCtxView::SelectClause,
        SubqueryContext::ExistsPredicate => SubCtxView::ExistsPredicate,
        SubqueryContext::InPredicate { column } => SubCtxView::InPredicate(
            match column {
                Some(c) => Some(c@),
                None => None,
            },
        ),
        SubqueryContext::Quantified { column, operator, quantifier } => SubCtxView::Quantified(
            match column {
                Some(c) => Some(c@),
                None => None,
            },
            operator@,
            quantifier@,
        ),
    }
}

pub open spec fn spec_sub_info_view(i: SubqueryInfo) -> SubView {
    SubView { query: *i.query, context: spec_sub_ctx_view(i.context), negated: i.negated }
}

/// The subquery an expression node holds directly: a scalar subquery, an
/// EXISTS predicate, or an IN predicate with its column.
pub open spec fn spec_direct_sub(e: SqlExpr) -> Option<SubView> {
    match e {
        SqlExpr::Subquery(q) => Some(
            SubView { query: *q, context: SubCtxView::SelectClause, negated: false },
        ),
        SqlExpr::Exists { subquery, negated } => Some(
            SubView { query: *subquery, context: SubCtxView::ExistsPredicate, negated },
        ),
        SqlExpr::InSubquery { operand, subquery, negated } => Some(
            SubView {
                query: *subquery,
                context: SubCtxView::InPredicate(
                    match *operand {
                        SqlExpr::Identifier(id) => Some(id@),
                        _ => None,
                    },
                ),
                negated,
            },
        ),
        _ => None,
    }
}

/// Every subquery of an expression tree, depth-first, left to right.
pub open spec fn spec_expr_subs(e: SqlExpr) -> Seq<SubView>
    decreases e,
{
    match e {
        SqlExpr::BinaryOp { left, right, .. } => spec_expr_subs(*left) + spec_expr_subs(*right),
        SqlExpr::UnaryOp(inner) => spec_expr_subs(*inner),
        SqlExpr::Nested(inner) => spec_expr_subs(*inner),
        _ => match spec_direct_sub(e) {
            Some(v) => seq![v],
            None => Seq::empty(),
        },
    }
}

fn direct_sub<'a>(expr: &'a SqlExpr) -> (r: Option<SubqueryInfo<'a>>)
    ensures
        match (r, spec_direct_sub(*expr)) {
            (Some(a), Some(b)) => spec_sub_info_view(a) == b,
            (None, None) => true,
            _ => false,
        },
{
    match expr {
        SqlExpr::Subquery(q) => Some(
            SubqueryInfo { query: q, context: SubqueryContext::SelectClause, negated: false },
        ),
        SqlExpr::Exists { subquery, negated } => Some(
            SubqueryInfo {
                query: subquery,
                context: SubqueryContext::ExistsPredicate,
                negated: *negated,
            },
        ),
        SqlExpr::InSubquery { operand, subquery, negated } => {
            let column = match &**operand {
                SqlExpr::Identifier(id) => Some(id.clone()),
                _ => None,
            };
            Some(
                SubqueryInfo {
                    query: subquery,
                    context: SubqueryContext::InPredicate { column },
                    negated: *negated,
                },
            )
        },
        _ => None,
    }
}

/// Extract all subqueries from an expression tree.
pub fn extract_subqueries_from_expr<'a>(expr: &'a SqlExpr) -> (r: Vec<SubqueryInfo<'a>>)
    ensures
        r@.len() == spec_expr_subs(*expr).len(),
        forall|m: int|
            0 <= m < r@.len() ==> spec_sub_info_view(#[trigger] r@[m]) == spec_expr_subs(*expr)[m],
    decreases *expr,
{
    match expr {
        SqlExpr::BinaryOp { left, right, .. } => {
            let mut out = extract_subqueries_from_expr(&**left);
            let mut more = extract_subqueries_from_expr(&**right);
            out.append(&mut more);
            out
        },
        SqlExpr::UnaryOp(inner) => extract_subqueries_from_expr(&**inner),
        SqlExpr::Nested(inner) => extract_subqueries_from_expr(&**inner),
        _ => {
            match direct_sub(expr) {
                Some(info) => {
                    let mut out: Vec<SubqueryInfo<'a>> = Vec::new();
                    out.push(info);
                    out
                },
                None => Vec::new(),
            }
        },
    }
}

/// The derived-table subqueries of one FROM entry: the base relation's, then
/// each joined relation's.
pub open spec fn spec_factor_sub(t: SqlTableFactor) -> Seq<SubView> {
    match t {
        SqlTableFactor::Derived { alias, subquery } => seq![
            SubView {
                query: *subquery,
                context: SubCtxView::FromClause(
                    match alias {
                        Some(a) => Some(a@),
                        None => None,
                    },
                ),
                negated: false,
            },
        ],
        _ => Seq::empty(),
    }
}

pub open spec fn spec_table_subs(t: SqlTableWithJoins) -> Seq<SubView>
    decreases t,
{
    spec_factor_sub(t.relation) + spec_join_subs(t.joins@)
}

pub open spec fn spec_join_subs(joins: Seq<crate::ast::Join>) -> Seq<SubView>
    decreases joins.len(),
{
    if joins.len() == 0 {
        Seq::empty()
    } else {
        spec_join_subs(joins.drop_last()) + spec_factor_sub(joins.last().relation)
    }
}

pub open spec fn spec_from_subs(from: Seq<SqlTableWithJoins>) -> Seq<SubView>
    decreases from.len(),
{
    if from.len() == 0 {
        Seq::empty()
    } else {
        spec_from_subs(from.drop_last()) + spec_table_subs(from.last())
    }
}

/// The subqueries of a projection list, in order.
pub open spec fn spec_proj_subs(items: Seq<SqlSelectItem>) -> Seq<SubView>
    decreases items.len(),
{
    if items.len() == 0 {
        Seq::empty()
    } else {
        spec_proj_subs(items.drop_last()) + (match items.last() {
            SqlSelectItem::UnnamedExpr(e) => spec_expr_subs(e),
            SqlSelectItem::ExprWithAlias { expr, .. } => spec_expr_subs(expr),
            _ => Seq::empty(),
        })
    }
}

/// The subqueries of a WHERE or HAVING expression, when there is one.
pub open spec fn spec_opt_expr_subs(e: Option<SqlExpr>) -> Seq<SubView> {
    match e {
        Some(x) => spec_expr_subs(x),
        None => Seq::empty(),
    }
}

/// Every subquery in the statement's own clauses: derived tables of the
/// FROM list, the WHERE clause, the projection, and the HAVING clause, in
/// that order.
pub open spec fn spec_all_subqueries(stmt: SqlStatement) -> Seq<SubView> {
    match spec_stmt_select(stmt) {
        Some(s) => spec_from_subs(s.from@) + spec_opt_expr_subs(s.selection) + spec_proj_subs(
            s.projection@,
        ) + spec_opt_expr_subs(s.having),
        None => Seq::empty(),
    }
}

fn factor_sub<'a>(t: &'a SqlTableFactor, out: &mut Vec<SubqueryInfo<'a>>)
    ensures
        final(out)@.len() == old(out)@.len() + spec_factor_sub(*t).len(),
        forall|m: int|
            0 <= m < old(out)@.len() ==> #[trigger] final(out)@[m] == old(out)@[m],
        forall|m: int|
            old(out)@.len() <= m < final(out)@.len() ==> spec_sub_info_view(
                #[trigger] final(out)@[m],
            ) == spec_factor_sub(*t)[m - old(out)@.len()],
{
    match t {
        SqlTableFactor::Derived { alias, subquery } => {
            let a = match alias {
                Some(a) => Some(a.clone()),
                None => None,
            };
            out.push(
                SubqueryInfo {
                    query: subquery,
                    context: SubqueryContext::FromClause { alias: a },
                    negated: false,
                },
            );
        },
        _ => {},
    }
}

/// Extract every subquery from the statement's own clauses.
pub fn extract_all_subqueries<'a>(stmt: &'a SqlStatement) -> (r: Vec<SubqueryInfo<'a>>)
    ensures
        r@.len() == spec_all_subqueries(*stmt).len(),
        forall|m: int|
            0 <= m < r@.len() ==> spec_sub_info_view(#[trigger] r@[m]) == spec_all_subqueries(
                *stmt,
            )[m],
{
    let s: &SqlSelect = match crate::ast::sel_get_query(stmt) {
        Some(q) => match crate::ast::sel_get_select(q) {
            Some(s) => s,
            None => { return Vec::new() },
        },
        None => { return Vec::new() },
    };
    let mut subs: Vec<SubqueryInfo<'a>> = Vec::new();
    let mut i: usize = 0;
    proof {
        assert(s.from@.subrange(0, 0) =~= Seq::<SqlTableWithJoins>::empty());
    }
    while i < s.from.len()
        invariant
            spec_stmt_select(*stmt) == Some(*s),
            i <= s.from@.len(),
            subs@.len() == spec_from_subs(s.from@.subrange(0, i as int)).len(),
            forall|m: int|
                0 <= m < subs@.len() ==> spec_sub_info_view(#[trigger] subs@[m]) == spec_from_subs(
                    s.from@.subrange(0, i as int),
                )[m],
        decreases s.from@.len() - i,
    {
        let ghost prefix = spec_from_subs(s.from@.subrange(0, i as int));
        let table = &s.from[i];
        factor_sub(&table.relation, &mut subs);
        let mut k: usize = 0;
        while k < table.joins.len()
            invariant
                i < s.from@.len(),
                *table == s.from@[i as int],
                prefix == spec_from_subs(s.from@.subrange(0, i as int)),
                k <= table.joins@.len(),
                subs@.len() == prefix.len() + spec_factor_sub(table.relation).len()
                    + spec_join_subs(table.joins@.subrange(0, k as int)).len(),
                forall|m: int|
                    0 <= m < prefix.len() ==> spec_sub_info_view(#[trigger] subs@[m])
                        == prefix[m],
                forall|m: int|
                    prefix.len() <= m < subs@.len() ==> spec_sub_info_view(#[trigger] subs@[m])
                        == (spec_factor_sub(table.relation) + spec_join_subs(
                        table.joins@.subrange(0, k as int),
                    ))[m - prefix.len()],
            decreases table.joins@.len() - k,
        {
            proof {
                assert(table.joins@.subrange(0, k + 1).drop_last() =~= table.joins@.subrange(
                    0,
                    k as int,
                ));
                assert(table.joins@.subrange(0, k + 1).last() == table.joins@[k as int]);
            }
            factor_sub(&table.joins[k].relation, &mut subs);
            k += 1;
        }
        i += 1;
        proof {
            assert(table.joins@.subrange(0, table.joins@.len() as int) =~= table.joins@);
            assert(s.from@.subrange(0, i as int).drop_last() =~= s.from@.subrange(0, i - 1));
            assert(s.from@.subrange(0, i as int).last() == s.from@[i - 1]);
        }
    }
    proof {
        assert(s.from@.subrange(0, s.from@.len() as int) =~= s.from@);
    }
    let ghost gfrom = spec_from_subs(s.from@);
    match &s.selection {
        Some(e) => {
            let mut more = extract_subqueries_from_expr(e);
            subs.append(&mut more);
        },
        None => {},
    }
    let ghost gwhere = spec_opt_expr_subs(s.selection);
    let mut p: usize = 0;
    proof {
        assert(s.projection@.subrange(0, 0) =~= Seq::<SqlSelectItem>::empty());
    }
    while p < s.projection.len()
        invariant
            spec_stmt_select(*stmt) == Some(*s),
            gfrom == spec_from_subs(s.from@),
            gwhere == spec_opt_expr_subs(s.selection),
            p <= s.projection@.len(),
            subs@.len() == gfrom.len() + gwhere.len() + spec_proj_subs(
                s.projection@.subrange(0, p as int),
            ).len(),
            forall|m: int|
                0 <= m < subs@.len() ==> spec_sub_info_view(#[trigger] subs@[m]) == (gfrom + gwhere
                    + spec_proj_subs(s.projection@.subrange(0, p as int)))[m],
        decreases s.projection@.len() - p,
    {
        proof {
            assert(s.projection@.subrange(0, p + 1).drop_last() =~= s.projection@.subrange(
                0,
                p as int,
            ));
            assert(s.projection@.subrange(0, p + 1).last() == s.projection@[p as int]);
        }
        match &s.projection[p] {
            SqlSelectItem::UnnamedExpr(e) => {
                let mut more = extract_subqueries_from_expr(e);
                subs.append(&mut more);
            },
            SqlSelectItem::ExprWithAlias { expr, .. } => {
                let mut more = extract_subqueries_from_expr(expr);
                subs.append(&mut more);
            },
            _ => {},
        }
        p += 1;
    }
    proof {
        assert(s.projection@.subrange(0, s.projection@.len() as int) =~= s.projection@);
    }
    match &s.having {
        Some(e) => {
            let mut more = extract_subqueries_from_expr(e);
            subs.append(&mut more);
        },
        None => {},
    }
    subs
}

} // verus!
