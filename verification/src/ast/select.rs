// Pure accessors over SELECT statements: projection, table, WHERE-clause
// values, LIMIT and ORDER BY. The WHERE-clause accessors here look at the
// top-level condition node only; walking conjunctions is the extractors'
// business.

use vstd::prelude::*;

use crate::ast::{
    SqlExpr, OrderByKind, SqlQuery, SqlSelect, SqlSelectItem, SetExprKind, SqlStatement, spec_expr_number_text,
    spec_expr_value_text, spec_table_factor_name,
};
use crate::numutil::{parse_u64, spec_parse_u64};
use crate::strutil::{spec_eq_ignore_case, str_eq_ignore_case};

verus! {

pub open spec fn spec_sel_query(stmt: SqlStatement) -> Option<SqlQuery> {
    match stmt {
        SqlStatement::Query(q) => Some(*q),
        _ => None,
    }
}

pub open spec fn spec_sel_select(query: SqlQuery) -> Option<SqlSelect> {
    match query.body {
        SetExprKind::Select(s) => Some(*s),
        _ => None,
    }
}

/// The right-hand literal text of a top-level `field = literal` equality,
/// matching the identifier without regard to ASCII case.
pub open spec fn spec_field_eq_top(e: SqlExpr, field: Seq<char>) -> Option<Seq<char>> {
    match e {
        SqlExpr::BinaryOp { op, left, right } => {
            if op != crate::ast::BinOp::Eq {
                None
            } else {
                match *left {
                    SqlExpr::Identifier(id) => {
                        if spec_eq_ignore_case(id@, field) {
                            spec_expr_value_text(*right)
                        } else {
                            None
                        }
                    },
                    _ => None,
                }
            }
        },
        _ => None,
    }
}

pub open spec fn spec_sel_key_value(e: Option<SqlExpr>) -> Option<Seq<char>> {
    match e {
        Some(x) => spec_field_eq_top(x, "key"@),
        None => None,
    }
}

pub open spec fn spec_sel_field_filter(e: Option<SqlExpr>, field: Seq<char>) -> Option<Seq<char>> {
    match e {
        Some(x) => spec_field_eq_top(x, field),
        None => None,
    }
}

pub open spec fn spec_sel_field_name(item: SqlSelectItem) -> Option<Seq<char>> {
    match item {
        SqlSelectItem::UnnamedExpr(SqlExpr::Identifier(id)) => Some(id@),
        _ => None,
    }
}

/// The bare-identifier names of a projection list, in order, dropping every
/// item of any other shape.
pub open spec fn spec_sel_field_names(items: Seq<SqlSelectItem>) -> Seq<Seq<char>>
    decreases items.len(),
{
    if items.len() == 0 {
        Seq::empty()
    } else {
        spec_sel_field_names(items.drop_last()) + (match spec_sel_field_name(items.last()) {
            Some(n) => seq![n],
            None => Seq::empty(),
        })
    }
}

pub open spec fn spec_sel_is_wildcard(item: SqlSelectItem) -> bool {
    item is Wildcard
}

pub open spec fn spec_sel_table_name(s: SqlSelect) -> Option<Seq<char>> {
    if s.from@.len() > 0 {
        spec_table_factor_name(s.from@[0].relation)
    } else {
        None
    }
}

pub open spec fn spec_sel_limit(q: SqlQuery) -> Option<u64> {
    match q.limit {
        Some(e) => match spec_expr_number_text(e) {
            Some(n) => spec_parse_u64(n),
            None => None,
        },
        None => None,
    }
}

/// A top-level `score <cmp> number` comparison, encoded as a Redis score
/// range: `>` and `<` give an exclusive bound prefixed with `(`, `>=` and
/// `<=` the bare number, and the unconstrained side is `-inf` or `+inf`.
pub open spec fn spec_score_range_top(e: SqlExpr) -> Option<(Seq<char>, Seq<char>)> {
    match e {
        SqlExpr::BinaryOp { op, left, right } => {
            match *left {
                SqlExpr::Identifier(id) => {
                    if !spec_eq_ignore_case(id@, "score"@) {
                        None
                    } else {
                        match spec_expr_number_text(*right) {
                            Some(n) => match op {
                                crate::ast::BinOp::Gt => Some(("("@ + n, "+inf"@)),
                                crate::ast::BinOp::GtEq => Some((n, "+inf"@)),
                                crate::ast::BinOp::Lt => Some(("-inf"@, "("@ + n)),
                                crate::ast::BinOp::LtEq => Some(("-inf"@, n)),
                                _ => None,
                            },
                            None => None,
                        }
                    }
                },
                _ => None,
            }
        },
        _ => None,
    }
}

pub open spec fn spec_sel_score_range(e: Option<SqlExpr>) -> Option<(Seq<char>, Seq<char>)> {
    match e {
        Some(x) => spec_score_range_top(x),
        None => None,
    }
}

/// True only when the first ORDER BY term is the identifier `score` with an
/// explicit descending direction.
pub open spec fn spec_order_by_score_desc(q: SqlQuery) -> bool {
    match q.order_by {
        Some(OrderByKind::Expressions(items)) => items@.len() > 0 && (match items@[0].expr {
            SqlExpr::Identifier(id) => spec_eq_ignore_case(id@, "score"@) && items@[0].asc == Some(
                false,
            ),
            _ => false,
        }),
        _ => false,
    }
}

/// Get the query from a statement, if it exists
pub fn sel_get_query(stmt: &SqlStatement) -> (r: Option<&SqlQuery>)
    ensures
        match (r, spec_sel_query(*stmt)) {
            (Some(a), Some(b)) => *a == b,
            (None, None) => true,
            _ => false,
        },
{
    match stmt {
        SqlStatement::Query(q) => Some(&**q),
        _ => None,
    }
}

/// Get the select from a query, if it exists
pub fn sel_get_select(query: &SqlQuery) -> (r: Option<&SqlSelect>)
    ensures
        match (r, spec_sel_select(*query)) {
            (Some(a), Some(b)) => *a == b,
            (None, None) => true,
            _ => false,
        },
{
    match &query.body {
        SetExprKind::Select(s) => Some(&**s),
        _ => None,
    }
}

/// Get the table name from a select statement, if it exists
pub fn sel_get_table_name(select: &SqlSelect) -> (r: Option<String>)
    ensures
        match (r, spec_sel_table_name(*select)) {
            (Some(a), Some(b)) => a@ == b,
            (None, None) => true,
            _ => false,
        },
{
    if select.from.len() == 0 {
        return None;
    }
    match &select.from[0].relation {
        crate::ast::SqlTableFactor::Table { name, .. } => {
            if name.len() > 0 {
                Some(name[0].clone())
            } else {
                None
            }
        },
        _ => None,
    }
}

/// The right-hand literal of a top-level `field = literal` equality.
pub fn field_eq_top(expr: &SqlExpr, field: &str) -> (r: Option<String>)
    ensures
        match (r, spec_field_eq_top(*expr, field@)) {
            (Some(a), Some(b)) => a@ == b,
            (None, None) => true,
            _ => false,
        },
{
    match expr {
        SqlExpr::BinaryOp { op, left, right } => {
            if *op != crate::ast::BinOp::Eq {
                return None;
            }
            match &**left {
                SqlExpr::Identifier(id) => {
                    if str_eq_ignore_case(id.as_str(), field) {
                        crate::ast::expr_value_text(&**right)
                    } else {
                        None
                    }
                },
                _ => None,
            }
        },
        _ => None,
    }
}

/// Get a "key" value from a binary expression where "key = value"
pub fn sel_get_key_value(expr: &Option<SqlExpr>) -> (r: Option<String>)
    ensures
        match (r, spec_sel_key_value(*expr)) {
            (Some(a), Some(b)) => a@ == b,
            (None, None) => true,
            _ => false,
        },
{
    match expr {
        Some(x) => field_eq_top(x, "key"),
        None => None,
    }
}

/// Get a field value from a binary expression with "field = value"
pub fn sel_get_field_filter(expr: &Option<SqlExpr>, field_name: &str) -> (r: Option<String>)
    ensures
        match (r, spec_sel_field_filter(*expr, field_name@)) {
            (Some(a), Some(b)) => a@ == b,
            (None, None) => true,
            _ => false,
        },
{
    match expr {
        Some(x) => field_eq_top(x, field_name),
        None => None,
    }
}

/// Get a field name from a SqlSelectItem, if it exists
pub fn sel_get_field_name(select_item: &SqlSelectItem) -> (r: Option<String>)
    ensures
        match (r, spec_sel_field_name(*select_item)) {
            (Some(a), Some(b)) => a@ == b,
            (None, None) => true,
            _ => false,
        },
{
    match select_item {
        SqlSelectItem::UnnamedExpr(SqlExpr::Identifier(id)) => Some(id.clone()),
        _ => None,
    }
}

/// Get multiple field names from a list of SelectItems
pub fn sel_get_field_names(select_items: &Vec<SqlSelectItem>) -> (r: Vec<String>)
    ensures
        r.deep_view() == spec_sel_field_names(select_items@),
{
    let mut out: Vec<String> = Vec::new();
    let mut i: usize = 0;
    while i < select_items.len()
        invariant
            i <= select_items@.len(),
            out.deep_view() == spec_sel_field_names(select_items@.subrange(0, i as int)),
        decreases select_items@.len() - i,
    {
        proof {
            assert(select_items@.subrange(0, i + 1).drop_last() =~= select_items@.subrange(
                0,
                i as int,
            ));
            assert(select_items@.subrange(0, i + 1).last() == select_items@[i as int]);
        }
        match sel_get_field_name(&select_items[i]) {
            Some(n) => {
                out.push(n);
            },
            None => {},
        }
        i += 1;
        assert(out.deep_view() =~= spec_sel_field_names(select_items@.subrange(0, i as int)));
    }
    proof {
        assert(select_items@.subrange(0, select_items@.len() as int) =~= select_items@);
    }
    out
}

/// Check if a SqlSelectItem is a wildcard (*) selector
pub fn sel_is_wildcard(select_item: &SqlSelectItem) -> (r: bool)
    ensures
        r == spec_sel_is_wildcard(*select_item),
{
    match select_item {
        SqlSelectItem::Wildcard => true,
        _ => false,
    }
}

/// Get the limit value from a query, if it exists
pub fn sel_get_limit(query: &SqlQuery) -> (r: Option<u64>)
    ensures
        r == spec_sel_limit(*query),
{
    match &query.limit {
        Some(e) => match crate::ast::expr_number_text(e) {
            Some(n) => parse_u64(n.as_str()),
            None => None,
        },
        None => None,
    }
}

/// Extract score comparison from a binary expression
pub fn sel_get_score_range(expr: &Option<SqlExpr>) -> (r: Option<(String, String)>)
    ensures
        match (r, spec_sel_score_range(*expr)) {
            (Some(a), Some(b)) => a.0@ == b.0 && a.1@ == b.1,
            (None, None) => true,
            _ => false,
        },
{
    match expr {
        Some(x) => score_range_top(x),
        None => None,
    }
}

/// A top-level `score <cmp> number` comparison as a Redis score range.
pub fn score_range_top(expr: &SqlExpr) -> (r: Option<(String, String)>)
    ensures
        match (r, spec_score_range_top(*expr)) {
            (Some(a), Some(b)) => a.0@ == b.0 && a.1@ == b.1,
            (None, None) => true,
            _ => false,
        },
{
    match expr {
        SqlExpr::BinaryOp { op, left, right } => {
            match &**left {
                SqlExpr::Identifier(id) => {
                    if !str_eq_ignore_case(id.as_str(), "score") {
                        return None;
                    }
                    let n = match crate::ast::expr_number_text(&**right) {
                        Some(n) => n,
                        None => { return None },
                    };
                    match op {
                        crate::ast::BinOp::Gt => Some((exclusive_bound(&n), "+inf".to_owned())),
                        crate::ast::BinOp::GtEq => Some((n, "+inf".to_owned())),
                        crate::ast::BinOp::Lt => Some(("-inf".to_owned(), exclusive_bound(&n))),
                        crate::ast::BinOp::LtEq => Some(("-inf".to_owned(), n)),
                        _ => None,
                    }
                },
                _ => None,
            }
        },
        _ => None,
    }
}

/// The exclusive-bound encoding of a score: the number prefixed with `(`.
fn exclusive_bound(n: &String) -> (r: String)
    ensures
        r@ == "("@ + n@,
{
    let mut s = String::from_str("(");
    s.append(n.as_str());
    s
}

/// Check if a SQL statement represents a query ordering by score in
/// descending order: the first ORDER BY term must be `score` and explicitly
/// descending.
pub fn sel_is_order_by_score_desc(query: &SqlQuery) -> (r: bool)
    ensures
        r == spec_order_by_score_desc(*query),
{
    match &query.order_by {
        Some(OrderByKind::Expressions(items)) => {
            if items.len() == 0 {
                return false;
            }
            match &items[0].expr {
                SqlExpr::Identifier(id) => {
                    if !str_eq_ignore_case(id.as_str(), "score") {
                        return false;
                    }
                    match items[0].asc {
                        Some(asc) => !asc,
                        None => false,
                    }
                },
                _ => false,
            }
        },
        _ => false,
    }
}

} // verus!
