// Extraction for sorted-set-table operations, including the score-range
// encoding and its conjunction merge.

use vstd::prelude::*;

use crate::ast::delete::spec_field_condition;
use crate::ast::select::{spec_score_range_top, spec_sel_key_value};
use crate::ast::{BinOp, SqlExpr, SqlStatement};
use crate::pattern::extractors::list_ops::spec_has_from_table_with_suffix;
use crate::pattern::matchers::select::{
    spec_is_wildcard_select, spec_sel_has_order_by_score_desc, spec_sel_has_score_range,
    spec_sel_is_zset_table, spec_stmt_select,
};

verus! {

/// Information extracted for a Redis ZRANGEBYSCORE command (all elements)
pub struct ZSetGetAllInfo {
    pub key: String,
}

/// Information extracted for a Redis ZRANGEBYSCORE command with score range
pub struct ZSetScoreRangeInfo {
    pub key: String,
    pub min: String,
    pub max: String,
}

/// Information extracted for a Redis ZREVRANGEBYSCORE command
pub struct ZSetGetReversedInfo {
    pub key: String,
}

/// The score range of a condition tree: a single comparison encodes as in
/// `spec_score_range_top`; a conjunction takes the minimum bound from the
/// left result and the maximum bound from the right result. This merge is a
/// heuristic, not an interval intersection, and is preserved exactly.
pub open spec fn spec_score_range(e: SqlExpr) -> Option<(Seq<char>, Seq<char>)>
    decreases e,
{
    match e {
        SqlExpr::BinaryOp { op, left, right } => {
            match spec_score_range_top(e) {
                Some(r) => Some(r),
                None => {
                    if op == BinOp::And {
                        match (spec_score_range(*left), spec_score_range(*right)) {
                            (Some(a), Some(b)) => Some((a.0, b.1)),
                            (Some(a), None) => Some(a),
                            (None, Some(b)) => Some(b),
                            _ => None,
                        }
                    } else {
                        None
                    }
                },
            }
        },
        _ => None,
    }
}

/// Extract score ranges from complex expressions.
pub fn extract_score_range(expr: &SqlExpr) -> (r: Option<(String, String)>)
    ensures
        match (r, spec_score_range(*expr)) {
            (Some(a), Some(b)) => a.0@ == b.0 && a.1@ == b.1,
            (None, None) => true,
            _ => false,
        },
    decreases *expr,
{
    match expr {
        SqlExpr::BinaryOp { op, left, right } => {
            match crate::ast::select::score_range_top(expr) {
                Some(r) => Some(r),
                None => {
                    if *op == BinOp::And {
                        let left_range = extract_score_range(&**left);
                        let right_range = extract_score_range(&**right);
                        match (left_range, right_range) {
                            (Some(a), Some(b)) => Some((a.0, b.1)),
                            (Some(a), None) => Some(a),
                            (None, Some(b)) => Some(b),
                            _ => None,
                        }
                    } else {
                        None
                    }
                },
            }
        },
        _ => None,
    }
}

/// The shape the direct generator reads as a full-range ZRANGEBYSCORE: a
/// wildcard select on a sorted-set table with a top-level key equality and
/// no top-level score condition.
pub open spec fn spec_extract_zset_getall(stmt: SqlStatement) -> Option<Seq<char>> {
    if spec_is_wildcard_select(stmt) && spec_sel_is_zset_table(stmt) && !spec_sel_has_score_range(
        stmt,
    ) {
        spec_sel_key_value(spec_stmt_select(stmt).unwrap().selection)
    } else {
        None
    }
}

/// Extract data for a Redis ZRANGEBYSCORE command (all elements)
pub fn extract_zset_getall(stmt: &SqlStatement) -> (r: Option<ZSetGetAllInfo>)
    ensures
        match (r, spec_extract_zset_getall(*stmt)) {
            (Some(a), Some(b)) => a.key@ == b,
            (None, None) => true,
            _ => false,
        },
{
    if !crate::pattern::matchers::select::is_wildcard_select(stmt) {
        return None;
    }
    if !crate::pattern::matchers::select::is_zset_table(stmt) {
        return None;
    }
    if crate::pattern::matchers::select::has_score_range(stmt) {
        return None;
    }
    let s = match crate::ast::sel_get_query(stmt) {
        Some(q) => match crate::ast::sel_get_select(q) {
            Some(s) => s,
            None => { return None },
        },
        None => { return None },
    };
    match crate::ast::sel_get_key_value(&s.selection) {
        Some(key) => Some(ZSetGetAllInfo { key }),
        None => None,
    }
}

/// The key and score range of a SELECT on a sorted-set table whose WHERE
/// conjunction carries a key equality and a score comparison.
pub open spec fn spec_extract_zset_get_score_range(stmt: SqlStatement) -> Option<
    (Seq<char>, Seq<char>, Seq<char>),
> {
    if spec_has_from_table_with_suffix(stmt, "__zset"@) {
        match spec_stmt_select(stmt).unwrap().selection {
            Some(e) => match (spec_field_condition(e, "key"@), spec_score_range(e)) {
                (Some(k), Some(r)) => Some((k, r.0, r.1)),
                _ => None,
            },
            None => None,
        }
    } else {
        None
    }
}

/// Extract data for a Redis ZRANGEBYSCORE command with range
pub fn extract_zset_get_score_range(stmt: &SqlStatement) -> (r: Option<ZSetScoreRangeInfo>)
    ensures
        match (r, spec_extract_zset_get_score_range(*stmt)) {
            (Some(a), Some(b)) => a.key@ == b.0 && a.min@ == b.1 && a.max@ == b.2,
            (None, None) => true,
            _ => false,
        },
{
    if !crate::pattern::extractors::list_ops::has_from_table_with_suffix(stmt, "__zset") {
        return None;
    }
    let s = match crate::ast::sel_get_query(stmt) {
        Some(q) => match crate::ast::sel_get_select(q) {
            Some(s) => s,
            None => { return None },
        },
        None => { return None },
    };
    let e = match &s.selection {
        Some(e) => e,
        None => { return None },
    };
    let key = match crate::pattern::extractors::common::extract_key_from_condition(e) {
        Some(k) => k,
        None => { return None },
    };
    match extract_score_range(e) {
        Some((min, max)) => Some(ZSetScoreRangeInfo { key, min, max }),
        None => None,
    }
}

/// The reversed-scan shape as the generator reads it: a single-wildcard
/// SELECT on a sorted-set table whose first ORDER BY term is `score`
/// explicitly descending, with a top-level key equality. A LIMIT clause is
/// accepted here, unlike in the registry's reversed rule: the two dispatch
/// strategies diverge on a limited descending read, and the facade settles
/// that corner in the registry, before the generator is consulted.
pub open spec fn spec_extract_zset_get_reversed(stmt: SqlStatement) -> Option<Seq<char>> {
    if spec_is_wildcard_select(stmt) && spec_sel_is_zset_table(stmt)
        && spec_sel_has_order_by_score_desc(stmt) {
        spec_sel_key_value(spec_stmt_select(stmt).unwrap().selection)
    } else {
        None
    }
}

/// Extract data for a Redis ZREVRANGEBYSCORE command
pub fn extract_zset_get_reversed(stmt: &SqlStatement) -> (r: Option<ZSetGetReversedInfo>)
    ensures
        match (r, spec_extract_zset_get_reversed(*stmt)) {
            (Some(a), Some(b)) => a.key@ == b,
            (None, None) => true,
            _ => false,
        },
{
    if !crate::pattern::matchers::select::has_order_by_score_desc(stmt) {
        return None;
    }
    if !crate::pattern::matchers::select::is_wildcard_select(stmt) {
        return None;
    }
    if !crate::pattern::matchers::select::is_zset_table(stmt) {
        return None;
    }
    let s = match crate::ast::sel_get_query(stmt) {
        Some(q) => match crate::ast::sel_get_select(q) {
            Some(s) => s,
            None => { return None },
        },
        None => { return None },
    };
    match crate::ast::sel_get_key_value(&s.selection) {
        Some(key) => Some(ZSetGetReversedInfo { key }),
        None => None,
    }
}

} // verus!
