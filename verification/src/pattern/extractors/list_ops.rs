// Extraction for list-table operations.

use vstd::prelude::*;

use crate::ast::delete::spec_field_condition;
use crate::ast::select::{spec_sel_key_value, spec_sel_limit};
use crate::ast::{BinOp, SqlExpr, LiteralValue, SqlStatement};
use crate::pattern::extractors::common::spec_is_table_type;
use crate::pattern::matchers::select::{
    spec_is_list_get_range, spec_is_wildcard_select, spec_sel_has_field_equals,
    spec_sel_is_list_table, spec_stmt_select,
};
use crate::strutil::{spec_eq_ignore_case, str_eq_ignore_case};

verus! {

/// Information extracted for a Redis LRANGE command (all elements)
pub struct ListGetAllInfo {
    pub key: String,
}

/// Information extracted for a Redis LINDEX command
pub struct ListIndexInfo {
    pub key: String,
    pub index: String,
}

/// Information extracted for a Redis LRANGE command with limit
pub struct ListGetRangeInfo {
    pub key: String,
    pub limit: u64,
}

/// The number of the leftmost `index = number` equality in a conjunction
/// tree; only numeric literals count.
pub open spec fn spec_list_index(e: SqlExpr) -> Option<Seq<char>>
    decreases e,
{
    match e {
        SqlExpr::BinaryOp { op, left, right } => {
            if op == BinOp::Eq && (match *left {
                SqlExpr::Identifier(id) => spec_eq_ignore_case(id@, "index"@),
                _ => false,
            }) {
                match *right {
                    SqlExpr::Value(LiteralValue::Number(n)) => Some(n@),
                    _ => None,
                }
            } else if op == BinOp::And {
                match spec_list_index(*left) {
                    Some(v) => Some(v),
                    None => spec_list_index(*right),
                }
            } else {
                None
            }
        },
        _ => None,
    }
}

/// Extract list index from expressions, searching conjunctions depth-first.
pub fn extract_list_index(expr: &SqlExpr) -> (r: Option<String>)
    ensures
        match (r, spec_list_index(*expr)) {
            (Some(a), Some(b)) => a@ == b,
            (None, None) => true,
            _ => false,
        },
    decreases *expr,
{
    match expr {
        SqlExpr::BinaryOp { op, left, right } => {
            let is_index_eq = *op == BinOp::Eq && (match &**left {
                SqlExpr::Identifier(id) => str_eq_ignore_case(id.as_str(), "index"),
                _ => false,
            });
            if is_index_eq {
                match &**right {
                    SqlExpr::Value(LiteralValue::Number(n)) => Some(n.clone()),
                    _ => None,
                }
            } else if *op == BinOp::And {
                match extract_list_index(&**left) {
                    Some(v) => Some(v),
                    None => extract_list_index(&**right),
                }
            } else {
                None
            }
        },
        _ => None,
    }
}

/// The shape the direct generator reads as LRANGE-all: a wildcard select on
/// a list table whose top-level condition is the key equality, with no
/// top-level index condition.
pub open spec fn spec_extract_list_getall(stmt: SqlStatement) -> Option<Seq<char>> {
    if spec_is_wildcard_select(stmt) && spec_sel_is_list_table(stmt) && !spec_sel_has_field_equals(
        stmt,
        "index"@,
    ) {
        spec_sel_key_value(spec_stmt_select(stmt).unwrap().selection)
    } else {
        None
    }
}

/// Extract data for a Redis LRANGE command (all elements)
pub fn extract_list_getall(stmt: &SqlStatement) -> (r: Option<ListGetAllInfo>)
    ensures
        match (r, spec_extract_list_getall(*stmt)) {
            (Some(a), Some(b)) => a.key@ == b,
            (None, None) => true,
            _ => false,
        },
{
    if !crate::pattern::matchers::select::is_wildcard_select(stmt) {
        return None;
    }
    if !crate::pattern::matchers::select::is_list_table(stmt) {
        return None;
    }
    if crate::pattern::matchers::select::has_field_equals(stmt, "index") {
        return None;
    }
    let s = match crate::ast::sel_get_query(stmt) {
        Some(q) => match crate::ast::sel_get_select(q) {
            Some(s) => s,
            None => { return None },
        },
        None => { return None },
    };
    match crate::ast::sel_get_key_value(&s.selection) {
        Some(key) => Some(ListGetAllInfo { key }),
        None => None,
    }
}

pub open spec fn spec_extract_list_get_range(stmt: SqlStatement) -> Option<(Seq<char>, u64)> {
    if spec_is_list_get_range(stmt) {
        let key = spec_sel_key_value(spec_stmt_select(stmt).unwrap().selection).unwrap();
        match stmt {
            SqlStatement::Query(q) => match spec_sel_limit(*q) {
                Some(limit) => Some((key, limit)),
                None => None,
            },
            _ => None,
        }
    } else {
        None
    }
}

/// Extract data for a Redis LRANGE command with limit
pub fn extract_list_get_range(stmt: &SqlStatement) -> (r: Option<ListGetRangeInfo>)
    ensures
        match (r, spec_extract_list_get_range(*stmt)) {
            (Some(a), Some(b)) => a.key@ == b.0 && a.limit == b.1,
            (None, None) => true,
            _ => false,
        },
{
    if !crate::pattern::matchers::select::is_list_get_range(stmt) {
        return None;
    }
    let s = match crate::ast::sel_get_query(stmt) {
        Some(q) => match crate::ast::sel_get_select(q) {
            Some(s) => s,
            None => { return None },
        },
        None => { return None },
    };
    let key = match crate::ast::sel_get_key_value(&s.selection) {
        Some(key) => key,
        None => { return None },
    };
    match stmt {
        SqlStatement::Query(query) => {
            match crate::pattern::matchers::select::query_has_limit(query) {
                Some(limit) => Some(ListGetRangeInfo { key, limit }),
                None => None,
            }
        },
        _ => None,
    }
}

/// Some FROM entry of a plain SELECT names a table with the given suffix.
pub open spec fn spec_has_from_table_with_suffix(stmt: SqlStatement, suffix: Seq<char>) -> bool {
    match spec_stmt_select(stmt) {
        Some(s) => exists|i: int|
            0 <= i < s.from@.len() && spec_is_table_type(#[trigger] s.from@[i].relation, suffix),
        None => false,
    }
}

/// The key and index of a SELECT on a list table whose WHERE conjunction
/// carries both a key and an index equality.
pub open spec fn spec_extract_list_get_index(stmt: SqlStatement) -> Option<(Seq<char>, Seq<char>)> {
    if spec_has_from_table_with_suffix(stmt, "__list"@) {
        match spec_stmt_select(stmt).unwrap().selection {
            Some(e) => match (spec_field_condition(e, "key"@), spec_list_index(e)) {
                (Some(k), Some(ix)) => Some((k, ix)),
                _ => None,
            },
            None => None,
        }
    } else {
        None
    }
}

/// Whether any FROM entry names a table with the given suffix.
pub fn has_from_table_with_suffix(stmt: &SqlStatement, suffix: &str) -> (r: bool)
    ensures
        r == spec_has_from_table_with_suffix(*stmt, suffix@),
{
    let s = match crate::ast::sel_get_query(stmt) {
        Some(q) => match crate::ast::sel_get_select(q) {
            Some(s) => s,
            None => { return false },
        },
        None => { return false },
    };
    let mut i: usize = 0;
    while i < s.from.len()
        invariant
            spec_stmt_select(*stmt) == Some(*s),
            i <= s.from@.len(),
            forall|j: int|
                0 <= j < i ==> !spec_is_table_type(#[trigger] s.from@[j].relation, suffix@),
        decreases s.from@.len() - i,
    {
        if crate::pattern::extractors::common::is_table_type(&s.from[i].relation, suffix) {
            return true;
        }
        i += 1;
    }
    false
}

/// Extract data for LINDEX command
pub fn extract_list_get_index(stmt: &SqlStatement) -> (r: Option<ListIndexInfo>)
    ensures
        match (r, spec_extract_list_get_index(*stmt)) {
            (Some(a), Some(b)) => a.key@ == b.0 && a.index@ == b.1,
            (None, None) => true,
            _ => false,
        },
{
    if !has_from_table_with_suffix(stmt, "__list") {
        return None;
    }
    let s = match crate::ast::sel_get_query(stmt) {
        Some(q) => match crate::ast::sel_get_select(q) {
            Some(s) => s,
            None => { return None },
        },
        None => { return None },
    };
    let e = match &s.selection {
        Some(e) => e,
        None => { return None },
    };
    let key = match crate::pattern::extractors::common::extract_key_from_condition(e) {
        Some(k) => k,
        None => { return None },
    };
    match extract_list_index(e) {
        Some(index) => Some(ListIndexInfo { key, index }),
        None => None,
    }
}

} // verus!
