// Extraction for set-table operations.

use vstd::prelude::*;

use crate::ast::delete::spec_field_condition;
use crate::ast::select::spec_sel_key_value;
use crate::ast::{BinOp, SqlExpr, LiteralValue, SqlStatement};
use crate::pattern::extractors::list_ops::spec_has_from_table_with_suffix;
use crate::pattern::matchers::select::{
    spec_is_wildcard_select, spec_sel_has_field_equals, spec_sel_is_set_table, spec_stmt_select,
};
use crate::strutil::{spec_eq_ignore_case, str_eq_ignore_case};

verus! {

/// Information extracted for a Redis SMEMBERS command
pub struct SetGetAllInfo {
    pub key: String,
}

/// Information extracted for a Redis SISMEMBER command
pub struct SetMemberInfo {
    pub key: String,
    pub member: String,
}

/// The string of the leftmost `member = string` equality in a conjunction
/// tree; only quoted string literals count.
pub open spec fn spec_set_member(e: SqlExpr) -> Option<Seq<char>>
    decreases e,
{
    match e {
        SqlExpr::BinaryOp { op, left, right } => {
            if op == BinOp::Eq && (match *left {
                SqlExpr::Identifier(id) => spec_eq_ignore_case(id@, "member"@),
                _ => false,
            }) {
                match *right {
                    SqlExpr::Value(LiteralValue::SingleQuoted(s)) => Some(s@),
                    SqlExpr::Value(LiteralValue::DoubleQuoted(s)) => Some(s@),
                    _ => None,
                }
            } else if op == BinOp::And {
                match spec_set_member(*left) {
                    Some(v) => Some(v),
                    None => spec_set_member(*right),
                }
            } else {
                None
            }
        },
        _ => None,
    }
}

/// Extract set member from expressions, searching conjunctions depth-first.
pub fn extract_set_member(expr: &SqlExpr) -> (r: Option<String>)
    ensures
        match (r, spec_set_member(*expr)) {
            (Some(a), Some(b)) => a@ == b,
            (None, None) => true,
            _ => false,
        },
    decreases *expr,
{
    match expr {
        SqlExpr::BinaryOp { op, left, right } => {
            let is_member_eq = *op == BinOp::Eq && (match &**left {
                SqlExpr::Identifier(id) => str_eq_ignore_case(id.as_str(), "member"),
                _ => false,
            });
            if is_member_eq {
                match &**right {
                    SqlExpr::Value(LiteralValue::SingleQuoted(s)) => Some(s.clone()),
                    SqlExpr::Value(LiteralValue::DoubleQuoted(s)) => Some(s.clone()),
                    _ => None,
                }
            } else if *op == BinOp::And {
                match extract_set_member(&**left) {
                    Some(v) => Some(v),
                    None => extract_set_member(&**right),
                }
            } else {
                None
            }
        },
        _ => None,
    }
}

/// The shape the direct generator reads as SMEMBERS: a wildcard select on a
/// set table whose top-level condition is the key equality, with no
/// top-level member condition.
pub open spec fn spec_extract_set_getall(stmt: SqlStatement) -> Option<Seq<char>> {
    if spec_is_wildcard_select(stmt) && spec_sel_is_set_table(stmt) && !spec_sel_has_field_equals(
        stmt,
        "member"@,
    ) {
        spec_sel_key_value(spec_stmt_select(stmt).unwrap().selection)
    } else {
        None
    }
}

/// Extract data for a Redis SMEMBERS command
pub fn extract_set_getall(stmt: &SqlStatement) -> (r: Option<SetGetAllInfo>)
    ensures
        match (r, spec_extract_set_getall(*stmt)) {
            (Some(a), Some(b)) => a.key@ == b,
            (None, None) => true,
            _ => false,
        },
{
    if !crate::pattern::matchers::select::is_wildcard_select(stmt) {
        return None;
    }
    if !crate::pattern::matchers::select::is_set_table(stmt) {
        return None;
    }
    if crate::pattern::matchers::select::has_field_equals(stmt, "member") {
        return None;
    }
    let s = match crate::ast::sel_get_query(stmt) {
        Some(q) => match crate::ast::sel_get_select(q) {
            Some(s) => s,
            None => { return None },
        },
        None => { return None },
    };
    match crate::ast::sel_get_key_value(&s.selection) {
        Some(key) => Some(SetGetAllInfo { key }),
        None => None,
    }
}

/// The key and member of a SELECT on a set table whose WHERE conjunction
/// carries both a key and a member equality.
pub open spec fn spec_extract_set_ismember(stmt: SqlStatement) -> Option<(Seq<char>, Seq<char>)> {
    if spec_has_from_table_with_suffix(stmt, "__set"@) {
        match spec_stmt_select(stmt).unwrap().selection {
            Some(e) => match (spec_field_condition(e, "key"@), spec_set_member(e)) {
                (Some(k), Some(m)) => Some((k, m)),
                _ => None,
            },
            None => None,
        }
    } else {
        None
    }
}

/// Extract data for a Redis SISMEMBER command
pub fn extract_set_ismember(stmt: &SqlStatement) -> (r: Option<SetMemberInfo>)
    ensures
        match (r, spec_extract_set_ismember(*stmt)) {
            (Some(a), Some(b)) => a.key@ == b.0 && a.member@ == b.1,
            (None, None) => true,
            _ => false,
        },
{
    if !crate::pattern::extractors::list_ops::has_from_table_with_suffix(stmt, "__set") {
        return None;
    }
    let s = match crate::ast::sel_get_query(stmt) {
        Some(q) => match crate::ast::sel_get_select(q) {
            Some(s) => s,
            None => { return None },
        },
        None => { return None },
    };
    let e = match &s.selection {
        Some(e) => e,
        None => { return None },
    };
    let key = match crate::pattern::extractors::common::extract_key_from_condition(e) {
        Some(k) => k,
        None => { return None },
    };
    match extract_set_member(e) {
        Some(member) => Some(SetMemberInfo { key, member }),
        None => None,
    }
}

} // verus!
