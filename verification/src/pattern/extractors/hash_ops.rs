// Extraction for hash-table operations.

use vstd::prelude::*;

use crate::ast::SqlStatement;
use crate::ast::select::{spec_sel_field_name, spec_sel_field_names, spec_sel_key_value};
use crate::pattern::matchers::select::{
    spec_is_hash_get, spec_is_hash_getall, spec_is_hash_hmget, spec_stmt_select,
};

verus! {

/// Information extracted for a Redis HGETALL command
pub struct HashGetAllInfo {
    pub key: String,
}

/// Information extracted for a Redis HGET command
pub struct HashGetInfo {
    pub key: String,
    pub field: String,
}

/// Information extracted for a Redis HMGET command
pub struct HashMultiGetInfo {
    pub key: String,
    pub fields: Vec<String>,
}

pub open spec fn spec_extract_hash_getall(stmt: SqlStatement) -> Option<Seq<char>> {
    if spec_is_hash_getall(stmt) {
        spec_sel_key_value(spec_stmt_select(stmt).unwrap().selection)
    } else {
        None
    }
}

pub open spec fn spec_extract_hash_get(stmt: SqlStatement) -> Option<(Seq<char>, Seq<char>)> {
    if spec_is_hash_get(stmt) {
        let s = spec_stmt_select(stmt).unwrap();
        match spec_sel_key_value(s.selection) {
            Some(key) => Some((key, spec_sel_field_name(s.projection@[0]).unwrap())),
            None => None,
        }
    } else {
        None
    }
}

pub open spec fn spec_extract_hash_multi_get(stmt: SqlStatement) -> Option<(Seq<char>, Seq<Seq<char>>)> {
    if spec_is_hash_hmget(stmt) {
        let s = spec_stmt_select(stmt).unwrap();
        match spec_sel_key_value(s.selection) {
            Some(key) => Some((key, spec_sel_field_names(s.projection@))),
            None => None,
        }
    } else {
        None
    }
}

/// Extract data for a Redis HGETALL command
pub fn extract_hash_getall(stmt: &SqlStatement) -> (r: Option<HashGetAllInfo>)
    ensures
        match (r, spec_extract_hash_getall(*stmt)) {
            (Some(a), Some(b)) => a.key@ == b,
            (None, None) => true,
            _ => false,
        },
{
    if !crate::pattern::matchers::select::is_hash_getall(stmt) {
        return None;
    }
    let s = match crate::ast::sel_get_query(stmt) {
        Some(q) => match crate::ast::sel_get_select(q) {
            Some(s) => s,
            None => { return None },
        },
        None => { return None },
    };
    match crate::ast::sel_get_key_value(&s.selection) {
        Some(key) => Some(HashGetAllInfo { key }),
        None => None,
    }
}

/// Extract data for a Redis HGET command
pub fn extract_hash_get(stmt: &SqlStatement) -> (r: Option<HashGetInfo>)
    ensures
        match (r, spec_extract_hash_get(*stmt)) {
            (Some(a), Some(b)) => a.key@ == b.0 && a.field@ == b.1,
            (None, None) => true,
            _ => false,
        },
{
    if !crate::pattern::matchers::select::is_hash_get(stmt) {
        return None;
    }
    let s = match crate::ast::sel_get_query(stmt) {
        Some(q) => match crate::ast::sel_get_select(q) {
            Some(s) => s,
            None => { return None },
        },
        None => { return None },
    };
    let key = match crate::ast::sel_get_key_value(&s.selection) {
        Some(key) => key,
        None => { return None },
    };
    match crate::ast::sel_get_field_name(&s.projection[0]) {
        Some(field) => Some(HashGetInfo { key, field }),
        None => None,
    }
}

/// Extract data for a Redis HMGET command
pub fn extract_hash_multi_get(stmt: &SqlStatement) -> (r: Option<HashMultiGetInfo>)
    ensures
        match (r, spec_extract_hash_multi_get(*stmt)) {
            (Some(a), Some(b)) => a.key@ == b.0 && a.fields.deep_view() == b.1,
            (None, None) => true,
            _ => false,
        },
{
    if !crate::pattern::matchers::select::is_hash_hmget(stmt) {
        return None;
    }
    let s = match crate::ast::sel_get_query(stmt) {
        Some(q) => match crate::ast::sel_get_select(q) {
            Some(s) => s,
            None => { return None },
        },
        None => { return None },
    };
    let key = match crate::ast::sel_get_key_value(&s.selection) {
        Some(key) => key,
        None => { return None },
    };
    let fields = crate::ast::sel_get_field_names(&s.projection);
    Some(HashMultiGetInfo { key, fields })
}

} // verus!
