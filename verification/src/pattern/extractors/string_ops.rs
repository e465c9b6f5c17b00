// Extraction for string-table operations.

use vstd::prelude::*;

use crate::ast::SqlStatement;
use crate::ast::select::spec_sel_key_value;
use crate::pattern::matchers::select::{spec_is_string_get, spec_stmt_select};

verus! {

/// Information extracted for a Redis GET command from a string table
pub struct StringGetInfo {
    pub key: String,
}

/// Information extracted for a Redis SET command
pub struct StringSetInfo {
    pub key: String,
    pub value: String,
}

/// The key of a wildcard SELECT on a string table with a top-level key
/// equality, and nothing otherwise.
pub open spec fn spec_extract_string_get(stmt: SqlStatement) -> Option<Seq<char>> {
    if spec_is_string_get(stmt) {
        spec_sel_key_value(spec_stmt_select(stmt).unwrap().selection)
    } else {
        None
    }
}

/// Extract data for a Redis GET command
pub fn extract_string_get(stmt: &SqlStatement) -> (r: Option<StringGetInfo>)
    ensures
        match (r, spec_extract_string_get(*stmt)) {
            (Some(a), Some(b)) => a.key@ == b,
            (None, None) => true,
            _ => false,
        },
{
    if !crate::pattern::matchers::select::is_string_get(stmt) {
        return None;
    }
    let s = match crate::ast::sel_get_query(stmt) {
        Some(q) => match crate::ast::sel_get_select(q) {
            Some(s) => s,
            None => { return None },
        },
        None => { return None },
    };
    match crate::ast::sel_get_key_value(&s.selection) {
        Some(key) => Some(StringGetInfo { key }),
        None => None,
    }
}

} // verus!
