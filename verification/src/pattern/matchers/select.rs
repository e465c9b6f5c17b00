// Shape predicates for SELECT statements. Each one tests a single aspect of
// the statement; the composite matchers below bind them into the shapes the
// rule registry dispatches on. The WHERE-clause predicates here look at the
// top-level condition only; statements whose WHERE is a conjunction are
// handled by the direct command generator.

use vstd::prelude::*;

use crate::ast::select::{
    spec_field_eq_top, spec_order_by_score_desc, spec_score_range_top, spec_sel_field_name,
    spec_sel_is_wildcard, spec_sel_limit, spec_sel_query, spec_sel_select, spec_sel_table_name,
};
use crate::ast::{SqlQuery, SqlSelect, SqlStatement};
use crate::pattern::matchers::common::{
    spec_is_hash_table_name, spec_is_list_table_name, spec_is_set_table_name,
    spec_is_string_table_name, spec_is_zset_table_name,
};

verus! {

/// The SELECT body of a statement, if it is a plain one.
pub open spec fn spec_stmt_select(stmt: SqlStatement) -> Option<SqlSelect> {
    match spec_sel_query(stmt) {
        Some(q) => spec_sel_select(q),
        None => None,
    }
}

pub open spec fn spec_is_wildcard_select(stmt: SqlStatement) -> bool {
    match spec_stmt_select(stmt) {
        Some(s) => s.projection@.len() == 1 && spec_sel_is_wildcard(s.projection@[0]),
        None => false,
    }
}

pub open spec fn spec_is_single_field_select(stmt: SqlStatement) -> bool {
    match spec_stmt_select(stmt) {
        Some(s) => s.projection@.len() == 1 && spec_sel_field_name(s.projection@[0]) is Some,
        None => false,
    }
}

pub open spec fn spec_is_multi_field_select(stmt: SqlStatement) -> bool {
    match spec_stmt_select(stmt) {
        Some(s) => s.projection@.len() > 1 && (forall|j: int|
            0 <= j < s.projection@.len() ==> spec_sel_field_name(
                #[trigger] s.projection@[j],
            ) is Some),
        None => false,
    }
}

pub open spec fn spec_sel_stmt_table_name(stmt: SqlStatement) -> Option<Seq<char>> {
    match spec_stmt_select(stmt) {
        Some(s) => spec_sel_table_name(s),
        None => None,
    }
}

pub open spec fn spec_sel_is_hash_table(stmt: SqlStatement) -> bool {
    match spec_sel_stmt_table_name(stmt) {
        Some(n) => spec_is_hash_table_name(n),
        None => false,
    }
}

pub open spec fn spec_sel_is_list_table(stmt: SqlStatement) -> bool {
    match spec_sel_stmt_table_name(stmt) {
        Some(n) => spec_is_list_table_name(n),
        None => false,
    }
}

pub open spec fn spec_sel_is_set_table(stmt: SqlStatement) -> bool {
    match spec_sel_stmt_table_name(stmt) {
        Some(n) => spec_is_set_table_name(n),
        None => false,
    }
}

pub open spec fn spec_sel_is_zset_table(stmt: SqlStatement) -> bool {
    match spec_sel_stmt_table_name(stmt) {
        Some(n) => spec_is_zset_table_name(n),
        None => false,
    }
}

pub open spec fn spec_sel_is_string_table(stmt: SqlStatement) -> bool {
    match spec_sel_stmt_table_name(stmt) {
        Some(n) => spec_is_string_table_name(n),
        None => false,
    }
}

pub open spec fn spec_sel_has_key_equals(stmt: SqlStatement) -> bool {
    match spec_stmt_select(stmt) {
        Some(s) => match s.selection {
            Some(e) => spec_field_eq_top(e, "key"@) is Some,
            None => false,
        },
        None => false,
    }
}

pub open spec fn spec_sel_has_field_equals(stmt: SqlStatement, field: Seq<char>) -> bool {
    match spec_stmt_select(stmt) {
        Some(s) => match s.selection {
            Some(e) => spec_field_eq_top(e, field) is Some,
            None => false,
        },
        None => false,
    }
}

pub open spec fn spec_sel_has_score_range(stmt: SqlStatement) -> bool {
    match spec_stmt_select(stmt) {
        Some(s) => match s.selection {
            Some(e) => spec_score_range_top(e) is Some,
            None => false,
        },
        None => false,
    }
}

pub open spec fn spec_sel_has_order_by_score_desc(stmt: SqlStatement) -> bool {
    match spec_sel_query(stmt) {
        Some(q) => spec_order_by_score_desc(q),
        None => false,
    }
}

pub open spec fn spec_sel_has_limit(stmt: SqlStatement) -> bool {
    match spec_sel_query(stmt) {
        Some(q) => q.limit is Some,
        None => false,
    }
}

fn stmt_select(stmt: &SqlStatement) -> (r: Option<&SqlSelect>)
    ensures
        match (r, spec_stmt_select(*stmt)) {
            (Some(a), Some(b)) => *a == b,
            (None, None) => true,
            _ => false,
        },
{
    match crate::ast::sel_get_query(stmt) {
        Some(q) => crate::ast::sel_get_select(q),
        None => None,
    }
}

fn stmt_table_name(stmt: &SqlStatement) -> (r: Option<String>)
    ensures
        match (r, spec_sel_stmt_table_name(*stmt)) {
            (Some(a), Some(b)) => a@ == b,
            (None, None) => true,
            _ => false,
        },
{
    match stmt_select(stmt) {
        Some(s) => crate::ast::sel_get_table_name(s),
        None => None,
    }
}

/// Check if the SELECT statement has a wildcard (*) projection
pub fn is_wildcard_select(stmt: &SqlStatement) -> (r: bool)
    ensures
        r == spec_is_wildcard_select(*stmt),
{
    match stmt_select(stmt) {
        Some(s) => s.projection.len() == 1 && crate::ast::sel_is_wildcard(&s.projection[0]),
        None => false,
    }
}

/// Check if the SELECT statement has a single field projection
pub fn is_single_field_select(stmt: &SqlStatement) -> (r: bool)
    ensures
        r == spec_is_single_field_select(*stmt),
{
    match stmt_select(stmt) {
        Some(s) => s.projection.len() == 1 && crate::ast::sel_get_field_name(
            &s.projection[0],
        ).is_some(),
        None => false,
    }
}

/// Check if the SELECT statement has multiple field projections, every one a
/// bare identifier.
pub fn is_multi_field_select(stmt: &SqlStatement) -> (r: bool)
    ensures
        r == spec_is_multi_field_select(*stmt),
{
    let s = match stmt_select(stmt) {
        Some(s) => s,
        None => { return false },
    };
    if s.projection.len() <= 1 {
        return false;
    }
    let mut i: usize = 0;
    while i < s.projection.len()
        invariant
            spec_stmt_select(*stmt) == Some(*s),
            s.projection@.len() > 1,
            i <= s.projection@.len(),
            forall|j: int|
                0 <= j < i ==> spec_sel_field_name(#[trigger] s.projection@[j]) is Some,
        decreases s.projection@.len() - i,
    {
        if crate::ast::sel_get_field_name(&s.projection[i]).is_none() {
            return false;
        }
        i += 1;
    }
    true
}

/// Check if the table name has a "__hash" suffix, indicating a Redis Hash
pub fn is_hash_table(stmt: &SqlStatement) -> (r: bool)
    ensures
        r == spec_sel_is_hash_table(*stmt),
{
    match stmt_table_name(stmt) {
        Some(n) => crate::pattern::matchers::common::is_hash_table_name(n.as_str()),
        None => false,
    }
}

/// Check if the table name has a "__list" suffix, indicating a Redis List
pub fn is_list_table(stmt: &SqlStatement) -> (r: bool)
    ensures
        r == spec_sel_is_list_table(*stmt),
{
    match stmt_table_name(stmt) {
        Some(n) => crate::pattern::matchers::common::is_list_table_name(n.as_str()),
        None => false,
    }
}

/// Check if the table name has a "__set" suffix, indicating a Redis Set
pub fn is_set_table(stmt: &SqlStatement) -> (r: bool)
    ensures
        r == spec_sel_is_set_table(*stmt),
{
    match stmt_table_name(stmt) {
        Some(n) => crate::pattern::matchers::common::is_set_table_name(n.as_str()),
        None => false,
    }
}

/// Check if the table name has a "__zset" suffix, indicating a Redis Sorted
/// Set
pub fn is_zset_table(stmt: &SqlStatement) -> (r: bool)
    ensures
        r == spec_sel_is_zset_table(*stmt),
{
    match stmt_table_name(stmt) {
        Some(n) => crate::pattern::matchers::common::is_zset_table_name(n.as_str()),
        None => false,
    }
}

/// Check if the table name has no special suffix, indicating a Redis String
pub fn is_string_table(stmt: &SqlStatement) -> (r: bool)
    ensures
        r == spec_sel_is_string_table(*stmt),
{
    match stmt_table_name(stmt) {
        Some(n) => crate::pattern::matchers::common::is_string_table_name(n.as_str()),
        None => false,
    }
}

/// Check if the WHERE clause is a top-level "key = value" condition
pub fn has_key_equals(stmt: &SqlStatement) -> (r: bool)
    ensures
        r == spec_sel_has_key_equals(*stmt),
{
    match stmt_select(stmt) {
        Some(s) => crate::ast::sel_get_key_value(&s.selection).is_some(),
        None => false,
    }
}

/// Check if the WHERE clause is a top-level "field = value" condition for a
/// specific field
pub fn has_field_equals(stmt: &SqlStatement, field_name: &str) -> (r: bool)
    ensures
        r == spec_sel_has_field_equals(*stmt, field_name@),
{
    match stmt_select(stmt) {
        Some(s) => crate::ast::sel_get_field_filter(&s.selection, field_name).is_some(),
        None => false,
    }
}

/// Check if the WHERE clause is a top-level score comparison for sorted sets
pub fn has_score_range(stmt: &SqlStatement) -> (r: bool)
    ensures
        r == spec_sel_has_score_range(*stmt),
{
    match stmt_select(stmt) {
        Some(s) => crate::ast::sel_get_score_range(&s.selection).is_some(),
        None => false,
    }
}

/// Check if the query has ORDER BY score DESC
pub fn has_order_by_score_desc(stmt: &SqlStatement) -> (r: bool)
    ensures
        r == spec_sel_has_order_by_score_desc(*stmt),
{
    match crate::ast::sel_get_query(stmt) {
        Some(q) => crate::ast::sel_is_order_by_score_desc(q),
        None => false,
    }
}

/// Check if the query has a LIMIT clause
pub fn has_limit(stmt: &SqlStatement) -> (r: bool)
    ensures
        r == spec_sel_has_limit(*stmt),
{
    match crate::ast::sel_get_query(stmt) {
        Some(q) => q.limit.is_some(),
        None => false,
    }
}

/// Get a parseable LIMIT value from a query.
pub fn query_has_limit(query: &SqlQuery) -> (r: Option<u64>)
    ensures
        r == spec_sel_limit(*query),
{
    crate::ast::sel_get_limit(query)
}

pub open spec fn spec_is_string_get(stmt: SqlStatement) -> bool {
    spec_is_wildcard_select(stmt) && spec_sel_is_string_table(stmt) && spec_sel_has_key_equals(
        stmt,
    )
}

/// `SELECT * FROM <table> WHERE key = <value>` on a string table.
pub fn is_string_get(stmt: &SqlStatement) -> (r: bool)
    ensures
        r == spec_is_string_get(*stmt),
{
    is_wildcard_select(stmt) && is_string_table(stmt) && has_key_equals(stmt)
}

pub open spec fn spec_is_hash_getall(stmt: SqlStatement) -> bool {
    spec_is_wildcard_select(stmt) && spec_sel_is_hash_table(stmt) && spec_sel_has_key_equals(stmt)
}

/// `SELECT * FROM <table>__hash WHERE key = <value>`.
pub fn is_hash_getall(stmt: &SqlStatement) -> (r: bool)
    ensures
        r == spec_is_hash_getall(*stmt),
{
    is_wildcard_select(stmt) && is_hash_table(stmt) && has_key_equals(stmt)
}

pub open spec fn spec_is_hash_get(stmt: SqlStatement) -> bool {
    spec_is_single_field_select(stmt) && spec_sel_is_hash_table(stmt) && spec_sel_has_key_equals(
        stmt,
    )
}

/// `SELECT <field> FROM <table>__hash WHERE key = <value>`.
pub fn is_hash_get(stmt: &SqlStatement) -> (r: bool)
    ensures
        r == spec_is_hash_get(*stmt),
{
    is_single_field_select(stmt) && is_hash_table(stmt) && has_key_equals(stmt)
}

pub open spec fn spec_is_hash_hmget(stmt: SqlStatement) -> bool {
    spec_is_multi_field_select(stmt) && spec_sel_is_hash_table(stmt) && spec_sel_has_key_equals(
        stmt,
    )
}

/// `SELECT <f1>, <f2>, ... FROM <table>__hash WHERE key = <value>`.
pub fn is_hash_hmget(stmt: &SqlStatement) -> (r: bool)
    ensures
        r == spec_is_hash_hmget(*stmt),
{
    is_multi_field_select(stmt) && is_hash_table(stmt) && has_key_equals(stmt)
}

pub open spec fn spec_is_list_getall(stmt: SqlStatement) -> bool {
    spec_is_wildcard_select(stmt) && spec_sel_is_list_table(stmt) && spec_sel_has_key_equals(stmt)
        && !spec_sel_has_field_equals(stmt, "index"@) && !spec_sel_has_limit(stmt)
}

/// `SELECT * FROM <table>__list WHERE key = <value>`, with no index
/// condition and no LIMIT: those shapes belong to the index and range rules.
pub fn is_list_getall(stmt: &SqlStatement) -> (r: bool)
    ensures
        r == spec_is_list_getall(*stmt),
{
    is_wildcard_select(stmt) && is_list_table(stmt) && has_key_equals(stmt) && !has_field_equals(
        stmt,
        "index",
    ) && !has_limit(stmt)
}

pub open spec fn spec_is_list_get_index(stmt: SqlStatement) -> bool {
    spec_is_wildcard_select(stmt) && spec_sel_is_list_table(stmt) && spec_sel_has_key_equals(stmt)
        && spec_sel_has_field_equals(stmt, "index"@)
}

/// `SELECT * FROM <table>__list WHERE key = <value> AND index = <n>`.
pub fn is_list_get_index(stmt: &SqlStatement) -> (r: bool)
    ensures
        r == spec_is_list_get_index(*stmt),
{
    is_wildcard_select(stmt) && is_list_table(stmt) && has_key_equals(stmt) && has_field_equals(
        stmt,
        "index",
    )
}

pub open spec fn spec_is_list_get_range(stmt: SqlStatement) -> bool {
    spec_is_wildcard_select(stmt) && spec_sel_is_list_table(stmt) && spec_sel_has_key_equals(stmt)
        && spec_sel_has_limit(stmt)
}

/// `SELECT * FROM <table>__list WHERE key = <value> LIMIT <n>`.
pub fn is_list_get_range(stmt: &SqlStatement) -> (r: bool)
    ensures
        r == spec_is_list_get_range(*stmt),
{
    is_wildcard_select(stmt) && is_list_table(stmt) && has_key_equals(stmt) && has_limit(stmt)
}

pub open spec fn spec_is_set_getall(stmt: SqlStatement) -> bool {
    spec_is_wildcard_select(stmt) && spec_sel_is_set_table(stmt) && spec_sel_has_key_equals(stmt)
        && !spec_sel_has_field_equals(stmt, "member"@)
}

/// `SELECT * FROM <table>__set WHERE key = <value>`, with no member
/// condition: that shape belongs to the membership rule.
pub fn is_set_getall(stmt: &SqlStatement) -> (r: bool)
    ensures
        r == spec_is_set_getall(*stmt),
{
    is_wildcard_select(stmt) && is_set_table(stmt) && has_key_equals(stmt) && !has_field_equals(
        stmt,
        "member",
    )
}

pub open spec fn spec_is_set_ismember(stmt: SqlStatement) -> bool {
    spec_is_wildcard_select(stmt) && spec_sel_is_set_table(stmt) && spec_sel_has_key_equals(stmt)
        && spec_sel_has_field_equals(stmt, "member"@)
}

/// `SELECT * FROM <table>__set WHERE key = <value> AND member = <member>`.
pub fn is_set_ismember(stmt: &SqlStatement) -> (r: bool)
    ensures
        r == spec_is_set_ismember(*stmt),
{
    is_wildcard_select(stmt) && is_set_table(stmt) && has_key_equals(stmt) && has_field_equals(
        stmt,
        "member",
    )
}

pub open spec fn spec_is_zset_getall(stmt: SqlStatement) -> bool {
    spec_is_wildcard_select(stmt) && spec_sel_is_zset_table(stmt) && spec_sel_has_key_equals(stmt)
        && !spec_sel_has_score_range(stmt) && !(spec_sel_has_order_by_score_desc(stmt)
        && !spec_sel_has_limit(stmt))
}

/// `SELECT * FROM <table>__zset WHERE key = <value>`: the absence of a score
/// condition is itself the match criterion. The full-range rule stands
/// aside for the reversed rule exactly where that rule applies — a
/// descending score order with no LIMIT — so a limited descending read
/// keeps the full-range scan. This is the registry's resolution of a shape
/// on which the two dispatch strategies diverge; see `is_zset_get_reversed`.
pub fn is_zset_getall(stmt: &SqlStatement) -> (r: bool)
    ensures
        r == spec_is_zset_getall(*stmt),
{
    is_wildcard_select(stmt) && is_zset_table(stmt) && has_key_equals(stmt) && !has_score_range(
        stmt,
    ) && !(has_order_by_score_desc(stmt) && !has_limit(stmt))
}

pub open spec fn spec_is_zset_get_score_range(stmt: SqlStatement) -> bool {
    spec_is_wildcard_select(stmt) && spec_sel_is_zset_table(stmt) && spec_sel_has_key_equals(stmt)
        && spec_sel_has_score_range(stmt)
}

/// `SELECT * FROM <table>__zset WHERE key = <value> AND score <cmp> <n>`.
pub fn is_zset_get_score_range(stmt: &SqlStatement) -> (r: bool)
    ensures
        r == spec_is_zset_get_score_range(*stmt),
{
    is_wildcard_select(stmt) && is_zset_table(stmt) && has_key_equals(stmt) && has_score_range(
        stmt,
    )
}

pub open spec fn spec_is_zset_get_reversed(stmt: SqlStatement) -> bool {
    spec_is_wildcard_select(stmt) && spec_sel_is_zset_table(stmt) && spec_sel_has_key_equals(stmt)
        && spec_sel_has_order_by_score_desc(stmt) && !spec_sel_has_limit(stmt)
}

/// `SELECT * FROM <table>__zset WHERE key = <value> ORDER BY score DESC`,
/// with no LIMIT. This rule predicate is deliberately narrower than the
/// direct generator's reversed shape (`extract_zset_get_reversed`), which
/// accepts a LIMIT clause: on a limited descending read the two strategies
/// would emit different commands, and the registry resolves that corner by
/// handing it to the full-range rule. Registry-first dispatch makes the
/// resolution effective; the generator keeps its own shape for callers
/// that use it directly.
pub fn is_zset_get_reversed(stmt: &SqlStatement) -> (r: bool)
    ensures
        r == spec_is_zset_get_reversed(*stmt),
{
    is_wildcard_select(stmt) && is_zset_table(stmt) && has_key_equals(stmt)
        && has_order_by_score_desc(stmt) && !has_limit(stmt)
}

pub open spec fn spec_is_string_get_value(stmt: SqlStatement) -> bool {
    match spec_stmt_select(stmt) {
        Some(s) => spec_sel_is_string_table(stmt) && s.projection@.len() == 1 && (
        match spec_sel_field_name(s.projection@[0]) {
            Some(n) => crate::strutil::spec_eq_ignore_case(n, "value"@),
            None => false,
        }) && spec_sel_has_key_equals(stmt),
        None => false,
    }
}

/// `SELECT value FROM <table> WHERE key = <value>` on a string table.
pub fn is_string_get_value(stmt: &SqlStatement) -> (r: bool)
    ensures
        r == spec_is_string_get_value(*stmt),
{
    let s = match stmt_select(stmt) {
        Some(s) => s,
        None => { return false },
    };
    if !is_string_table(stmt) {
        return false;
    }
    if s.projection.len() != 1 {
        return false;
    }
    let is_value_field = match crate::ast::sel_get_field_name(&s.projection[0]) {
        Some(n) => crate::strutil::str_eq_ignore_case(n.as_str(), "value"),
        None => false,
    };
    if !is_value_field {
        return false;
    }
    has_key_equals(stmt)
}

} // verus!
