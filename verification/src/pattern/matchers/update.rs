// Shape predicates for UPDATE statements. The WHERE-clause predicates
// search conjunctions depth-first, like the DELETE family.

use vstd::prelude::*;

use crate::ast::insert::spec_pairs_get;
use crate::ast::update::{
    spec_upd_assignments, spec_upd_field_filter, spec_upd_key_value, spec_upd_table_name,
};
use crate::ast::SqlStatement;
use crate::pattern::matchers::common::{
    spec_is_hash_table_name, spec_is_list_table_name, spec_is_set_table_name,
    spec_is_string_table_name, spec_is_zset_table_name,
};

verus! {

pub open spec fn spec_is_update(stmt: SqlStatement) -> bool {
    stmt is Update
}

/// Check if statement is an UPDATE statement
pub fn is_update(stmt: &SqlStatement) -> (r: bool)
    ensures
        r == spec_is_update(*stmt),
{
    match stmt {
        SqlStatement::Update(_) => true,
        _ => false,
    }
}

pub open spec fn spec_upd_is_hash_table(stmt: SqlStatement) -> bool {
    match spec_upd_table_name(stmt) {
        Some(n) => spec_is_hash_table_name(n),
        None => false,
    }
}

pub open spec fn spec_upd_is_list_table(stmt: SqlStatement) -> bool {
    match spec_upd_table_name(stmt) {
        Some(n) => spec_is_list_table_name(n),
        None => false,
    }
}

pub open spec fn spec_upd_is_set_table(stmt: SqlStatement) -> bool {
    match spec_upd_table_name(stmt) {
        Some(n) => spec_is_set_table_name(n),
        None => false,
    }
}

pub open spec fn spec_upd_is_zset_table(stmt: SqlStatement) -> bool {
    match spec_upd_table_name(stmt) {
        Some(n) => spec_is_zset_table_name(n),
        None => false,
    }
}

pub open spec fn spec_upd_is_string_table(stmt: SqlStatement) -> bool {
    match spec_upd_table_name(stmt) {
        Some(n) => spec_is_string_table_name(n),
        None => false,
    }
}

/// Check if UPDATE statement target is a hash table
pub fn is_hash_table(stmt: &SqlStatement) -> (r: bool)
    ensures
        r == spec_upd_is_hash_table(*stmt),
{
    match crate::ast::upd_get_table_name(stmt) {
        Some(n) => crate::pattern::matchers::common::is_hash_table_name(n.as_str()),
        None => false,
    }
}

/// Check if UPDATE statement target is a list table
pub fn is_list_table(stmt: &SqlStatement) -> (r: bool)
    ensures
        r == spec_upd_is_list_table(*stmt),
{
    match crate::ast::upd_get_table_name(stmt) {
        Some(n) => crate::pattern::matchers::common::is_list_table_name(n.as_str()),
        None => false,
    }
}

/// Check if UPDATE statement target is a set table
pub fn is_set_table(stmt: &SqlStatement) -> (r: bool)
    ensures
        r == spec_upd_is_set_table(*stmt),
{
    match crate::ast::upd_get_table_name(stmt) {
        Some(n) => crate::pattern::matchers::common::is_set_table_name(n.as_str()),
        None => false,
    }
}

/// Check if UPDATE statement target is a sorted set table
pub fn is_zset_table(stmt: &SqlStatement) -> (r: bool)
    ensures
        r == spec_upd_is_zset_table(*stmt),
{
    match crate::ast::upd_get_table_name(stmt) {
        Some(n) => crate::pattern::matchers::common::is_zset_table_name(n.as_str()),
        None => false,
    }
}

/// Check if UPDATE statement target is a string table (default)
pub fn is_string_table(stmt: &SqlStatement) -> (r: bool)
    ensures
        r == spec_upd_is_string_table(*stmt),
{
    match crate::ast::upd_get_table_name(stmt) {
        Some(n) => crate::pattern::matchers::common::is_string_table_name(n.as_str()),
        None => false,
    }
}

pub open spec fn spec_upd_has_key_equals(stmt: SqlStatement) -> bool {
    spec_upd_key_value(stmt) is Some
}

/// Check if the UPDATE statement has a key condition
pub fn has_key_equals(stmt: &SqlStatement) -> (r: bool)
    ensures
        r == spec_upd_has_key_equals(*stmt),
{
    crate::ast::upd_get_key_value(stmt).is_some()
}

pub open spec fn spec_upd_has_field_equals(stmt: SqlStatement, field: Seq<char>) -> bool {
    spec_upd_field_filter(stmt, field) is Some
}

/// Check if the UPDATE statement has a field condition
pub fn has_field_equals(stmt: &SqlStatement, field_name: &str) -> (r: bool)
    ensures
        r == spec_upd_has_field_equals(*stmt, field_name@),
{
    crate::ast::upd_get_field_filter(stmt, field_name).is_some()
}

pub open spec fn spec_upd_has_assignment(stmt: SqlStatement, field: Seq<char>) -> bool {
    match spec_upd_assignments(stmt) {
        Some(pairs) => spec_pairs_get(pairs, field) is Some,
        None => false,
    }
}

/// Check if the UPDATE statement has a SET assignment for a specific field
pub fn has_assignment(stmt: &SqlStatement, field_name: &str) -> (r: bool)
    ensures
        r == spec_upd_has_assignment(*stmt, field_name@),
{
    match crate::ast::upd_get_assignments(stmt) {
        Some(assignments) => crate::ast::insert::pairs_get(&assignments, field_name).is_some(),
        None => false,
    }
}

pub open spec fn spec_is_string_update(stmt: SqlStatement) -> bool {
    spec_is_update(stmt) && spec_upd_is_string_table(stmt) && spec_upd_has_key_equals(stmt)
        && spec_upd_has_assignment(stmt, "value"@)
}

/// `UPDATE <table> SET value = <v> WHERE key = <key>`.
pub fn is_string_update(stmt: &SqlStatement) -> (r: bool)
    ensures
        r == spec_is_string_update(*stmt),
{
    is_update(stmt) && is_string_table(stmt) && has_key_equals(stmt) && has_assignment(
        stmt,
        "value",
    )
}

pub open spec fn spec_is_hash_update(stmt: SqlStatement) -> bool {
    spec_is_update(stmt) && spec_upd_is_hash_table(stmt) && spec_upd_has_key_equals(stmt)
        && spec_upd_assignments(stmt) is Some
}

/// `UPDATE <table>__hash SET <f1> = <v1>, ... WHERE key = <key>`.
pub fn is_hash_update(stmt: &SqlStatement) -> (r: bool)
    ensures
        r == spec_is_hash_update(*stmt),
{
    is_update(stmt) && is_hash_table(stmt) && has_key_equals(stmt)
        && crate::ast::upd_get_assignments(stmt).is_some()
}

pub open spec fn spec_is_list_update(stmt: SqlStatement) -> bool {
    spec_is_update(stmt) && spec_upd_is_list_table(stmt) && spec_upd_has_key_equals(stmt)
        && spec_upd_has_field_equals(stmt, "index"@) && spec_upd_has_assignment(stmt, "value"@)
}

/// `UPDATE <table>__list SET value = <v> WHERE key = <key> AND index = <n>`.
pub fn is_list_update(stmt: &SqlStatement) -> (r: bool)
    ensures
        r == spec_is_list_update(*stmt),
{
    is_update(stmt) && is_list_table(stmt) && has_key_equals(stmt) && has_field_equals(
        stmt,
        "index",
    ) && has_assignment(stmt, "value")
}

pub open spec fn spec_is_zset_update(stmt: SqlStatement) -> bool {
    spec_is_update(stmt) && spec_upd_is_zset_table(stmt) && spec_upd_has_key_equals(stmt)
        && spec_upd_has_field_equals(stmt, "member"@) && spec_upd_has_assignment(stmt, "score"@)
}

/// `UPDATE <table>__zset SET score = <s> WHERE key = <key> AND member = <m>`.
pub fn is_zset_update(stmt: &SqlStatement) -> (r: bool)
    ensures
        r == spec_is_zset_update(*stmt),
{
    is_update(stmt) && is_zset_table(stmt) && has_key_equals(stmt) && has_field_equals(
        stmt,
        "member",
    ) && has_assignment(stmt, "score")
}

} // verus!
