// Shape predicates for DELETE statements. The WHERE-clause predicates
// search conjunctions depth-first, left branch before right.

use vstd::prelude::*;

use crate::ast::delete::{spec_del_field_filter, spec_del_key_value, spec_del_table_name};
use crate::ast::SqlStatement;
use crate::pattern::matchers::common::{
    spec_is_hash_table_name, spec_is_list_table_name, spec_is_set_table_name,
    spec_is_string_table_name, spec_is_zset_table_name,
};

verus! {

pub open spec fn spec_is_delete(stmt: SqlStatement) -> bool {
    stmt is Delete
}

/// Check if statement is a DELETE statement
pub fn is_delete(stmt: &SqlStatement) -> (r: bool)
    ensures
        r == spec_is_delete(*stmt),
{
    match stmt {
        SqlStatement::Delete(_) => true,
        _ => false,
    }
}

pub open spec fn spec_del_is_hash_table(stmt: SqlStatement) -> bool {
    match spec_del_table_name(stmt) {
        Some(n) => spec_is_hash_table_name(n),
        None => false,
    }
}

pub open spec fn spec_del_is_list_table(stmt: SqlStatement) -> bool {
    match spec_del_table_name(stmt) {
        Some(n) => spec_is_list_table_name(n),
        None => false,
    }
}

pub open spec fn spec_del_is_set_table(stmt: SqlStatement) -> bool {
    match spec_del_table_name(stmt) {
        Some(n) => spec_is_set_table_name(n),
        None => false,
    }
}

pub open spec fn spec_del_is_zset_table(stmt: SqlStatement) -> bool {
    match spec_del_table_name(stmt) {
        Some(n) => spec_is_zset_table_name(n),
        None => false,
    }
}

pub open spec fn spec_del_is_string_table(stmt: SqlStatement) -> bool {
    match spec_del_table_name(stmt) {
        Some(n) => spec_is_string_table_name(n),
        None => false,
    }
}

/// Check if DELETE statement target is a hash table
pub fn is_hash_table(stmt: &SqlStatement) -> (r: bool)
    ensures
        r == spec_del_is_hash_table(*stmt),
{
    match crate::ast::delete::get_table_name(stmt) {
        Some(n) => crate::pattern::matchers::common::is_hash_table_name(n.as_str()),
        None => false,
    }
}

/// Check if DELETE statement target is a list table
pub fn is_list_table(stmt: &SqlStatement) -> (r: bool)
    ensures
        r == spec_del_is_list_table(*stmt),
{
    match crate::ast::delete::get_table_name(stmt) {
        Some(n) => crate::pattern::matchers::common::is_list_table_name(n.as_str()),
        None => false,
    }
}

/// Check if DELETE statement target is a set table
pub fn is_set_table(stmt: &SqlStatement) -> (r: bool)
    ensures
        r == spec_del_is_set_table(*stmt),
{
    match crate::ast::delete::get_table_name(stmt) {
        Some(n) => crate::pattern::matchers::common::is_set_table_name(n.as_str()),
        None => false,
    }
}

/// Check if DELETE statement target is a sorted set table
pub fn is_zset_table(stmt: &SqlStatement) -> (r: bool)
    ensures
        r == spec_del_is_zset_table(*stmt),
{
    match crate::ast::delete::get_table_name(stmt) {
        Some(n) => crate::pattern::matchers::common::is_zset_table_name(n.as_str()),
        None => false,
    }
}

/// Check if DELETE statement target is a string table (default)
pub fn is_string_table(stmt: &SqlStatement) -> (r: bool)
    ensures
        r == spec_del_is_string_table(*stmt),
{
    match crate::ast::delete::get_table_name(stmt) {
        Some(n) => crate::pattern::matchers::common::is_string_table_name(n.as_str()),
        None => false,
    }
}

pub open spec fn spec_del_has_key_equals(stmt: SqlStatement) -> bool {
    spec_del_key_value(stmt) is Some
}

/// Check if the DELETE statement has a key condition
pub fn has_key_equals(stmt: &SqlStatement) -> (r: bool)
    ensures
        r == spec_del_has_key_equals(*stmt),
{
    crate::ast::delete::get_key_value(stmt).is_some()
}

pub open spec fn spec_del_has_field_equals(stmt: SqlStatement, field: Seq<char>) -> bool {
    spec_del_field_filter(stmt, field) is Some
}

/// Check if the DELETE statement has a field condition
pub fn has_field_equals(stmt: &SqlStatement, field_name: &str) -> (r: bool)
    ensures
        r == spec_del_has_field_equals(*stmt, field_name@),
{
    crate::ast::delete::get_field_filter(stmt, field_name).is_some()
}

pub open spec fn spec_is_string_delete(stmt: SqlStatement) -> bool {
    spec_is_delete(stmt) && spec_del_is_string_table(stmt) && spec_del_has_key_equals(stmt)
}

/// `DELETE FROM <table> WHERE key = <key>`.
pub fn is_string_delete(stmt: &SqlStatement) -> (r: bool)
    ensures
        r == spec_is_string_delete(*stmt),
{
    is_delete(stmt) && is_string_table(stmt) && has_key_equals(stmt)
}

pub open spec fn spec_is_hash_delete(stmt: SqlStatement) -> bool {
    spec_is_delete(stmt) && spec_del_is_hash_table(stmt) && spec_del_has_key_equals(stmt)
        && !spec_del_has_field_equals(stmt, "field"@)
}

/// `DELETE FROM <table>__hash WHERE key = <key>`, with no field condition.
pub fn is_hash_delete(stmt: &SqlStatement) -> (r: bool)
    ensures
        r == spec_is_hash_delete(*stmt),
{
    is_delete(stmt) && is_hash_table(stmt) && has_key_equals(stmt) && !has_field_equals(
        stmt,
        "field",
    )
}

pub open spec fn spec_is_hash_delete_field(stmt: SqlStatement) -> bool {
    spec_is_delete(stmt) && spec_del_is_hash_table(stmt) && spec_del_has_key_equals(stmt)
        && spec_del_has_field_equals(stmt, "field"@)
}

/// `DELETE FROM <table>__hash WHERE key = <key> AND field = <field>`.
pub fn is_hash_delete_field(stmt: &SqlStatement) -> (r: bool)
    ensures
        r == spec_is_hash_delete_field(*stmt),
{
    is_delete(stmt) && is_hash_table(stmt) && has_key_equals(stmt) && has_field_equals(
        stmt,
        "field",
    )
}

pub open spec fn spec_is_list_delete(stmt: SqlStatement) -> bool {
    spec_is_delete(stmt) && spec_del_is_list_table(stmt) && spec_del_has_key_equals(stmt)
        && !spec_del_has_field_equals(stmt, "value"@)
}

/// `DELETE FROM <table>__list WHERE key = <key>`, with no value condition.
pub fn is_list_delete(stmt: &SqlStatement) -> (r: bool)
    ensures
        r == spec_is_list_delete(*stmt),
{
    is_delete(stmt) && is_list_table(stmt) && has_key_equals(stmt) && !has_field_equals(
        stmt,
        "value",
    )
}

pub open spec fn spec_is_list_delete_value(stmt: SqlStatement) -> bool {
    spec_is_delete(stmt) && spec_del_is_list_table(stmt) && spec_del_has_key_equals(stmt)
        && spec_del_has_field_equals(stmt, "value"@)
}

/// `DELETE FROM <table>__list WHERE key = <key> AND value = <value>`.
pub fn is_list_delete_value(stmt: &SqlStatement) -> (r: bool)
    ensures
        r == spec_is_list_delete_value(*stmt),
{
    is_delete(stmt) && is_list_table(stmt) && has_key_equals(stmt) && has_field_equals(
        stmt,
        "value",
    )
}

pub open spec fn spec_is_set_delete(stmt: SqlStatement) -> bool {
    spec_is_delete(stmt) && spec_del_is_set_table(stmt) && spec_del_has_key_equals(stmt)
        && !spec_del_has_field_equals(stmt, "member"@)
}

/// `DELETE FROM <table>__set WHERE key = <key>`, with no member condition.
pub fn is_set_delete(stmt: &SqlStatement) -> (r: bool)
    ensures
        r == spec_is_set_delete(*stmt),
{
    is_delete(stmt) && is_set_table(stmt) && has_key_equals(stmt) && !has_field_equals(
        stmt,
        "member",
    )
}

pub open spec fn spec_is_set_delete_member(stmt: SqlStatement) -> bool {
    spec_is_delete(stmt) && spec_del_is_set_table(stmt) && spec_del_has_key_equals(stmt)
        && spec_del_has_field_equals(stmt, "member"@)
}

/// `DELETE FROM <table>__set WHERE key = <key> AND member = <member>`.
pub fn is_set_delete_member(stmt: &SqlStatement) -> (r: bool)
    ensures
        r == spec_is_set_delete_member(*stmt),
{
    is_delete(stmt) && is_set_table(stmt) && has_key_equals(stmt) && has_field_equals(
        stmt,
        "member",
    )
}

pub open spec fn spec_is_zset_delete(stmt: SqlStatement) -> bool {
    spec_is_delete(stmt) && spec_del_is_zset_table(stmt) && spec_del_has_key_equals(stmt)
        && !spec_del_has_field_equals(stmt, "member"@)
}

/// `DELETE FROM <table>__zset WHERE key = <key>`, with no member condition.
pub fn is_zset_delete(stmt: &SqlStatement) -> (r: bool)
    ensures
        r == spec_is_zset_delete(*stmt),
{
    is_delete(stmt) && is_zset_table(stmt) && has_key_equals(stmt) && !has_field_equals(
        stmt,
        "member",
    )
}

pub open spec fn spec_is_zset_delete_member(stmt: SqlStatement) -> bool {
    spec_is_delete(stmt) && spec_del_is_zset_table(stmt) && spec_del_has_key_equals(stmt)
        && spec_del_has_field_equals(stmt, "member"@)
}

/// `DELETE FROM <table>__zset WHERE key = <key> AND member = <member>`.
pub fn is_zset_delete_member(stmt: &SqlStatement) -> (r: bool)
    ensures
        r == spec_is_zset_delete_member(*stmt),
{
    is_delete(stmt) && is_zset_table(stmt) && has_key_equals(stmt) && has_field_equals(
        stmt,
        "member",
    )
}

} // verus!
