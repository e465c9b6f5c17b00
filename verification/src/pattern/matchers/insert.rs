// Shape predicates for INSERT statements.

use vstd::prelude::*;

use crate::ast::insert::{spec_ins_columns, spec_ins_table_name};
use crate::ast::{SetExprKind, SqlStatement};
use crate::pattern::matchers::common::{
    spec_is_hash_table_name, spec_is_list_table_name, spec_is_set_table_name,
    spec_is_string_table_name, spec_is_zset_table_name,
};
use crate::strutil::{spec_eq_ignore_case, str_eq_ignore_case};

verus! {

pub open spec fn spec_is_insert(stmt: SqlStatement) -> bool {
    stmt is Insert
}

/// Check if statement is an INSERT statement
pub fn is_insert(stmt: &SqlStatement) -> (r: bool)
    ensures
        r == spec_is_insert(*stmt),
{
    match stmt {
        SqlStatement::Insert(_) => true,
        _ => false,
    }
}

/// Get the table name from an INSERT statement
pub fn get_table_name(stmt: &SqlStatement) -> (r: Option<String>)
    ensures
        match (r, spec_ins_table_name(*stmt)) {
            (Some(a), Some(b)) => a@ == b,
            (None, None) => true,
            _ => false,
        },
{
    crate::ast::ins_get_table_name(stmt)
}

pub open spec fn spec_ins_is_hash_table(stmt: SqlStatement) -> bool {
    match spec_ins_table_name(stmt) {
        Some(n) => spec_is_hash_table_name(n),
        None => false,
    }
}

pub open spec fn spec_ins_is_list_table(stmt: SqlStatement) -> bool {
    match spec_ins_table_name(stmt) {
        Some(n) => spec_is_list_table_name(n),
        None => false,
    }
}

pub open spec fn spec_ins_is_set_table(stmt: SqlStatement) -> bool {
    match spec_ins_table_name(stmt) {
        Some(n) => spec_is_set_table_name(n),
        None => false,
    }
}

pub open spec fn spec_ins_is_zset_table(stmt: SqlStatement) -> bool {
    match spec_ins_table_name(stmt) {
        Some(n) => spec_is_zset_table_name(n),
        None => false,
    }
}

pub open spec fn spec_ins_is_string_table(stmt: SqlStatement) -> bool {
    match spec_ins_table_name(stmt) {
        Some(n) => spec_is_string_table_name(n),
        None => false,
    }
}

/// Check if INSERT statement target is a hash table
pub fn is_hash_table(stmt: &SqlStatement) -> (r: bool)
    ensures
        r == spec_ins_is_hash_table(*stmt),
{
    match get_table_name(stmt) {
        Some(n) => crate::pattern::matchers::common::is_hash_table_name(n.as_str()),
        None => false,
    }
}

/// Check if INSERT statement target is a list table
pub fn is_list_table(stmt: &SqlStatement) -> (r: bool)
    ensures
        r == spec_ins_is_list_table(*stmt),
{
    match get_table_name(stmt) {
        Some(n) => crate::pattern::matchers::common::is_list_table_name(n.as_str()),
        None => false,
    }
}

/// Check if INSERT statement target is a set table
pub fn is_set_table(stmt: &SqlStatement) -> (r: bool)
    ensures
        r == spec_ins_is_set_table(*stmt),
{
    match get_table_name(stmt) {
        Some(n) => crate::pattern::matchers::common::is_set_table_name(n.as_str()),
        None => false,
    }
}

/// Check if INSERT statement target is a sorted set table
pub fn is_zset_table(stmt: &SqlStatement) -> (r: bool)
    ensures
        r == spec_ins_is_zset_table(*stmt),
{
    match get_table_name(stmt) {
        Some(n) => crate::pattern::matchers::common::is_zset_table_name(n.as_str()),
        None => false,
    }
}

/// Check if INSERT statement target is a string table (default)
pub fn is_string_table(stmt: &SqlStatement) -> (r: bool)
    ensures
        r == spec_ins_is_string_table(*stmt),
{
    match get_table_name(stmt) {
        Some(n) => crate::pattern::matchers::common::is_string_table_name(n.as_str()),
        None => false,
    }
}

/// One required name occurs in the column list, compared without regard to
/// ASCII case.
pub open spec fn spec_column_present(cols: Seq<Seq<char>>, req: Seq<char>) -> bool {
    exists|j: int| 0 <= j < cols.len() && spec_eq_ignore_case(#[trigger] cols[j], req)
}

pub open spec fn spec_has_columns(stmt: SqlStatement, req: Seq<Seq<char>>) -> bool {
    match spec_ins_columns(stmt) {
        Some(cols) => forall|i: int|
            0 <= i < req.len() ==> spec_column_present(cols, #[trigger] req[i]),
        None => stmt is Insert && req.len() == 0,
    }
}

fn column_present(cols: &Vec<String>, req: &str) -> (r: bool)
    ensures
        r == spec_column_present(cols.deep_view(), req@),
{
    let mut j: usize = 0;
    while j < cols.len()
        invariant
            j <= cols@.len(),
            forall|k: int|
                0 <= k < j ==> !spec_eq_ignore_case(#[trigger] cols.deep_view()[k], req@),
        decreases cols@.len() - j,
    {
        if str_eq_ignore_case(cols[j].as_str(), req) {
            assert(spec_eq_ignore_case(cols.deep_view()[j as int], req@));
            return true;
        }
        j += 1;
    }
    false
}

/// Check if the INSERT statement has the required columns, ignoring ASCII
/// case.
pub fn has_columns(stmt: &SqlStatement, required_columns: &[&str]) -> (r: bool)
    ensures
        r == spec_has_columns(*stmt, required_columns.deep_view()),
{
    let cols = match stmt {
        SqlStatement::Insert(_) => match crate::ast::ins_get_column_names(stmt) {
            Some(c) => c,
            None => { return required_columns.len() == 0 },
        },
        _ => { return false },
    };
    let mut i: usize = 0;
    while i < required_columns.len()
        invariant
            spec_ins_columns(*stmt) == Some(cols.deep_view()),
            i <= required_columns@.len(),
            forall|k: int|
                0 <= k < i ==> spec_column_present(
                    cols.deep_view(),
                    #[trigger] required_columns.deep_view()[k],
                ),
        decreases required_columns@.len() - i,
    {
        if !column_present(&cols, required_columns[i]) {
            proof {
                assert(required_columns.deep_view()[i as int] == required_columns@[i as int]@);
            }
            return false;
        }
        i += 1;
    }
    true
}

pub open spec fn spec_has_exact_columns(stmt: SqlStatement, req: Seq<Seq<char>>) -> bool {
    match stmt {
        SqlStatement::Insert(ins) => ins.columns@.len() == req.len() && spec_has_columns(stmt, req),
        _ => false,
    }
}

/// Check if the INSERT statement has exactly the specified columns
pub fn has_exact_columns(stmt: &SqlStatement, required_columns: &[&str]) -> (r: bool)
    ensures
        r == spec_has_exact_columns(*stmt, required_columns.deep_view()),
{
    match stmt {
        SqlStatement::Insert(ins) => {
            if ins.columns.len() != required_columns.len() {
                return false;
            }
            has_columns(stmt, required_columns)
        },
        _ => false,
    }
}

pub open spec fn spec_has_values(stmt: SqlStatement) -> bool {
    match stmt {
        SqlStatement::Insert(ins) => match ins.source {
            Some(q) => match (*q).body {
                SetExprKind::Values(rows) => rows@.len() > 0,
                _ => false,
            },
            None => false,
        },
        _ => false,
    }
}

/// Check if the INSERT statement has a non-empty VALUES clause
pub fn has_values(stmt: &SqlStatement) -> (r: bool)
    ensures
        r == spec_has_values(*stmt),
{
    match stmt {
        SqlStatement::Insert(ins) => match &ins.source {
            Some(q) => match &q.body {
                SetExprKind::Values(rows) => rows.len() > 0,
                _ => false,
            },
            None => false,
        },
        _ => false,
    }
}

pub open spec fn spec_is_string_set(stmt: SqlStatement) -> bool {
    spec_is_insert(stmt) && spec_ins_is_string_table(stmt) && spec_has_exact_columns(
        stmt,
        seq!["key"@, "value"@],
    ) && spec_has_values(stmt)
}

/// `INSERT INTO <table> (key, value) VALUES (<key>, <value>)`.
pub fn is_string_set(stmt: &SqlStatement) -> (r: bool)
    ensures
        r == spec_is_string_set(*stmt),
{
    let req: [&str; 2] = ["key", "value"];
    let r = is_insert(stmt) && is_string_table(stmt) && has_exact_columns(stmt, req.as_slice())
        && has_values(stmt);
    proof {
        assert(req.deep_view() =~= seq!["key"@, "value"@]);
    }
    r
}

pub open spec fn spec_is_hash_set(stmt: SqlStatement) -> bool {
    spec_is_insert(stmt) && spec_ins_is_hash_table(stmt) && spec_has_columns(stmt, seq!["key"@])
        && spec_has_values(stmt)
}

/// `INSERT INTO <table>__hash (key, <f1>, ...) VALUES (<key>, <v1>, ...)`.
pub fn is_hash_set(stmt: &SqlStatement) -> (r: bool)
    ensures
        r == spec_is_hash_set(*stmt),
{
    let req: [&str; 1] = ["key"];
    let r = is_insert(stmt) && is_hash_table(stmt) && has_columns(stmt, req.as_slice())
        && has_values(stmt);
    proof {
        assert(req.deep_view() =~= seq!["key"@]);
    }
    r
}

pub open spec fn spec_is_list_push(stmt: SqlStatement) -> bool {
    spec_is_insert(stmt) && spec_ins_is_list_table(stmt) && spec_has_exact_columns(
        stmt,
        seq!["key"@, "value"@],
    ) && spec_has_values(stmt)
}

/// `INSERT INTO <table>__list (key, value) VALUES (<key>, <value>)`.
pub fn is_list_push(stmt: &SqlStatement) -> (r: bool)
    ensures
        r == spec_is_list_push(*stmt),
{
    let req: [&str; 2] = ["key", "value"];
    let r = is_insert(stmt) && is_list_table(stmt) && has_exact_columns(stmt, req.as_slice())
        && has_values(stmt);
    proof {
        assert(req.deep_view() =~= seq!["key"@, "value"@]);
    }
    r
}

pub open spec fn spec_is_set_add(stmt: SqlStatement) -> bool {
    spec_is_insert(stmt) && spec_ins_is_set_table(stmt) && spec_has_exact_columns(
        stmt,
        seq!["key"@, "member"@],
    ) && spec_has_values(stmt)
}

/// `INSERT INTO <table>__set (key, member) VALUES (<key>, <member>)`.
pub fn is_set_add(stmt: &SqlStatement) -> (r: bool)
    ensures
        r == spec_is_set_add(*stmt),
{
    let req: [&str; 2] = ["key", "member"];
    let r = is_insert(stmt) && is_set_table(stmt) && has_exact_columns(stmt, req.as_slice())
        && has_values(stmt);
    proof {
        assert(req.deep_view() =~= seq!["key"@, "member"@]);
    }
    r
}

pub open spec fn spec_is_zset_add(stmt: SqlStatement) -> bool {
    spec_is_insert(stmt) && spec_ins_is_zset_table(stmt) && spec_has_exact_columns(
        stmt,
        seq!["key"@, "member"@, "score"@],
    ) && spec_has_values(stmt)
}

/// `INSERT INTO <table>__zset (key, member, score) VALUES (...)`.
pub fn is_zset_add(stmt: &SqlStatement) -> (r: bool)
    ensures
        r == spec_is_zset_add(*stmt),
{
    let req: [&str; 3] = ["key", "member", "score"];
    let r = is_insert(stmt) && is_zset_table(stmt) && has_exact_columns(stmt, req.as_slice())
        && has_values(stmt);
    proof {
        assert(req.deep_view() =~= seq!["key"@, "member"@, "score"@]);
    }
    r
}

} // verus!
