// Pure accessors over DELETE statements, and the recursive WHERE-clause
// walkers shared with UPDATE: a conjunction is searched depth-first, left
// branch before right, and the first hit wins.

use vstd::prelude::*;

use crate::ast::select::spec_field_eq_top;
use crate::ast::{BinOp, SqlExpr, SqlStatement, spec_expr_value_text, spec_table_factor_name};

verus! {

/// The literal of the leftmost `field = literal` equality in a conjunction
/// tree; anything but equalities and conjunctions stops the search.
pub open spec fn spec_field_condition(e: SqlExpr, field: Seq<char>) -> Option<Seq<char>>
    decreases e,
{
    match e {
        SqlExpr::BinaryOp { op, left, right } => {
            if op == BinOp::Eq {
                spec_field_eq_top(e, field)
            } else if op == BinOp::And {
                match spec_field_condition(*left, field) {
                    Some(v) => Some(v),
                    None => spec_field_condition(*right, field),
                }
            } else {
                None
            }
        },
        _ => None,
    }
}

pub open spec fn spec_del_table_name(stmt: SqlStatement) -> Option<Seq<char>> {
    match stmt {
        SqlStatement::Delete(d) => {
            if d.from@.len() > 0 {
                spec_table_factor_name(d.from@[0].relation)
            } else {
                None
            }
        },
        _ => None,
    }
}

pub open spec fn spec_del_key_value(stmt: SqlStatement) -> Option<Seq<char>> {
    match stmt {
        SqlStatement::Delete(d) => match d.selection {
            Some(e) => spec_field_condition(e, "key"@),
            None => None,
        },
        _ => None,
    }
}

pub open spec fn spec_del_field_filter(stmt: SqlStatement, field: Seq<char>) -> Option<Seq<char>> {
    match stmt {
        SqlStatement::Delete(d) => match d.selection {
            Some(e) => spec_field_condition(e, field),
            None => None,
        },
        _ => None,
    }
}

/// The flat name-to-value map of every `identifier = literal` equality in a
/// conjunction tree; other nodes contribute nothing, and on a duplicate name
/// the rightmost equality wins.
pub open spec fn spec_conditions_of(e: SqlExpr) -> Map<Seq<char>, Seq<char>>
    decreases e,
{
    match e {
        SqlExpr::BinaryOp { op, left, right } => {
            if op == BinOp::And {
                spec_conditions_of(*left).union_prefer_right(spec_conditions_of(*right))
            } else if op == BinOp::Eq {
                match *left {
                    SqlExpr::Identifier(id) => match spec_expr_value_text(*right) {
                        Some(v) => map![id@ => v],
                        None => Map::empty(),
                    },
                    _ => Map::empty(),
                }
            } else {
                Map::empty()
            }
        },
        _ => Map::empty(),
    }
}

/// The map a pair list stands for: a later pair overwrites an earlier one
/// with the same name.
pub open spec fn spec_pairs_to_map(s: Seq<(String, String)>) -> Map<Seq<char>, Seq<char>>
    decreases s.len(),
{
    if s.len() == 0 {
        Map::empty()
    } else {
        spec_pairs_to_map(s.drop_last()).insert(s.last().0@, s.last().1@)
    }
}

/// Extract a field=value condition from a WHERE clause expression
pub fn extract_field_condition(expr: &SqlExpr, field_name: &str) -> (r: Option<String>)
    ensures
        match (r, spec_field_condition(*expr, field_name@)) {
            (Some(a), Some(b)) => a@ == b,
            (None, None) => true,
            _ => false,
        },
    decreases *expr,
{
    match expr {
        SqlExpr::BinaryOp { op, left, right } => {
            if *op == BinOp::Eq {
                crate::ast::select::field_eq_top(expr, field_name)
            } else if *op == BinOp::And {
                match extract_field_condition(&**left, field_name) {
                    Some(v) => Some(v),
                    None => extract_field_condition(&**right, field_name),
                }
            } else {
                None
            }
        },
        _ => None,
    }
}

/// Get the table name from a DELETE statement
pub fn get_table_name(stmt: &SqlStatement) -> (r: Option<String>)
    ensures
        match (r, spec_del_table_name(*stmt)) {
            (Some(a), Some(b)) => a@ == b,
            (None, None) => true,
            _ => false,
        },
{
    match stmt {
        SqlStatement::Delete(d) => {
            if d.from.len() == 0 {
                return None;
            }
            match &d.from[0].relation {
                crate::ast::SqlTableFactor::Table { name, .. } => {
                    if name.len() > 0 {
                        Some(name[0].clone())
                    } else {
                        None
                    }
                },
                _ => None,
            }
        },
        _ => None,
    }
}

/// Get key condition from WHERE clause, searching conjunctions depth-first.
pub fn get_key_value(stmt: &SqlStatement) -> (r: Option<String>)
    ensures
        match (r, spec_del_key_value(*stmt)) {
            (Some(a), Some(b)) => a@ == b,
            (None, None) => true,
            _ => false,
        },
{
    match stmt {
        SqlStatement::Delete(d) => match &d.selection {
            Some(e) => extract_field_condition(e, "key"),
            None => None,
        },
        _ => None,
    }
}

/// Get field condition from WHERE clause
pub fn get_field_filter(stmt: &SqlStatement, field_name: &str) -> (r: Option<String>)
    ensures
        match (r, spec_del_field_filter(*stmt, field_name@)) {
            (Some(a), Some(b)) => a@ == b,
            (None, None) => true,
            _ => false,
        },
{
    match stmt {
        SqlStatement::Delete(d) => match &d.selection {
            Some(e) => extract_field_condition(e, field_name),
            None => None,
        },
        _ => None,
    }
}

/// Extract all conditions from a WHERE clause as ordered name/value pairs;
/// the pair list read as a map equals the conjunction's flat condition map.
pub fn extract_conditions(expr: &Option<SqlExpr>) -> (r: Vec<(String, String)>)
    ensures
        spec_pairs_to_map(r@) == (match *expr {
            Some(e) => spec_conditions_of(e),
            None => Map::<Seq<char>, Seq<char>>::empty(),
        }),
{
    let mut conditions: Vec<(String, String)> = Vec::new();
    match expr {
        Some(e) => {
            extract_conditions_recursive(e, &mut conditions);
            proof {
                assert(spec_pairs_to_map(conditions@) =~= spec_conditions_of(*e));
            }
        },
        None => {},
    }
    conditions
}

/// Recursively extract conditions from a complex WHERE clause
fn extract_conditions_recursive(expr: &SqlExpr, conditions: &mut Vec<(String, String)>)
    ensures
        spec_pairs_to_map(final(conditions)@) == spec_pairs_to_map(
            old(conditions)@,
        ).union_prefer_right(spec_conditions_of(*expr)),
    decreases *expr,
{
    match expr {
        SqlExpr::BinaryOp { op, left, right } => {
            if *op == BinOp::And {
                extract_conditions_recursive(&**left, conditions);
                extract_conditions_recursive(&**right, conditions);
                proof {
                    assert(spec_pairs_to_map(conditions@) =~= spec_pairs_to_map(
                        old(conditions)@,
                    ).union_prefer_right(spec_conditions_of(*expr)));
                }
            } else if *op == BinOp::Eq {
                match &**left {
                    SqlExpr::Identifier(id) => {
                        match crate::ast::expr_value_text(&**right) {
                            Some(v) => {
                                conditions.push((id.clone(), v));
                                proof {
                                    assert(conditions@.drop_last() =~= old(conditions)@);
                                    assert(spec_pairs_to_map(conditions@) =~= spec_pairs_to_map(
                                        old(conditions)@,
                                    ).union_prefer_right(spec_conditions_of(*expr)));
                                }
                            },
                            None => {
                                proof {
                                    assert(spec_pairs_to_map(conditions@) =~= spec_pairs_to_map(
                                        old(conditions)@,
                                    ).union_prefer_right(spec_conditions_of(*expr)));
                                }
                            },
                        }
                    },
                    _ => {
                        proof {
                            assert(spec_pairs_to_map(conditions@) =~= spec_pairs_to_map(
                                old(conditions)@,
                            ).union_prefer_right(spec_conditions_of(*expr)));
                        }
                    },
                }
            } else {
                proof {
                    assert(spec_pairs_to_map(conditions@) =~= spec_pairs_to_map(
                        old(conditions)@,
                    ).union_prefer_right(spec_conditions_of(*expr)));
                }
            }
        },
        _ => {
            proof {
                assert(spec_pairs_to_map(conditions@) =~= spec_pairs_to_map(
                    old(conditions)@,
                ).union_prefer_right(spec_conditions_of(*expr)));
            }
        },
    }
}

} // verus!
