// Pure accessors over UPDATE statements: target table, WHERE-clause values
// (searched through conjunctions like the DELETE accessors) and the SET
// assignments in their written order.

use vstd::prelude::*;

use crate::ast::delete::spec_field_condition;
use crate::ast::{
    SqlAssignment, AssignmentTargetKind, SqlExpr, SqlStatement, spec_expr_value_text,
    spec_table_factor_name,
};

verus! {

pub open spec fn spec_upd_table_name(stmt: SqlStatement) -> Option<Seq<char>> {
    match stmt {
        SqlStatement::Update(u) => spec_table_factor_name(u.table.relation),
        _ => None,
    }
}

pub open spec fn spec_upd_key_value(stmt: SqlStatement) -> Option<Seq<char>> {
    match stmt {
        SqlStatement::Update(u) => match u.selection {
            Some(e) => spec_field_condition(e, "key"@),
            None => None,
        },
        _ => None,
    }
}

pub open spec fn spec_upd_field_filter(stmt: SqlStatement, field: Seq<char>) -> Option<Seq<char>> {
    match stmt {
        SqlStatement::Update(u) => match u.selection {
            Some(e) => spec_field_condition(e, field),
            None => None,
        },
        _ => None,
    }
}

/// The SET assignments that bind a plain column to a literal, as ordered
/// name/value pairs; every other assignment shape is dropped.
pub open spec fn spec_assignment_pairs(asgs: Seq<SqlAssignment>) -> Seq<(Seq<char>, Seq<char>)>
    decreases asgs.len(),
{
    if asgs.len() == 0 {
        Seq::empty()
    } else {
        spec_assignment_pairs(asgs.drop_last()) + (match spec_assignment_pair(asgs.last()) {
            Some(p) => seq![p],
            None => Seq::empty(),
        })
    }
}

pub open spec fn spec_assignment_pair(a: SqlAssignment) -> Option<(Seq<char>, Seq<char>)> {
    match a.target {
        AssignmentTargetKind::ColumnName(parts) => {
            if parts@.len() > 0 {
                match spec_expr_value_text(a.value) {
                    Some(v) => Some((parts@[0]@, v)),
                    None => None,
                }
            } else {
                None
            }
        },
        _ => None,
    }
}

/// The assignment pairs of an UPDATE, or nothing when none binds a plain
/// column to a literal.
pub open spec fn spec_upd_assignments(stmt: SqlStatement) -> Option<Seq<(Seq<char>, Seq<char>)>> {
    match stmt {
        SqlStatement::Update(u) => {
            let pairs = spec_assignment_pairs(u.assignments@);
            if pairs.len() == 0 {
                None
            } else {
                Some(pairs)
            }
        },
        _ => None,
    }
}

/// Extract a string value from an SQL expression
pub fn upd_extract_value(expr: &SqlExpr) -> (r: Option<String>)
    ensures
        match (r, spec_expr_value_text(*expr)) {
            (Some(a), Some(b)) => a@ == b,
            (None, None) => true,
            _ => false,
        },
{
    crate::ast::expr_value_text(expr)
}

/// Get key condition from WHERE clause, searching conjunctions depth-first.
pub fn upd_get_key_value(stmt: &SqlStatement) -> (r: Option<String>)
    ensures
        match (r, spec_upd_key_value(*stmt)) {
            (Some(a), Some(b)) => a@ == b,
            (None, None) => true,
            _ => false,
        },
{
    match stmt {
        SqlStatement::Update(u) => match &u.selection {
            Some(e) => crate::ast::delete::extract_field_condition(e, "key"),
            None => None,
        },
        _ => None,
    }
}

/// Get a specific field condition from WHERE clause
pub fn upd_get_field_filter(stmt: &SqlStatement, field_name: &str) -> (r: Option<String>)
    ensures
        match (r, spec_upd_field_filter(*stmt, field_name@)) {
            (Some(a), Some(b)) => a@ == b,
            (None, None) => true,
            _ => false,
        },
{
    match stmt {
        SqlStatement::Update(u) => match &u.selection {
            Some(e) => crate::ast::delete::extract_field_condition(e, field_name),
            None => None,
        },
        _ => None,
    }
}

fn assignment_pair(a: &SqlAssignment) -> (r: Option<(String, String)>)
    ensures
        match (r, spec_assignment_pair(*a)) {
            (Some(x), Some(b)) => x.0@ == b.0 && x.1@ == b.1,
            (None, None) => true,
            _ => false,
        },
{
    match &a.target {
        AssignmentTargetKind::ColumnName(parts) => {
            if parts.len() > 0 {
                match crate::ast::expr_value_text(&a.value) {
                    Some(v) => Some((parts[0].clone(), v)),
                    None => None,
                }
            } else {
                None
            }
        },
        _ => None,
    }
}

/// Extract all SET assignments as ordered field/value pairs.
pub fn upd_get_assignments(stmt: &SqlStatement) -> (r: Option<Vec<(String, String)>>)
    ensures
        match (r, spec_upd_assignments(*stmt)) {
            (Some(a), Some(b)) => a.deep_view() == b,
            (None, None) => true,
            _ => false,
        },
{
    let asgs: &Vec<SqlAssignment> = match stmt {
        SqlStatement::Update(u) => &u.assignments,
        _ => { return None },
    };
    let mut out: Vec<(String, String)> = Vec::new();
    let mut i: usize = 0;
    while i < asgs.len()
        invariant
            i <= asgs@.len(),
            out.deep_view() == spec_assignment_pairs(asgs@.subrange(0, i as int)),
        decreases asgs@.len() - i,
    {
        proof {
            assert(asgs@.subrange(0, i + 1).drop_last() =~= asgs@.subrange(0, i as int));
            assert(asgs@.subrange(0, i + 1).last() == asgs@[i as int]);
        }
        match assignment_pair(&asgs[i]) {
            Some(p) => {
                out.push(p);
            },
            None => {},
        }
        i += 1;
        proof {
            assert(out.deep_view() =~= spec_assignment_pairs(asgs@.subrange(0, i as int)));
        }
    }
    proof {
        assert(asgs@.subrange(0, asgs@.len() as int) =~= asgs@);
    }
    if out.len() == 0 {
        None
    } else {
        Some(out)
    }
}

/// Get the table name from an UPDATE statement
pub fn upd_get_table_name(stmt: &SqlStatement) -> (r: Option<String>)
    ensures
        match (r, spec_upd_table_name(*stmt)) {
            (Some(a), Some(b)) => a@ == b,
            (None, None) => true,
            _ => false,
        },
{
    match stmt {
        SqlStatement::Update(u) => match &u.table.relation {
            crate::ast::SqlTableFactor::Table { name, .. } => {
                if name.len() > 0 {
                    Some(name[0].clone())
                } else {
                    None
                }
            },
            _ => None,
        },
        _ => None,
    }
}

} // verus!
