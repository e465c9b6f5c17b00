// Extraction for the direct INSERT path: one single-row VALUES clause whose
// entries are all literals, read as ordered column/value pairs.

use vstd::prelude::*;

use crate::ast::insert::{spec_pairs_get, spec_row_pairs};
use crate::ast::{SqlExpr, SetExprKind, SqlStatement, TableObjectKind, spec_expr_value_text};

verus! {

/// Info struct for insert commands; `fields` keeps the column order.
pub struct InsertCommandInfo {
    pub table: String,
    pub key: String,
    pub fields: Vec<(String, String)>,
}

/// The texts of one VALUES row; a single non-literal entry voids the row.
pub open spec fn spec_full_row_texts(row: Seq<SqlExpr>) -> Option<Seq<Seq<char>>>
    decreases row.len(),
{
    if row.len() == 0 {
        Some(Seq::empty())
    } else {
        match (spec_full_row_texts(row.drop_last()), spec_expr_value_text(row.last())) {
            (Some(rest), Some(v)) => Some(rest.push(v)),
            _ => None,
        }
    }
}

/// The single VALUES row of an INSERT source, when there is exactly one and
/// every entry is a literal.
pub open spec fn spec_insert_single_row(stmt: SqlStatement) -> Option<Seq<Seq<char>>> {
    match stmt {
        SqlStatement::Insert(ins) => match ins.source {
            Some(q) => match (*q).body {
                SetExprKind::Values(rows) => {
                    if rows@.len() == 1 {
                        spec_full_row_texts(rows@[0]@)
                    } else {
                        None
                    }
                },
                _ => None,
            },
            None => None,
        },
        _ => None,
    }
}

/// What the direct generator extracts from an INSERT: the table name, the
/// `key` column's value, and all column/value pairs in column order. The
/// column count must match the row width and a `key` column is required.
pub open spec fn spec_extract_insert_command(stmt: SqlStatement) -> Option<
    (Seq<char>, Seq<char>, Seq<(Seq<char>, Seq<char>)>),
> {
    match stmt {
        SqlStatement::Insert(ins) => match ins.table {
            TableObjectKind::TableName(parts) => {
                if parts@.len() == 0 {
                    None
                } else {
                    match spec_insert_single_row(stmt) {
                        Some(row) => match spec_row_pairs(ins.columns.deep_view(), row) {
                            Some(pairs) => match spec_pairs_get(pairs, "key"@) {
                                Some(key) => Some((parts@[0]@, key, pairs)),
                                None => None,
                            },
                            None => None,
                        },
                        None => None,
                    }
                }
            },
            _ => None,
        },
        _ => None,
    }
}

fn full_row_texts(row: &Vec<SqlExpr>) -> (r: Option<Vec<String>>)
    ensures
        match (r, spec_full_row_texts(row@)) {
            (Some(a), Some(b)) => a.deep_view() == b,
            (None, None) => true,
            _ => false,
        },
{
    let mut out: Vec<String> = Vec::new();
    let mut i: usize = 0;
    while i < row.len()
        invariant
            i <= row@.len(),
            spec_full_row_texts(row@.subrange(0, i as int)) == Some(out.deep_view()),
        decreases row@.len() - i,
    {
        proof {
            assert(row@.subrange(0, i + 1).drop_last() =~= row@.subrange(0, i as int));
            assert(row@.subrange(0, i + 1).last() == row@[i as int]);
        }
        match crate::ast::expr_value_text(&row[i]) {
            Some(v) => {
                out.push(v);
            },
            None => {
                proof {
                    lemma_full_row_texts_extend_none(row@, i as int);
                }
                return None;
            },
        }
        i += 1;
        proof {
            assert(out.deep_view() =~= spec_full_row_texts(
                row@.subrange(0, i as int),
            ).unwrap());
        }
    }
    proof {
        assert(row@.subrange(0, row@.len() as int) =~= row@);
    }
    Some(out)
}

/// A row with one non-literal entry has no full text row.
proof fn lemma_full_row_texts_extend_none(row: Seq<SqlExpr>, i: int)
    requires
        0 <= i < row.len(),
        spec_expr_value_text(row[i]) is None,
    ensures
        spec_full_row_texts(row) is None,
    decreases row.len(),
{
    if row.len() > 0 {
        if i == row.len() - 1 {
        } else {
            lemma_full_row_texts_extend_none(row.drop_last(), i);
        }
    }
}

/// Extract insert command information
pub fn extract_insert_command(stmt: &SqlStatement) -> (r: Option<InsertCommandInfo>)
    ensures
        match (r, spec_extract_insert_command(*stmt)) {
            (Some(a), Some(b)) => a.table@ == b.0 && a.key@ == b.1 && a.fields.deep_view() == b.2,
            (None, None) => true,
            _ => false,
        },
{
    let ins = match stmt {
        SqlStatement::Insert(ins) => ins,
        _ => { return None },
    };
    let table = match &ins.table {
        TableObjectKind::TableName(parts) => {
            if parts.len() == 0 {
                return None;
            }
            parts[0].clone()
        },
        _ => { return None },
    };
    let rows = match &ins.source {
        Some(q) => match &q.body {
            SetExprKind::Values(rows) => rows,
            _ => { return None },
        },
        None => { return None },
    };
    if rows.len() != 1 {
        return None;
    }
    let row = match full_row_texts(&rows[0]) {
        Some(v) => v,
        None => { return None },
    };
    let pairs = match crate::ast::insert::row_pairs_of(&ins.columns, &row) {
        Some(p) => p,
        None => { return None },
    };
    match crate::ast::insert::pairs_get(&pairs, "key") {
        Some(key) => Some(InsertCommandInfo { table, key, fields: pairs }),
        None => None,
    }
}

} // verus!
