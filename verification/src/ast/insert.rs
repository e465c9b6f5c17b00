// Pure accessors over INSERT statements: target table, column list, and the
// VALUES rows as raw text. Row maps keep the original column order, so that
// positional command construction stays deterministic.

use vstd::prelude::*;

use crate::ast::{SqlExpr, SetExprKind, SqlStatement, TableObjectKind, spec_expr_value_text};

verus! {

pub open spec fn spec_ins_table_name(stmt: SqlStatement) -> Option<Seq<char>> {
    match stmt {
        SqlStatement::Insert(ins) => match ins.table {
            TableObjectKind::TableName(parts) => {
                if parts@.len() > 0 {
                    Some(parts@[0]@)
                } else {
                    None
                }
            },
            _ => None,
        },
        _ => None,
    }
}

pub open spec fn spec_ins_columns(stmt: SqlStatement) -> Option<Seq<Seq<char>>> {
    match stmt {
        SqlStatement::Insert(ins) => {
            if ins.columns@.len() > 0 {
                Some(ins.columns.deep_view())
            } else {
                None
            }
        },
        _ => None,
    }
}

/// The texts of one VALUES row, dropping every entry that is not a string
/// or numeric literal.
pub open spec fn spec_row_texts(row: Seq<SqlExpr>) -> Seq<Seq<char>>
    decreases row.len(),
{
    if row.len() == 0 {
        Seq::empty()
    } else {
        spec_row_texts(row.drop_last()) + (match spec_expr_value_text(row.last()) {
            Some(v) => seq![v],
            None => Seq::empty(),
        })
    }
}

/// All VALUES rows of an INSERT as raw text, or nothing when there are no
/// rows or the first row is empty.
pub open spec fn spec_ins_rows(stmt: SqlStatement) -> Option<Seq<Seq<Seq<char>>>> {
    match stmt {
        SqlStatement::Insert(ins) => match ins.source {
            Some(q) => match (*q).body {
                SetExprKind::Values(rows) => {
                    let rr = rows@.map_values(|row: Vec<SqlExpr>| spec_row_texts(row@));
                    if rr.len() == 0 || rr[0].len() == 0 {
                        None
                    } else {
                        Some(rr)
                    }
                },
                _ => None,
            },
            None => None,
        },
        _ => None,
    }
}

/// One row as column/value pairs, in column order; nothing when the row
/// width differs from the column count.
pub open spec fn spec_row_pairs(cols: Seq<Seq<char>>, row: Seq<Seq<char>>) -> Option<
    Seq<(Seq<char>, Seq<char>)>,
> {
    if cols.len() == row.len() {
        Some(Seq::new(cols.len(), |i: int| (cols[i], row[i])))
    } else {
        None
    }
}

/// Every full-width row of an INSERT as ordered column/value pairs; rows of
/// another width are dropped; nothing when no row is left.
pub open spec fn spec_ins_row_maps(stmt: SqlStatement) -> Option<Seq<Seq<(Seq<char>, Seq<char>)>>> {
    match (spec_ins_columns(stmt), spec_ins_rows(stmt)) {
        (Some(cols), Some(rows)) => {
            let maps = spec_filtered_row_maps(cols, rows);
            if maps.len() == 0 {
                None
            } else {
                Some(maps)
            }
        },
        _ => None,
    }
}

pub open spec fn spec_filtered_row_maps(cols: Seq<Seq<char>>, rows: Seq<Seq<Seq<char>>>) -> Seq<
    Seq<(Seq<char>, Seq<char>)>,
>
    decreases rows.len(),
{
    if rows.len() == 0 {
        Seq::empty()
    } else {
        spec_filtered_row_maps(cols, rows.drop_last()) + (match spec_row_pairs(cols, rows.last()) {
            Some(m) => seq![m],
            None => Seq::empty(),
        })
    }
}

/// The value a pair list associates with a name; on a duplicate name the
/// later pair wins, as in a map built by repeated insertion.
pub open spec fn spec_pairs_get(pairs: Seq<(Seq<char>, Seq<char>)>, name: Seq<char>) -> Option<
    Seq<char>,
>
    decreases pairs.len(),
{
    if pairs.len() == 0 {
        None
    } else if pairs.last().0 == name {
        Some(pairs.last().1)
    } else {
        spec_pairs_get(pairs.drop_last(), name)
    }
}

/// The value of `column` in the first row map, if any.
pub open spec fn spec_ins_column_value(stmt: SqlStatement, column: Seq<char>) -> Option<Seq<char>> {
    match spec_ins_row_maps(stmt) {
        Some(maps) => {
            if maps.len() == 0 {
                None
            } else {
                spec_pairs_get(maps[0], column)
            }
        },
        None => None,
    }
}

/// Get the table name from an INSERT statement
pub fn ins_get_table_name(stmt: &SqlStatement) -> (r: Option<String>)
    ensures
        match (r, spec_ins_table_name(*stmt)) {
            (Some(a), Some(b)) => a@ == b,
            (None, None) => true,
            _ => false,
        },
{
    match stmt {
        SqlStatement::Insert(ins) => match &ins.table {
            TableObjectKind::TableName(parts) => {
                if parts.len() > 0 {
                    Some(parts[0].clone())
                } else {
                    None
                }
            },
            _ => None,
        },
        _ => None,
    }
}

/// Get the column names from an INSERT statement
pub fn ins_get_column_names(stmt: &SqlStatement) -> (r: Option<Vec<String>>)
    ensures
        match (r, spec_ins_columns(*stmt)) {
            (Some(a), Some(b)) => a.deep_view() == b,
            (None, None) => true,
            _ => false,
        },
{
    match stmt {
        SqlStatement::Insert(ins) => {
            if ins.columns.len() > 0 {
                Some(ins.columns.clone())
            } else {
                None
            }
        },
        _ => None,
    }
}

/// Get the column names of an INSERT paired with their positions.
pub fn ins_get_column_map(stmt: &SqlStatement) -> (r: Option<Vec<(usize, String)>>)
    ensures
        match (r, spec_ins_columns(*stmt)) {
            (Some(a), Some(b)) => a@.len() == b.len() && (forall|j: int|
                0 <= j < a@.len() ==> (#[trigger] a@[j]).0 == j && a@[j].1@ == b[j]),
            (None, None) => true,
            _ => false,
        },
{
    let cols = match ins_get_column_names(stmt) {
        Some(c) => c,
        None => { return None },
    };
    let mut out: Vec<(usize, String)> = Vec::new();
    let mut i: usize = 0;
    while i < cols.len()
        invariant
            spec_ins_columns(*stmt) == Some(cols.deep_view()),
            i <= cols@.len(),
            out@.len() == i,
            forall|j: int|
                0 <= j < i ==> (#[trigger] out@[j]).0 == j && out@[j].1@ == cols@[j]@,
        decreases cols@.len() - i,
    {
        out.push((i, cols[i].clone()));
        i += 1;
    }
    Some(out)
}

/// Extract a string value from an SQL expression
pub fn ins_extract_value(expr: &SqlExpr) -> (r: Option<String>)
    ensures
        match (r, spec_expr_value_text(*expr)) {
            (Some(a), Some(b)) => a@ == b,
            (None, None) => true,
            _ => false,
        },
{
    crate::ast::expr_value_text(expr)
}

fn row_texts(row: &Vec<SqlExpr>) -> (r: Vec<String>)
    ensures
        r.deep_view() == spec_row_texts(row@),
{
    let mut out: Vec<String> = Vec::new();
    let mut i: usize = 0;
    while i < row.len()
        invariant
            i <= row@.len(),
            out.deep_view() == spec_row_texts(row@.subrange(0, i as int)),
        decreases row@.len() - i,
    {
        proof {
            assert(row@.subrange(0, i + 1).drop_last() =~= row@.subrange(0, i as int));
            assert(row@.subrange(0, i + 1).last() == row@[i as int]);
        }
        match crate::ast::expr_value_text(&row[i]) {
            Some(v) => {
                out.push(v);
            },
            None => {},
        }
        i += 1;
        assert(out.deep_view() =~= spec_row_texts(row@.subrange(0, i as int)));
    }
    proof {
        assert(row@.subrange(0, row@.len() as int) =~= row@);
    }
    out
}

/// Extract all values from an INSERT VALUES clause as rows of strings
pub fn ins_get_values_as_strings(stmt: &SqlStatement) -> (r: Option<Vec<Vec<String>>>)
    ensures
        match (r, spec_ins_rows(*stmt)) {
            (Some(a), Some(b)) => a.deep_view() == b,
            (None, None) => true,
            _ => false,
        },
{
    let rows: &Vec<Vec<SqlExpr>> = match stmt {
        SqlStatement::Insert(ins) => match &ins.source {
            Some(q) => match &q.body {
                SetExprKind::Values(rows) => rows,
                _ => { return None },
            },
            None => { return None },
        },
        _ => { return None },
    };
    let mut out: Vec<Vec<String>> = Vec::new();
    let mut i: usize = 0;
    while i < rows.len()
        invariant
            i <= rows@.len(),
            out@.len() == i,
            forall|j: int|
                0 <= j < i ==> #[trigger] out@[j].deep_view() == spec_row_texts(rows@[j]@),
        decreases rows@.len() - i,
    {
        out.push(row_texts(&rows[i]));
        i += 1;
    }
    proof {
        let rr = rows@.map_values(|row: Vec<SqlExpr>| spec_row_texts(row@));
        assert(out.deep_view() =~= rr);
    }
    if out.len() == 0 || out[0].len() == 0 {
        proof {
            let rr = rows@.map_values(|row: Vec<SqlExpr>| spec_row_texts(row@));
            if out@.len() > 0 {
                assert(rr[0] == out@[0].deep_view());
            }
        }
        None
    } else {
        proof {
            let rr = rows@.map_values(|row: Vec<SqlExpr>| spec_row_texts(row@));
            assert(rr[0] == out@[0].deep_view());
        }
        Some(out)
    }
}

pub fn row_pairs_of(cols: &Vec<String>, row: &Vec<String>) -> (r: Option<Vec<(String, String)>>)
    ensures
        match (r, spec_row_pairs(cols.deep_view(), row.deep_view())) {
            (Some(a), Some(b)) => a.deep_view() == b,
            (None, None) => true,
            _ => false,
        },
{
    if cols.len() != row.len() {
        return None;
    }
    let mut out: Vec<(String, String)> = Vec::new();
    let mut i: usize = 0;
    while i < cols.len()
        invariant
            cols@.len() == row@.len(),
            i <= cols@.len(),
            out@.len() == i,
            forall|j: int|
                0 <= j < i ==> #[trigger] out@[j].0@ == cols@[j]@ && out@[j].1@ == row@[j]@,
        decreases cols@.len() - i,
    {
        out.push((cols[i].clone(), row[i].clone()));
        i += 1;
    }
    proof {
        assert(out.deep_view() =~= Seq::new(
            cols.deep_view().len(),
            |j: int| (cols.deep_view()[j], row.deep_view()[j]),
        ));
    }
    Some(out)
}

/// Extract values from an INSERT statement as ordered column/value pair
/// rows, one per full-width VALUES row.
pub fn ins_get_values_as_maps(stmt: &SqlStatement) -> (r: Option<Vec<Vec<(String, String)>>>)
    ensures
        match (r, spec_ins_row_maps(*stmt)) {
            (Some(a), Some(b)) => a.deep_view() == b,
            (None, None) => true,
            _ => false,
        },
{
    let cols = match ins_get_column_names(stmt) {
        Some(c) => c,
        None => { return None },
    };
    let rows = match ins_get_values_as_strings(stmt) {
        Some(v) => v,
        None => { return None },
    };
    let ghost gcols = cols.deep_view();
    let ghost grows = rows.deep_view();
    let mut maps: Vec<Vec<(String, String)>> = Vec::new();
    let mut i: usize = 0;
    while i < rows.len()
        invariant
            i <= rows@.len(),
            gcols == cols.deep_view(),
            grows == rows.deep_view(),
            grows.len() == rows@.len(),
            forall|j: int|
                0 <= j < rows@.len() ==> #[trigger] grows[j] == rows@[j].deep_view(),
            maps.deep_view() == spec_filtered_row_maps(gcols, grows.subrange(0, i as int)),
        decreases rows@.len() - i,
    {
        proof {
            assert(grows.subrange(0, i + 1).drop_last() =~= grows.subrange(0, i as int));
            assert(grows.subrange(0, i + 1).last() == grows[i as int]);
        }
        match row_pairs_of(&cols, &rows[i]) {
            Some(m) => {
                maps.push(m);
            },
            None => {},
        }
        i += 1;
        proof {
            assert(maps.deep_view() =~= spec_filtered_row_maps(
                gcols,
                grows.subrange(0, i as int),
            ));
        }
    }
    proof {
        assert(grows.subrange(0, grows.len() as int) =~= grows);
    }
    if maps.len() == 0 {
        None
    } else {
        Some(maps)
    }
}

/// Look a name up in an ordered pair list, later pairs winning, as in a map
/// built by repeated insertion.
pub fn pairs_get(pairs: &Vec<(String, String)>, name: &str) -> (r: Option<String>)
    ensures
        match (r, spec_pairs_get(pairs.deep_view(), name@)) {
            (Some(a), Some(b)) => a@ == b,
            (None, None) => true,
            _ => false,
        },
{
    let mut i: usize = pairs.len();
    proof {
        assert(pairs.deep_view().len() == pairs@.len());
        assert(pairs.deep_view().subrange(0, pairs@.len() as int) =~= pairs.deep_view());
    }
    while i > 0
        invariant
            i <= pairs@.len(),
            spec_pairs_get(pairs.deep_view(), name@) == spec_pairs_get(
                pairs.deep_view().subrange(0, i as int),
                name@,
            ),
        decreases i,
    {
        i -= 1;
        proof {
            assert(pairs.deep_view().subrange(0, i + 1).drop_last() =~= pairs.deep_view().subrange(
                0,
                i as int,
            ));
            assert(pairs.deep_view().subrange(0, i + 1).last() == pairs.deep_view()[i as int]);
            assert(pairs.deep_view()[i as int] == (pairs@[i as int].0@, pairs@[i as int].1@));
        }
        if substr_eq(&pairs[i].0, name) {
            return Some(pairs[i].1.clone());
        }
    }
    proof {
        assert(pairs.deep_view().subrange(0, 0) =~= Seq::<(Seq<char>, Seq<char>)>::empty());
    }
    None
}

/// Character-for-character equality of a `String` and a `&str`.
pub fn substr_eq(a: &String, b: &str) -> (r: bool)
    ensures
        r == (a@ == b@),
{
    let n: usize = a.as_str().unicode_len();
    let m: usize = b.unicode_len();
    if n != m {
        return false;
    }
    let mut i: usize = 0;
    while i < n
        invariant
            n == m,
            n == a@.len(),
            m == b@.len(),
            i <= n,
            forall|j: int| 0 <= j < i ==> a@[j] == b@[j],
        decreases n - i,
    {
        if a.as_str().get_char(i) != b.get_char(i) {
            return false;
        }
        i += 1;
    }
    proof {
        assert(a@ =~= b@);
    }
    true
}

/// Get a specific column's value from the first row
pub fn ins_get_column_value(stmt: &SqlStatement, column_name: &str) -> (r: Option<String>)
    ensures
        match (r, spec_ins_column_value(*stmt, column_name@)) {
            (Some(a), Some(b)) => a@ == b,
            (None, None) => true,
            _ => false,
        },
{
    let maps = match ins_get_values_as_maps(stmt) {
        Some(m) => m,
        None => { return None },
    };
    if maps.len() == 0 {
        return None;
    }
    pairs_get(&maps[0], column_name)
}

/// All values of `column` across the row maps; nothing when every row lacks
/// it.
pub open spec fn spec_ins_all_column_values(stmt: SqlStatement, column: Seq<char>) -> Option<
    Seq<Seq<char>>,
> {
    match spec_ins_row_maps(stmt) {
        Some(maps) => {
            let vals = spec_collect_column(maps, column);
            if vals.len() == 0 {
                None
            } else {
                Some(vals)
            }
        },
        None => None,
    }
}

pub open spec fn spec_collect_column(
    maps: Seq<Seq<(Seq<char>, Seq<char>)>>,
    column: Seq<char>,
) -> Seq<Seq<char>>
    decreases maps.len(),
{
    if maps.len() == 0 {
        Seq::empty()
    } else {
        spec_collect_column(maps.drop_last(), column) + (match spec_pairs_get(
            maps.last(),
            column,
        ) {
            Some(v) => seq![v],
            None => Seq::empty(),
        })
    }
}

/// Get all rows' values for a specific column
pub fn ins_get_all_column_values(stmt: &SqlStatement, column_name: &str) -> (r: Option<Vec<String>>)
    ensures
        match (r, spec_ins_all_column_values(*stmt, column_name@)) {
            (Some(a), Some(b)) => a.deep_view() == b,
            (None, None) => true,
            _ => false,
        },
{
    let maps = match ins_get_values_as_maps(stmt) {
        Some(m) => m,
        None => { return None },
    };
    let ghost gmaps = maps.deep_view();
    let mut out: Vec<String> = Vec::new();
    let mut i: usize = 0;
    while i < maps.len()
        invariant
            i <= maps@.len(),
            gmaps == maps.deep_view(),
            gmaps.len() == maps@.len(),
            forall|j: int|
                0 <= j < maps@.len() ==> #[trigger] gmaps[j] == maps@[j].deep_view(),
            out.deep_view() == spec_collect_column(
                gmaps.subrange(0, i as int),
                column_name@,
            ),
        decreases maps@.len() - i,
    {
        proof {
            assert(gmaps.subrange(0, i + 1).drop_last() =~= gmaps.subrange(0, i as int));
            assert(gmaps.subrange(0, i + 1).last() == gmaps[i as int]);
        }
        match pairs_get(&maps[i], column_name) {
            Some(v) => {
                out.push(v);
            },
            None => {},
        }
        i += 1;
        proof {
            assert(out.deep_view() =~= spec_collect_column(
                gmaps.subrange(0, i as int),
                column_name@,
            ));
        }
    }
    proof {
        assert(gmaps.subrange(0, gmaps.len() as int) =~= gmaps);
    }
    if out.len() == 0 {
        None
    } else {
        Some(out)
    }
}

} // verus!
