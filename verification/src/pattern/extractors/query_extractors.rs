// SqlQuery-level analysis helpers: target table with key, projected field
// names, and explicit descending score order.

use vstd::prelude::*;

use crate::ast::delete::spec_field_condition;
use crate::ast::select::{spec_order_by_score_desc, spec_sel_select};
use crate::ast::{SqlExpr, SqlQuery, SqlSelectItem, SetExprKind, spec_table_factor_name};
use crate::pattern::extractors::common::spec_table_type_text;

verus! {

/// The table-type text and key of a plain SELECT with a first table and a
/// key equality somewhere in its WHERE conjunction.
pub open spec fn spec_table_and_key(q: SqlQuery) -> Option<(Seq<char>, Seq<char>)> {
    match spec_sel_select(q) {
        Some(s) => {
            if s.from@.len() == 0 {
                None
            } else {
                match spec_table_factor_name(s.from@[0].relation) {
                    Some(name) => match s.selection {
                        Some(e) => match spec_field_condition(e, "key"@) {
                            Some(key) => Some((spec_table_type_text(name), key)),
                            None => None,
                        },
                        None => None,
                    },
                    None => None,
                }
            }
        },
        None => None,
    }
}

pub fn extract_table_and_key(query: &SqlQuery) -> (r: Option<(&'static str, String)>)
    ensures
        match (r, spec_table_and_key(*query)) {
            (Some(a), Some(b)) => a.0@ == b.0 && a.1@ == b.1,
            (None, None) => true,
            _ => false,
        },
{
    let s = match crate::ast::sel_get_select(query) {
        Some(s) => s,
        None => { return None },
    };
    if s.from.len() == 0 {
        return None;
    }
    let name = match &s.from[0].relation {
        crate::ast::SqlTableFactor::Table { name, .. } => {
            if name.len() == 0 {
                return None;
            }
            &name[0]
        },
        _ => { return None },
    };
    let table_type = crate::pattern::extractors::common::determine_table_type(name.as_str());
    let e = match &s.selection {
        Some(e) => e,
        None => { return None },
    };
    match crate::pattern::extractors::common::extract_key_from_condition(e) {
        Some(key) => Some((table_type, key)),
        None => None,
    }
}

/// The projected names of a plain SELECT: any wildcard item collapses the
/// whole projection to `*`; otherwise the bare and aliased identifier names
/// in order.
pub open spec fn spec_selected_fields(q: SqlQuery) -> Option<Seq<Seq<char>>> {
    match spec_sel_select(q) {
        Some(s) => {
            if (exists|i: int| 0 <= i < s.projection@.len() && #[trigger] s.projection@[i] is Wildcard) {
                Some(seq!["*"@])
            } else {
                Some(spec_ident_fields(s.projection@))
            }
        },
        None => None,
    }
}

pub open spec fn spec_ident_field(item: SqlSelectItem) -> Option<Seq<char>> {
    match item {
        SqlSelectItem::UnnamedExpr(SqlExpr::Identifier(id)) => Some(id@),
        SqlSelectItem::ExprWithAlias { expr: SqlExpr::Identifier(id), .. } => Some(id@),
        _ => None,
    }
}

pub open spec fn spec_ident_fields(items: Seq<SqlSelectItem>) -> Seq<Seq<char>>
    decreases items.len(),
{
    if items.len() == 0 {
        Seq::empty()
    } else {
        spec_ident_fields(items.drop_last()) + (match spec_ident_field(items.last()) {
            Some(n) => seq![n],
            None => Seq::empty(),
        })
    }
}

pub fn extract_selected_fields(query: &SqlQuery) -> (r: Option<Vec<String>>)
    ensures
        match (r, spec_selected_fields(*query)) {
            (Some(a), Some(b)) => a.deep_view() == b,
            (None, None) => true,
            _ => false,
        },
{
    let s = match crate::ast::sel_get_select(query) {
        Some(s) => s,
        None => { return None },
    };
    let mut fields: Vec<String> = Vec::new();
    let mut i: usize = 0;
    while i < s.projection.len()
        invariant
            spec_sel_select(*query) == Some(*s),
            i <= s.projection@.len(),
            forall|j: int| 0 <= j < i ==> !(#[trigger] s.projection@[j] is Wildcard),
            fields.deep_view() == spec_ident_fields(s.projection@.subrange(0, i as int)),
        decreases s.projection@.len() - i,
    {
        proof {
            assert(s.projection@.subrange(0, i + 1).drop_last() =~= s.projection@.subrange(
                0,
                i as int,
            ));
            assert(s.projection@.subrange(0, i + 1).last() == s.projection@[i as int]);
        }
        match &s.projection[i] {
            SqlSelectItem::UnnamedExpr(SqlExpr::Identifier(id)) => {
                fields.push(id.clone());
            },
            SqlSelectItem::ExprWithAlias { expr: SqlExpr::Identifier(id), .. } => {
                fields.push(id.clone());
            },
            SqlSelectItem::Wildcard => {
                let mut star: Vec<String> = Vec::new();
                star.push("*".to_owned());
                proof {
                    assert(star.deep_view() =~= seq!["*"@]);
                }
                return Some(star);
            },
            _ => {},
        }
        i += 1;
        proof {
            assert(fields.deep_view() =~= spec_ident_fields(
                s.projection@.subrange(0, i as int),
            ));
        }
    }
    proof {
        assert(s.projection@.subrange(0, s.projection@.len() as int) =~= s.projection@);
    }
    Some(fields)
}

/// True when the first ORDER BY term is `score`, explicitly descending.
pub fn is_ordered_desc(query: &SqlQuery) -> (r: bool)
    ensures
        r == spec_order_by_score_desc(*query),
{
    crate::ast::sel_is_order_by_score_desc(query)
}

/// The WHERE clause of a plain SELECT.
pub fn get_expr_from_query(query: &SqlQuery) -> (r: Option<&SqlExpr>)
    ensures
        match (r, spec_sel_select(*query)) {
            (Some(e), Some(s)) => s.selection == Some(*e),
            (None, Some(s)) => s.selection is None,
            (None, None) => true,
            _ => false,
        },
{
    match &query.body {
        SetExprKind::Select(s) => s.selection.as_ref(),
        _ => None,
    }
}

} // verus!
