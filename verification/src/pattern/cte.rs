// Common-table-expression analysis utilities: the CTEs of a WITH clause,
// the CTE names a query's FROM clause references, and recursion detection.
// An optional analysis surface; nothing here feeds command generation.

use vstd::prelude::*;

use crate::ast::{Cte, Join, SqlQuery, SqlStatement, SqlTableFactor, SqlTableWithJoins};
use crate::ast::select::spec_sel_select;

verus! {

/// Information about one CTE, borrowing its defining query.
pub struct CteInfo<'a> {
    /// The name of the CTE
    pub name: String,
    /// Optional column names
    pub column_names: Vec<String>,
    /// The query that defines the CTE
    pub query: &'a SqlQuery,
    /// Whether the WITH clause is marked recursive
    pub recursive: bool,
}

/// The mathematical shape of a `CteInfo`.
#[verifier::ext_equal]
pub struct CteView {
    pub name: Seq<char>,
    pub column_names: Seq<Seq<char>>,
    pub query: SqlQuery,
    pub recursive: bool,
}

pub open spec fn spec_cte_info_view(c: CteInfo) -> CteView {
    CteView {
        name: c.name@,
        column_names: c.column_names.deep_view(),
        query: *c.query,
        recursive: c.recursive,
    }
}

/// The CTEs a statement's WITH clause declares, each carrying the clause's
/// recursion flag.
pub open spec fn spec_all_ctes(stmt: SqlStatement) -> Seq<CteView> {
    match stmt {
        SqlStatement::Query(q) => match (*q).with {
            Some(w) => w.cte_tables@.map_values(
                |c: Cte| CteView {
                    name: c.name@,
                    column_names: c.columns.deep_view(),
                    query: *c.query,
                    recursive: w.recursive,
                },
            ),
            None => Seq::empty(),
        },
        _ => Seq::empty(),
    }
}

/// Extract all CTEs from a statement.
pub fn extract_all_ctes<'a>(stmt: &'a SqlStatement) -> (r: Vec<CteInfo<'a>>)
    ensures
        r@.len() == spec_all_ctes(*stmt).len(),
        forall|m: int|
            0 <= m < r@.len() ==> spec_cte_info_view(#[trigger] r@[m]) == spec_all_ctes(*stmt)[m],
{
    let w = match stmt {
        SqlStatement::Query(q) => match &q.with {
            Some(w) => w,
            None => { return Vec::new() },
        },
        _ => { return Vec::new() },
    };
    let mut out: Vec<CteInfo<'a>> = Vec::new();
    let mut i: usize = 0;
    while i < w.cte_tables.len()
        invariant
            stmt matches SqlStatement::Query(q) && (*q).with == Some(*w),
            i <= w.cte_tables@.len(),
            out@.len() == i,
            forall|m: int|
                0 <= m < i ==> spec_cte_info_view(#[trigger] out@[m]) == spec_all_ctes(*stmt)[m],
        decreases w.cte_tables@.len() - i,
    {
        let c = &w.cte_tables[i];
        let mut cols: Vec<String> = Vec::new();
        let mut k: usize = 0;
        while k < c.columns.len()
            invariant
                k <= c.columns@.len(),
                cols@.len() == k,
                forall|m: int| 0 <= m < k ==> #[trigger] cols@[m]@ == c.columns@[m]@,
            decreases c.columns@.len() - k,
        {
            cols.push(c.columns[k].clone());
            k += 1;
        }
        proof {
            assert(cols.deep_view() =~= c.columns.deep_view());
        }
        out.push(
            CteInfo {
                name: c.name.clone(),
                column_names: cols,
                query: &c.query,
                recursive: w.recursive,
            },
        );
        i += 1;
    }
    out
}

/// Whether `names` holds `name`.
pub open spec fn spec_name_listed(names: Seq<Seq<char>>, name: Seq<char>) -> bool {
    exists|j: int| 0 <= j < names.len() && names[j] == name
}

/// The CTE name referenced by one table factor: a plain table whose first
/// name part is one of the declared names.
pub open spec fn spec_factor_ref(t: SqlTableFactor, names: Seq<Seq<char>>) -> Seq<Seq<char>> {
    match t {
        SqlTableFactor::Table { name, .. } => {
            if name@.len() > 0 && spec_name_listed(names, name@[0]@) {
                seq![name@[0]@]
            } else {
                Seq::empty()
            }
        },
        _ => Seq::empty(),
    }
}

pub open spec fn spec_join_refs(joins: Seq<Join>, names: Seq<Seq<char>>) -> Seq<Seq<char>>
    decreases joins.len(),
{
    if joins.len() == 0 {
        Seq::empty()
    } else {
        spec_join_refs(joins.drop_last(), names) + spec_factor_ref(joins.last().relation, names)
    }
}

pub open spec fn spec_table_refs(t: SqlTableWithJoins, names: Seq<Seq<char>>) -> Seq<Seq<char>> {
    spec_factor_ref(t.relation, names) + spec_join_refs(t.joins@, names)
}

pub open spec fn spec_from_refs(from: Seq<SqlTableWithJoins>, names: Seq<Seq<char>>) -> Seq<
    Seq<char>,
>
    decreases from.len(),
{
    if from.len() == 0 {
        Seq::empty()
    } else {
        spec_from_refs(from.drop_last(), names) + spec_table_refs(from.last(), names)
    }
}

/// The declared CTE names a query's FROM clause references, base tables
/// and joined tables alike, in order.
pub open spec fn spec_cte_refs(q: SqlQuery, names: Seq<Seq<char>>) -> Seq<Seq<char>> {
    match spec_sel_select(q) {
        Some(s) => spec_from_refs(s.from@, names),
        None => Seq::empty(),
    }
}

fn name_listed(names: &Vec<String>, name: &String) -> (r: bool)
    ensures
        r == spec_name_listed(names.deep_view(), name@),
{
    let mut j: usize = 0;
    while j < names.len()
        invariant
            j <= names@.len(),
            forall|m: int| 0 <= m < j ==> #[trigger] names.deep_view()[m] != name@,
        decreases names@.len() - j,
    {
        if crate::ast::insert::substr_eq(&names[j], name.as_str()) {
            assert(names.deep_view()[j as int] == name@);
            return true;
        }
        j += 1;
    }
    false
}

fn factor_ref(t: &SqlTableFactor, names: &Vec<String>, out: &mut Vec<String>)
    ensures
        final(out)@.len() == old(out)@.len() + spec_factor_ref(*t, names.deep_view()).len(),
        forall|m: int|
            0 <= m < old(out)@.len() ==> #[trigger] final(out)@[m] == old(out)@[m],
        forall|m: int|
            old(out)@.len() <= m < final(out)@.len() ==> #[trigger] final(out)@[m]@
                == spec_factor_ref(*t, names.deep_view())[m - old(out)@.len()],
{
    match t {
        SqlTableFactor::Table { name, .. } => {
            if name.len() > 0 && name_listed(names, &name[0]) {
                out.push(name[0].clone());
            }
        },
        _ => {},
    }
}

/// Check which declared CTE names a query references in its FROM clause.
pub fn find_cte_references(query: &SqlQuery, cte_names: &Vec<String>) -> (r: Vec<String>)
    ensures
        r@.len() == spec_cte_refs(*query, cte_names.deep_view()).len(),
        forall|m: int|
            0 <= m < r@.len() ==> #[trigger] r@[m]@ == spec_cte_refs(
                *query,
                cte_names.deep_view(),
            )[m],
{
    let ghost gnames = cte_names.deep_view();
    let s = match crate::ast::sel_get_select(query) {
        Some(s) => s,
        None => { return Vec::new() },
    };
    let mut refs: Vec<String> = Vec::new();
    let mut i: usize = 0;
    proof {
        assert(s.from@.subrange(0, 0) =~= Seq::<SqlTableWithJoins>::empty());
    }
    while i < s.from.len()
        invariant
            spec_sel_select(*query) == Some(*s),
            gnames == cte_names.deep_view(),
            i <= s.from@.len(),
            refs@.len() == spec_from_refs(s.from@.subrange(0, i as int), gnames).len(),
            forall|m: int|
                0 <= m < refs@.len() ==> #[trigger] refs@[m]@ == spec_from_refs(
                    s.from@.subrange(0, i as int),
                    gnames,
                )[m],
        decreases s.from@.len() - i,
    {
        let ghost prefix = spec_from_refs(s.from@.subrange(0, i as int), gnames);
        let ghost gt = spec_table_refs(s.from@[i as int], gnames);
        let table = &s.from[i];
        factor_ref(&table.relation, cte_names, &mut refs);
        let mut k: usize = 0;
        while k < table.joins.len()
            invariant
                i < s.from@.len(),
                *table == s.from@[i as int],
                gnames == cte_names.deep_view(),
                prefix == spec_from_refs(s.from@.subrange(0, i as int), gnames),
                k <= table.joins@.len(),
                refs@.len() == prefix.len() + spec_factor_ref(table.relation, gnames).len()
                    + spec_join_refs(table.joins@.subrange(0, k as int), gnames).len(),
                forall|m: int|
                    0 <= m < prefix.len() ==> #[trigger] refs@[m]@ == prefix[m],
                forall|m: int|
                    prefix.len() <= m < refs@.len() ==> #[trigger] refs@[m]@ == (spec_factor_ref(
                        table.relation,
                        gnames,
                    ) + spec_join_refs(table.joins@.subrange(0, k as int), gnames))[m
                        - prefix.len()],
            decreases table.joins@.len() - k,
        {
            proof {
                assert(table.joins@.subrange(0, k + 1).drop_last() =~= table.joins@.subrange(
                    0,
                    k as int,
                ));
                assert(table.joins@.subrange(0, k + 1).last() == table.joins@[k as int]);
            }
            factor_ref(&table.joins[k].relation, cte_names, &mut refs);
            k += 1;
        }
        i += 1;
        proof {
            assert(table.joins@.subrange(0, table.joins@.len() as int) =~= table.joins@);
            assert(s.from@.subrange(0, i as int).drop_last() =~= s.from@.subrange(0, i - 1));
            assert(s.from@.subrange(0, i as int).last() == s.from@[i - 1]);
            assert(spec_from_refs(s.from@.subrange(0, i as int), gnames) == prefix + gt);
        }
    }
    proof {
        assert(s.from@.subrange(0, s.from@.len() as int) =~= s.from@);
    }
    refs
}

/// Whether a CTE is recursive: its WITH clause says so, or its own name is
/// among the declared names its query references.
pub open spec fn spec_is_recursive_cte(c: CteView, names: Seq<Seq<char>>) -> bool {
    c.recursive || spec_name_listed(spec_cte_refs(c.query, names), c.name)
}

/// Check if a CTE is recursive, against the full list of declared CTEs.
pub fn is_recursive_cte(cte: &CteInfo, all_ctes: &Vec<CteInfo>) -> (r: bool)
    ensures
        r == spec_is_recursive_cte(
            spec_cte_info_view(*cte),
            all_ctes@.map_values(|c: CteInfo| c.name@),
        ),
{
    if cte.recursive {
        return true;
    }
    let mut names: Vec<String> = Vec::new();
    let mut i: usize = 0;
    while i < all_ctes.len()
        invariant
            i <= all_ctes@.len(),
            names@.len() == i,
            forall|m: int| 0 <= m < i ==> #[trigger] names@[m]@ == all_ctes@[m].name@,
        decreases all_ctes@.len() - i,
    {
        names.push(all_ctes[i].name.clone());
        i += 1;
    }
    proof {
        assert(names.deep_view() =~= all_ctes@.map_values(|c: CteInfo| c.name@));
    }
    let refs = find_cte_references(cte.query, &names);
    let mut j: usize = 0;
    let ghost grefs = spec_cte_refs(*cte.query, names.deep_view());
    while j < refs.len()
        invariant
            names.deep_view() == all_ctes@.map_values(|c: CteInfo| c.name@),
            grefs == spec_cte_refs(*cte.query, names.deep_view()),
            refs@.len() == grefs.len(),
            forall|m: int| 0 <= m < refs@.len() ==> #[trigger] refs@[m]@ == grefs[m],
            j <= refs@.len(),
            forall|m: int| 0 <= m < j ==> #[trigger] grefs[m] != cte.name@,
        decreases refs@.len() - j,
    {
        if crate::ast::insert::substr_eq(&refs[j], cte.name.as_str()) {
            proof {
                assert(grefs[j as int] == cte.name@);
                assert(spec_name_listed(grefs, cte.name@));
            }
            return true;
        }
        j += 1;
    }
    proof {
        assert(!spec_name_listed(grefs, cte.name@));
    }
    false
}

} // verus!
