// Join extraction for the analysis surface: every join of a SELECT, each
// paired with the first FROM entry's table as its left side.

use vstd::prelude::*;

use crate::ast::{
    Join, JoinOperatorKind, SqlSelect, SqlStatement, SqlTableFactor, SqlTableWithJoins,
};
use crate::pattern::join::{
    JoinCondView, JoinCondition, JoinInfo, JoinInfoView, JoinType, TableInfo, TableInfoView,
    spec_constraint_cond, spec_join_info_view, spec_table_info_view,
};
use crate::pattern::matchers::select::spec_stmt_select;

verus! {

/// The join type as this extractor reads it: the four named forms, and
/// inner for everything else.
pub open spec fn spec_ji_join_type(op: JoinOperatorKind) -> JoinType {
    match op {
        JoinOperatorKind::Inner(_) => JoinType::Inner,
        JoinOperatorKind::Left(_) => JoinType::LeftOuter,
        JoinOperatorKind::Right(_) => JoinType::RightOuter,
        JoinOperatorKind::FullOuter(_) => JoinType::FullOuter,
        _ => JoinType::Inner,
    }
}

pub open spec fn spec_ji_condition(op: JoinOperatorKind) -> JoinCondView {
    match op {
        JoinOperatorKind::Inner(c) => spec_constraint_cond(c),
        JoinOperatorKind::Left(c) => spec_constraint_cond(c),
        JoinOperatorKind::Right(c) => spec_constraint_cond(c),
        JoinOperatorKind::FullOuter(c) => spec_constraint_cond(c),
        _ => JoinCondView::Unconstrained,
    }
}

/// The table info as this extractor reads it: a plain table's first name
/// part (or `unknown`) with its alias, a derived table's alias (or
/// `derived`) marked derived, and `unknown` with no alias for every other
/// factor — unlike `spec_table_info`, a nested join gets no name of its
/// own here.
pub open spec fn spec_ji_table_info(t: SqlTableFactor) -> TableInfoView {
    match t {
        SqlTableFactor::Table { name, alias } => TableInfoView {
            name: if name@.len() > 0 {
                name@[0]@
            } else {
                "unknown"@
            },
            alias: match alias {
                Some(a) => Some(a@),
                None => None,
            },
            is_derived: false,
        },
        SqlTableFactor::Derived { alias, .. } => TableInfoView {
            name: match alias {
                Some(a) => a@,
                None => "derived"@,
            },
            alias: Some(
                match alias {
                    Some(a) => a@,
                    None => "derived"@,
                },
            ),
            is_derived: true,
        },
        _ => TableInfoView { name: "unknown"@, alias: None, is_derived: false },
    }
}

/// Read the table info out of a table factor, nested joins and unsupported
/// factors both falling through to `unknown`.
fn ji_table_info(table: &SqlTableFactor) -> (r: TableInfo)
    ensures
        spec_table_info_view(r) == spec_ji_table_info(*table),
{
    match table {
        SqlTableFactor::Table { name, alias } => {
            let table_name = if name.len() > 0 {
                name[0].clone()
            } else {
                "unknown".to_owned()
            };
            TableInfo {
                name: table_name,
                alias: match alias {
                    Some(a) => Some(a.clone()),
                    None => None,
                },
                is_derived: false,
            }
        },
        SqlTableFactor::Derived { alias, .. } => {
            let alias_name = match alias {
                Some(a) => a.clone(),
                None => "derived".to_owned(),
            };
            TableInfo { name: alias_name.clone(), alias: Some(alias_name), is_derived: true }
        },
        _ => TableInfo { name: "unknown".to_owned(), alias: None, is_derived: false },
    }
}

pub open spec fn spec_ji_items_of(t: SqlTableWithJoins, base: TableInfoView) -> Seq<JoinInfoView> {
    t.joins@.map_values(
        |j: Join| JoinInfoView {
            join_type: spec_ji_join_type(j.join_operator),
            left: base,
            right: spec_ji_table_info(j.relation),
            condition: spec_ji_condition(j.join_operator),
        },
    )
}

pub open spec fn spec_ji_items(from: Seq<SqlTableWithJoins>, base: TableInfoView) -> Seq<
    JoinInfoView,
>
    decreases from.len(),
{
    if from.len() == 0 {
        Seq::empty()
    } else {
        spec_ji_items(from.drop_last(), base) + spec_ji_items_of(from.last(), base)
    }
}

/// What join extraction yields for a statement: every join of the SELECT
/// paired with the first FROM entry's table on the left, or nothing when
/// the statement has no FROM entry or no join at all.
pub open spec fn spec_extract_join_info(stmt: SqlStatement) -> Option<Seq<JoinInfoView>> {
    match spec_stmt_select(stmt) {
        Some(s) => {
            if s.from@.len() == 0 {
                None
            } else {
                let items = spec_ji_items(s.from@, spec_ji_table_info(s.from@[0].relation));
                if items.len() == 0 {
                    None
                } else {
                    Some(items)
                }
            }
        },
        None => None,
    }
}

fn ji_join_type(op: &JoinOperatorKind) -> (r: JoinType)
    ensures
        r == spec_ji_join_type(*op),
{
    match op {
        JoinOperatorKind::Inner(_) => JoinType::Inner,
        JoinOperatorKind::Left(_) => JoinType::LeftOuter,
        JoinOperatorKind::Right(_) => JoinType::RightOuter,
        JoinOperatorKind::FullOuter(_) => JoinType::FullOuter,
        _ => JoinType::Inner,
    }
}

fn ji_condition<'a>(op: &'a JoinOperatorKind) -> (r: JoinCondition<'a>)
    ensures
        crate::pattern::join::spec_join_cond_view(r) == spec_ji_condition(*op),
{
    match op {
        JoinOperatorKind::Inner(c) => crate::pattern::join::constraint_cond(c),
        JoinOperatorKind::Left(c) => crate::pattern::join::constraint_cond(c),
        JoinOperatorKind::Right(c) => crate::pattern::join::constraint_cond(c),
        JoinOperatorKind::FullOuter(c) => crate::pattern::join::constraint_cond(c),
        _ => JoinCondition::Unconstrained,
    }
}

/// Extract join information from a query.
pub fn extract_join_info<'a>(stmt: &'a SqlStatement) -> (r: Option<Vec<JoinInfo<'a>>>)
    ensures
        match (r, spec_extract_join_info(*stmt)) {
            (Some(a), Some(b)) => a@.len() == b.len() && (forall|m: int|
                0 <= m < a@.len() ==> spec_join_info_view(#[trigger] a@[m]) == b[m]),
            (None, None) => true,
            _ => false,
        },
{
    let s: &SqlSelect = match crate::ast::sel_get_query(stmt) {
        Some(q) => match crate::ast::sel_get_select(q) {
            Some(s) => s,
            None => { return None },
        },
        None => { return None },
    };
    if s.from.len() == 0 {
        return None;
    }
    let ghost base = spec_ji_table_info(s.from@[0].relation);
    let mut joins: Vec<JoinInfo<'a>> = Vec::new();
    let mut i: usize = 0;
    proof {
        assert(s.from@.subrange(0, 0) =~= Seq::<SqlTableWithJoins>::empty());
    }
    while i < s.from.len()
        invariant
            spec_stmt_select(*stmt) == Some(*s),
            s.from@.len() > 0,
            base == spec_ji_table_info(s.from@[0].relation),
            i <= s.from@.len(),
            joins@.len() == spec_ji_items(s.from@.subrange(0, i as int), base).len(),
            forall|m: int|
                0 <= m < joins@.len() ==> spec_join_info_view(#[trigger] joins@[m])
                    == spec_ji_items(s.from@.subrange(0, i as int), base)[m],
        decreases s.from@.len() - i,
    {
        let ghost prefix = spec_ji_items(s.from@.subrange(0, i as int), base);
        let ghost gj = spec_ji_items_of(s.from@[i as int], base);
        let table = &s.from[i];
        let mut k: usize = 0;
        while k < table.joins.len()
            invariant
                i < s.from@.len(),
                *table == s.from@[i as int],
                base == spec_ji_table_info(s.from@[0].relation),
                prefix == spec_ji_items(s.from@.subrange(0, i as int), base),
                gj == spec_ji_items_of(s.from@[i as int], base),
                gj.len() == table.joins@.len(),
                k <= table.joins@.len(),
                joins@.len() == prefix.len() + k,
                forall|m: int|
                    0 <= m < prefix.len() ==> spec_join_info_view(#[trigger] joins@[m])
                        == prefix[m],
                forall|m: int|
                    prefix.len() <= m < joins@.len() ==> spec_join_info_view(
                        #[trigger] joins@[m],
                    ) == gj[m - prefix.len()],
            decreases table.joins@.len() - k,
        {
            let j = &table.joins[k];
            let left = ji_table_info(&s.from[0].relation);
            let right = ji_table_info(&j.relation);
            let join_type = ji_join_type(&j.join_operator);
            let condition = ji_condition(&j.join_operator);
            joins.push(JoinInfo { join_type, left, right, condition });
            k += 1;
            proof {
                assert(spec_join_info_view(joins@.last()) == gj[k - 1]);
            }
        }
        i += 1;
        proof {
            assert(s.from@.subrange(0, i as int).drop_last() =~= s.from@.subrange(0, i - 1));
            assert(s.from@.subrange(0, i as int).last() == s.from@[i - 1]);
            assert(spec_ji_items(s.from@.subrange(0, i as int), base) == prefix + gj);
        }
    }
    proof {
        assert(s.from@.subrange(0, s.from@.len() as int) =~= s.from@);
    }
    if joins.len() == 0 {
        None
    } else {
        Some(joins)
    }
}

} // verus!
