// JOIN analysis utilities. These read structural facts out of a SELECT —
// join type, joined tables, join condition — as an optional analysis
// surface; nothing here feeds command generation.

use vstd::prelude::*;

use crate::ast::{
    BinOp, Join, JoinConstraintKind, JoinOperatorKind, SqlExpr, SqlSelect, SqlTableFactor,
    SqlTableWithJoins,
};

verus! {

/// Types of JOIN operations.
#[derive(Debug, Clone, Copy, PartialEq, Eq, Structural)]
pub enum JoinType {
    Inner,
    LeftOuter,
    RightOuter,
    FullOuter,
    Cross,
    Natural,
}

/// A JOIN condition, borrowing the ON expression from the statement.
pub enum JoinCondition<'a> {
    On(&'a SqlExpr),
    Using(Vec<String>),
    Natural,
    Unconstrained,
}

/// Information about a table.
#[derive(Debug, Clone)]
pub struct TableInfo {
    /// Table name or alias
    pub name: String,
    /// Table alias if specified
    pub alias: Option<String>,
    /// Is this a derived table (subquery)
    pub is_derived: bool,
}

/// Information about a JOIN relationship.
pub struct JoinInfo<'a> {
    pub join_type: JoinType,
    pub left: TableInfo,
    pub right: TableInfo,
    pub condition: JoinCondition<'a>,
}

/// The mathematical shape of a `TableInfo`.
#[verifier::ext_equal]
pub struct TableInfoView {
    pub name: Seq<char>,
    pub alias: Option<Seq<char>>,
    pub is_derived: bool,
}

/// The mathematical shape of a `JoinCondition`.
#[verifier::ext_equal]
pub enum JoinCondView {
    On(SqlExpr),
    Using(Seq<Seq<char>>),
    Natural,
    Unconstrained,
}

/// The mathematical shape of a `JoinInfo`.
#[verifier::ext_equal]
pub struct JoinInfoView {
    pub join_type: JoinType,
    pub left: TableInfoView,
    pub right: TableInfoView,
    pub condition: JoinCondView,
}

pub open spec fn spec_table_info_view(i: TableInfo) -> TableInfoView {
    TableInfoView {
        name: i.name@,
        alias: match i.alias {
            Some(a) => Some(a@),
            None => None,
        },
        is_derived: i.is_derived,
    }
}

pub open spec fn spec_join_cond_view(c: JoinCondition) -> JoinCondView {
    match c {
        JoinCondition::On(e) => JoinCondView::On(*e),
        JoinCondition::Using(cols) => JoinCondView::Using(cols.deep_view()),
        JoinCondition::Natural => JoinCondView::Natural,
        JoinCondition::Unconstrained => JoinCondView::Unconstrained,
    }
}

pub open spec fn spec_join_info_view(j: JoinInfo) -> JoinInfoView {
    JoinInfoView {
        join_type: j.join_type,
        left: spec_table_info_view(j.left),
        right: spec_table_info_view(j.right),
        condition: spec_join_cond_view(j.condition),
    }
}

/// The table info a factor stands for: a plain table's first name part (or
/// `unknown`); a derived table's alias (or `derived`), marked derived; a
/// nested join's alias (or `nested`).
pub open spec fn spec_table_info(t: SqlTableFactor) -> TableInfoView {
    match t {
        SqlTableFactor::Table { name, alias } => TableInfoView {
            name: if name@.len() > 0 {
                name@[0]@
            } else {
                "unknown"@
            },
            alias: match alias {
                Some(a) => Some(a@),
                None => None,
            },
            is_derived: false,
        },
        SqlTableFactor::Derived { alias, .. } => TableInfoView {
            name: match alias {
                Some(a) => a@,
                None => "derived"@,
            },
            alias: Some(
                match alias {
                    Some(a) => a@,
                    None => "derived"@,
                },
            ),
            is_derived: true,
        },
        SqlTableFactor::NestedJoin { alias } => TableInfoView {
            name: match alias {
                Some(a) => a@,
                None => "nested"@,
            },
            alias: Some(
                match alias {
                    Some(a) => a@,
                    None => "nested"@,
                },
            ),
            is_derived: false,
        },
        SqlTableFactor::Unsupported => TableInfoView {
            name: "unknown"@,
            alias: None,
            is_derived: false,
        },
    }
}

/// Read the table info out of a table factor.
pub fn table_info_from_factor(table: &SqlTableFactor) -> (r: TableInfo)
    ensures
        spec_table_info_view(r) == spec_table_info(*table),
{
    match table {
        SqlTableFactor::Table { name, alias } => {
            let table_name = if name.len() > 0 {
                name[0].clone()
            } else {
                "unknown".to_owned()
            };
            TableInfo {
                name: table_name,
                alias: match alias {
                    Some(a) => Some(a.clone()),
                    None => None,
                },
                is_derived: false,
            }
        },
        SqlTableFactor::Derived { alias, .. } => {
            let alias_name = match alias {
                Some(a) => a.clone(),
                None => "derived".to_owned(),
            };
            TableInfo { name: alias_name.clone(), alias: Some(alias_name), is_derived: true }
        },
        SqlTableFactor::NestedJoin { alias } => {
            let alias_name = match alias {
                Some(a) => a.clone(),
                None => "nested".to_owned(),
            };
            TableInfo { name: alias_name.clone(), alias: Some(alias_name), is_derived: false }
        },
        SqlTableFactor::Unsupported => TableInfo {
            name: "unknown".to_owned(),
            alias: None,
            is_derived: false,
        },
    }
}

/// The join type of an operator: the apply forms count as cross or left
/// outer joins, and anything unrecognized as natural.
pub open spec fn spec_join_type(op: JoinOperatorKind) -> JoinType {
    match op {
        JoinOperatorKind::Inner(_) => JoinType::Inner,
        JoinOperatorKind::LeftOuter(_) => JoinType::LeftOuter,
        JoinOperatorKind::RightOuter(_) => JoinType::RightOuter,
        JoinOperatorKind::FullOuter(_) => JoinType::FullOuter,
        JoinOperatorKind::CrossJoin => JoinType::Cross,
        JoinOperatorKind::CrossApply => JoinType::Cross,
        JoinOperatorKind::OuterApply => JoinType::LeftOuter,
        _ => JoinType::Natural,
    }
}

/// The condition carried by an operator that has one; the cross and apply
/// forms are unconstrained.
pub open spec fn spec_join_condition(op: JoinOperatorKind) -> JoinCondView {
    match op {
        JoinOperatorKind::Inner(c) => spec_constraint_cond(c),
        JoinOperatorKind::LeftOuter(c) => spec_constraint_cond(c),
        JoinOperatorKind::RightOuter(c) => spec_constraint_cond(c),
        JoinOperatorKind::FullOuter(c) => spec_constraint_cond(c),
        _ => JoinCondView::Unconstrained,
    }
}

pub open spec fn spec_constraint_cond(c: JoinConstraintKind) -> JoinCondView {
    match c {
        JoinConstraintKind::On(e) => JoinCondView::On(e),
        JoinConstraintKind::Using(cols) => JoinCondView::Using(cols.deep_view()),
        JoinConstraintKind::Natural => JoinCondView::Natural,
        JoinConstraintKind::Unconstrained => JoinCondView::Unconstrained,
    }
}

fn join_condition_of<'a>(op: &'a JoinOperatorKind) -> (r: JoinCondition<'a>)
    ensures
        spec_join_cond_view(r) == spec_join_condition(*op),
{
    match op {
        JoinOperatorKind::Inner(c) => constraint_cond(c),
        JoinOperatorKind::LeftOuter(c) => constraint_cond(c),
        JoinOperatorKind::RightOuter(c) => constraint_cond(c),
        JoinOperatorKind::FullOuter(c) => constraint_cond(c),
        _ => JoinCondition::Unconstrained,
    }
}

pub fn constraint_cond<'a>(c: &'a JoinConstraintKind) -> (r: JoinCondition<'a>)
    ensures
        spec_join_cond_view(r) == spec_constraint_cond(*c),
{
    match c {
        JoinConstraintKind::On(e) => JoinCondition::On(e),
        JoinConstraintKind::Using(cols) => {
            let mut out: Vec<String> = Vec::new();
            let mut i: usize = 0;
            while i < cols.len()
                invariant
                    i <= cols@.len(),
                    out@.len() == i,
                    forall|j: int| 0 <= j < i ==> #[trigger] out@[j]@ == cols@[j]@,
                decreases cols@.len() - i,
            {
                out.push(cols[i].clone());
                i += 1;
            }
            proof {
                assert(out.deep_view() =~= cols.deep_view());
            }
            JoinCondition::Using(out)
        },
        JoinConstraintKind::Natural => JoinCondition::Natural,
        JoinConstraintKind::Unconstrained => JoinCondition::Unconstrained,
    }
}

fn join_type_of(op: &JoinOperatorKind) -> (r: JoinType)
    ensures
        r == spec_join_type(*op),
{
    match op {
        JoinOperatorKind::Inner(_) => JoinType::Inner,
        JoinOperatorKind::LeftOuter(_) => JoinType::LeftOuter,
        JoinOperatorKind::RightOuter(_) => JoinType::RightOuter,
        JoinOperatorKind::FullOuter(_) => JoinType::FullOuter,
        JoinOperatorKind::CrossJoin => JoinType::Cross,
        JoinOperatorKind::CrossApply => JoinType::Cross,
        JoinOperatorKind::OuterApply => JoinType::LeftOuter,
        _ => JoinType::Natural,
    }
}

/// The join records of one FROM entry: its base table joined to each of its
/// join partners in order.
pub open spec fn spec_joins_of(t: SqlTableWithJoins) -> Seq<JoinInfoView> {
    t.joins@.map_values(
        |j: Join| JoinInfoView {
            join_type: spec_join_type(j.join_operator),
            left: spec_table_info(t.relation),
            right: spec_table_info(j.relation),
            condition: spec_join_condition(j.join_operator),
        },
    )
}

pub open spec fn spec_all_joins(from: Seq<SqlTableWithJoins>) -> Seq<JoinInfoView>
    decreases from.len(),
{
    if from.len() == 0 {
        Seq::empty()
    } else {
        spec_all_joins(from.drop_last()) + spec_joins_of(from.last())
    }
}

/// Extract all JOIN relationships from a SELECT statement, in order.
pub fn extract_all_joins<'a>(select: &'a SqlSelect) -> (r: Vec<JoinInfo<'a>>)
    ensures
        r@.len() == spec_all_joins(select.from@).len(),
        forall|m: int|
            0 <= m < r@.len() ==> spec_join_info_view(#[trigger] r@[m]) == spec_all_joins(
                select.from@,
            )[m],
{
    let mut joins: Vec<JoinInfo<'a>> = Vec::new();
    let mut i: usize = 0;
    proof {
        assert(select.from@.subrange(0, 0) =~= Seq::<SqlTableWithJoins>::empty());
    }
    while i < select.from.len()
        invariant
            i <= select.from@.len(),
            joins@.len() == spec_all_joins(select.from@.subrange(0, i as int)).len(),
            forall|m: int|
                0 <= m < joins@.len() ==> spec_join_info_view(#[trigger] joins@[m])
                    == spec_all_joins(select.from@.subrange(0, i as int))[m],
        decreases select.from@.len() - i,
    {
        let ghost prefix = spec_all_joins(select.from@.subrange(0, i as int));
        let ghost gj = spec_joins_of(select.from@[i as int]);
        let table = &select.from[i];
        let mut k: usize = 0;
        while k < table.joins.len()
            invariant
                i < select.from@.len(),
                *table == select.from@[i as int],
                prefix == spec_all_joins(select.from@.subrange(0, i as int)),
                gj == spec_joins_of(select.from@[i as int]),
                gj.len() == table.joins@.len(),
                k <= table.joins@.len(),
                joins@.len() == prefix.len() + k,
                forall|m: int|
                    0 <= m < prefix.len() ==> spec_join_info_view(#[trigger] joins@[m])
                        == prefix[m],
                forall|m: int|
                    prefix.len() <= m < joins@.len() ==> spec_join_info_view(
                        #[trigger] joins@[m],
                    ) == gj[m - prefix.len()],
            decreases table.joins@.len() - k,
        {
            let j = &table.joins[k];
            let left_table = table_info_from_factor(&table.relation);
            let right_table = table_info_from_factor(&j.relation);
            let join_type = join_type_of(&j.join_operator);
            let condition = join_condition_of(&j.join_operator);
            joins.push(JoinInfo { join_type, left: left_table, right: right_table, condition });
            k += 1;
            proof {
                assert(spec_join_info_view(joins@.last()) == gj[k - 1]);
            }
        }
        i += 1;
        proof {
            assert(select.from@.subrange(0, i as int).drop_last() =~= select.from@.subrange(
                0,
                i - 1,
            ));
            assert(select.from@.subrange(0, i as int).last() == select.from@[i - 1]);
            assert(spec_all_joins(select.from@.subrange(0, i as int)) == prefix + gj);
        }
    }
    proof {
        assert(select.from@.subrange(0, select.from@.len() as int) =~= select.from@);
    }
    joins
}

/// An equi-join condition: `left.col = right.col` over two-part compound
/// identifiers.
pub open spec fn spec_is_equi_join_expr(e: SqlExpr) -> bool {
    match e {
        SqlExpr::BinaryOp { op, left, right } => op == BinOp::Eq && (match (*left, *right) {
            (SqlExpr::CompoundIdentifier(l), SqlExpr::CompoundIdentifier(r)) => l@.len() == 2
                && r@.len() == 2,
            _ => false,
        }),
        _ => false,
    }
}

/// The four parts of an equi-join condition: left table, left column,
/// right table, right column.
pub fn equi_join_condition_parts(expr: &SqlExpr) -> (r: Option<(String, String, String, String)>)
    ensures
        r is Some <==> spec_is_equi_join_expr(*expr),
        match r {
            Some(parts) => (match *expr {
                SqlExpr::BinaryOp { left, right, .. } => (match (*left, *right) {
                    (SqlExpr::CompoundIdentifier(l), SqlExpr::CompoundIdentifier(q)) => parts.0@
                        == l@[0]@ && parts.1@ == l@[1]@ && parts.2@ == q@[0]@ && parts.3@
                        == q@[1]@,
                    _ => false,
                }),
                _ => false,
            }),
            None => true,
        },
{
    match expr {
        SqlExpr::BinaryOp { op, left, right } => {
            if *op != BinOp::Eq {
                return None;
            }
            match (&**left, &**right) {
                (SqlExpr::CompoundIdentifier(l), SqlExpr::CompoundIdentifier(q)) => {
                    if l.len() == 2 && q.len() == 2 {
                        Some((l[0].clone(), l[1].clone(), q[0].clone(), q[1].clone()))
                    } else {
                        None
                    }
                },
                _ => None,
            }
        },
        _ => None,
    }
}

pub open spec fn spec_is_equi_join(c: JoinCondView) -> bool {
    match c {
        JoinCondView::On(e) => spec_is_equi_join_expr(e),
        JoinCondView::Using(_) => true,
        _ => false,
    }
}

/// Check if a join is an equi-join: an `ON a.col = b.col` condition, or any
/// USING clause.
pub fn is_equi_join(join_info: &JoinInfo) -> (r: bool)
    ensures
        r == spec_is_equi_join(spec_join_cond_view(join_info.condition)),
{
    match &join_info.condition {
        JoinCondition::On(e) => equi_join_condition_parts(e).is_some(),
        JoinCondition::Using(_) => true,
        _ => false,
    }
}

} // verus!
