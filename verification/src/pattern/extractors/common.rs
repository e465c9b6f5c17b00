// Shared condition walking for the direct command generator: key lookup
// through conjunctions, the flattened condition map with nested AND/OR
// structure, and the table-type text used by the generator's dispatch.

use vstd::prelude::*;

use crate::ast::delete::spec_field_condition;
use crate::ast::{BinOp, SqlExpr, SqlTableFactor};
use crate::pattern::matchers::common::{RedisDataType, spec_table_kind};
use crate::strutil::{spec_ends_with, str_ends_with};

verus! {

/// One value of the flattened condition map.
pub enum ConditionValue {
    String(String),
    Number(String),
    Comparison(BinOp, String),
    OrCondition(Box<Vec<(String, ConditionValue)>>, Box<Vec<(String, ConditionValue)>>),
    Unknown,
}

/// The mathematical shape of a `ConditionValue`.
#[verifier::ext_equal]
pub enum CondValView {
    Str(Seq<char>),
    Num(Seq<char>),
    Cmp(BinOp, Seq<char>),
    OrCond(Map<Seq<char>, CondValView>, Map<Seq<char>, CondValView>),
    Unknown,
}

pub open spec fn spec_cond_value_view(v: ConditionValue) -> CondValView
    decreases v,
{
    match v {
        ConditionValue::String(s) => CondValView::Str(s@),
        ConditionValue::Number(n) => CondValView::Num(n@),
        ConditionValue::Comparison(op, n) => CondValView::Cmp(op, n@),
        ConditionValue::OrCondition(l, r) => CondValView::OrCond(
            spec_cond_pairs_view((*l)@),
            spec_cond_pairs_view((*r)@),
        ),
        ConditionValue::Unknown => CondValView::Unknown,
    }
}

/// The map a list of named condition values stands for; a later entry
/// overwrites an earlier one with the same name.
pub open spec fn spec_cond_pairs_view(s: Seq<(String, ConditionValue)>) -> Map<
    Seq<char>,
    CondValView,
>
    decreases s,
{
    if s.len() == 0 {
        Map::empty()
    } else {
        spec_cond_pairs_view(s.drop_last()).insert(
            s.last().0@,
            spec_cond_value_view(s.last().1),
        )
    }
}

/// The flattened view of a WHERE expression: equalities and comparisons
/// become named entries, AND merges both sides (right side winning on a
/// duplicate name), OR becomes one composite entry, parentheses are
/// transparent, and everything else contributes nothing.
pub open spec fn spec_complex_conditions(e: SqlExpr) -> Map<Seq<char>, CondValView>
    decreases e,
{
    match e {
        SqlExpr::BinaryOp { op, left, right } => {
            if op == BinOp::Eq {
                match *left {
                    SqlExpr::Identifier(id) => match *right {
                        SqlExpr::Value(v) => map![id@ => spec_eq_cond_view(v)],
                        _ => Map::empty(),
                    },
                    _ => Map::empty(),
                }
            } else if op == BinOp::Gt || op == BinOp::Lt || op == BinOp::GtEq || op
                == BinOp::LtEq {
                match *left {
                    SqlExpr::Identifier(id) => match *right {
                        SqlExpr::Value(crate::ast::LiteralValue::Number(n)) => map![id@ =>
                            CondValView::Cmp(op, n@)],
                        _ => Map::empty(),
                    },
                    _ => Map::empty(),
                }
            } else if op == BinOp::And {
                spec_complex_conditions(*left).union_prefer_right(spec_complex_conditions(*right))
            } else if op == BinOp::Or {
                map!["OR_CONDITION"@ => CondValView::OrCond(
                    spec_complex_conditions(*left),
                    spec_complex_conditions(*right),
                )]
            } else {
                Map::empty()
            }
        },
        SqlExpr::Nested(inner) => spec_complex_conditions(*inner),
        _ => Map::empty(),
    }
}

pub open spec fn spec_eq_cond_view(v: crate::ast::LiteralValue) -> CondValView {
    match v {
        crate::ast::LiteralValue::SingleQuoted(s) => CondValView::Str(s@),
        crate::ast::LiteralValue::DoubleQuoted(s) => CondValView::Str(s@),
        crate::ast::LiteralValue::Number(n) => CondValView::Num(n@),
        crate::ast::LiteralValue::Unsupported => CondValView::Unknown,
    }
}

/// Helper to extract key from condition, searching conjunctions depth-first.
pub fn extract_key_from_condition(expr: &SqlExpr) -> (r: Option<String>)
    ensures
        match (r, spec_field_condition(*expr, "key"@)) {
            (Some(a), Some(b)) => a@ == b,
            (None, None) => true,
            _ => false,
        },
{
    crate::ast::delete::extract_field_condition(expr, "key")
}

/// Process complex conditions with nested AND/OR into named entries whose
/// pair list, read as a map, equals the flattened condition view.
pub fn extract_complex_conditions(expr: &SqlExpr) -> (r: Vec<(String, ConditionValue)>)
    ensures
        spec_cond_pairs_view(r@) == spec_complex_conditions(*expr),
    decreases *expr,
{
    let mut conditions: Vec<(String, ConditionValue)> = Vec::new();
    match expr {
        SqlExpr::BinaryOp { op, left, right } => {
            if *op == BinOp::Eq {
                match (&**left, &**right) {
                    (SqlExpr::Identifier(id), SqlExpr::Value(v)) => {
                        let cv = match v {
                            crate::ast::LiteralValue::SingleQuoted(s) => ConditionValue::String(
                                s.clone(),
                            ),
                            crate::ast::LiteralValue::DoubleQuoted(s) => ConditionValue::String(
                                s.clone(),
                            ),
                            crate::ast::LiteralValue::Number(n) => ConditionValue::Number(
                                n.clone(),
                            ),
                            crate::ast::LiteralValue::Unsupported => ConditionValue::Unknown,
                        };
                        conditions.push((id.clone(), cv));
                        proof {
                            lemma_cond_pairs_view_empty();
                            assert(conditions@.drop_last() =~= Seq::<(
                                String,
                                ConditionValue,
                            )>::empty());
                            assert(spec_complex_conditions(*expr) == (map![id@ =>
                                spec_eq_cond_view(*v)]));
                            assert(spec_cond_value_view(conditions@.last().1)
                                == spec_eq_cond_view(*v));
                            assert(conditions@.last().0@ == id@);
                            assert(spec_cond_pairs_view(conditions@) == Map::<
                                Seq<char>,
                                CondValView,
                            >::empty().insert(id@, spec_eq_cond_view(*v)));
                            assert(spec_cond_pairs_view(conditions@) =~~= spec_complex_conditions(
                                *expr,
                            ));
                        }
                    },
                    _ => {
                        proof {
                            assert(spec_cond_pairs_view(conditions@) =~~= spec_complex_conditions(
                                *expr,
                            ));
                        }
                    },
                }
            } else if *op == BinOp::Gt || *op == BinOp::Lt || *op == BinOp::GtEq || *op
                == BinOp::LtEq {
                match (&**left, &**right) {
                    (
                        SqlExpr::Identifier(id),
                        SqlExpr::Value(crate::ast::LiteralValue::Number(n)),
                    ) => {
                        conditions.push((id.clone(), ConditionValue::Comparison(*op, n.clone())));
                        proof {
                            lemma_cond_pairs_view_empty();
                            assert(conditions@.drop_last() =~= Seq::<(
                                String,
                                ConditionValue,
                            )>::empty());
                            assert(spec_cond_pairs_view(conditions@) =~~= spec_complex_conditions(
                                *expr,
                            ));
                        }
                    },
                    _ => {
                        proof {
                            assert(spec_cond_pairs_view(conditions@) =~~= spec_complex_conditions(
                                *expr,
                            ));
                        }
                    },
                }
            } else if *op == BinOp::And {
                let left_conds = extract_complex_conditions(left);
                let right_conds = extract_complex_conditions(right);
                conditions = concat_pairs(left_conds, right_conds);
                proof {
                    assert(spec_cond_pairs_view(conditions@) =~= spec_complex_conditions(*expr));
                }
            } else if *op == BinOp::Or {
                let left_conds = extract_complex_conditions(left);
                let right_conds = extract_complex_conditions(right);
                conditions.push(
                    (
                        "OR_CONDITION".to_owned(),
                        ConditionValue::OrCondition(Box::new(left_conds), Box::new(right_conds)),
                    ),
                );
                proof {
                    lemma_cond_pairs_view_empty();
                    assert(conditions@.drop_last() =~= Seq::<(String, ConditionValue)>::empty());
                    assert(spec_cond_pairs_view(conditions@) =~~= spec_complex_conditions(*expr));
                }
            } else {
                proof {
                    assert(spec_cond_pairs_view(conditions@) =~= spec_complex_conditions(*expr));
                }
            }
        },
        SqlExpr::Nested(inner) => {
            conditions = extract_complex_conditions(inner);
        },
        _ => {
            proof {
                assert(spec_cond_pairs_view(conditions@) =~= spec_complex_conditions(*expr));
            }
        },
    }
    conditions
}

/// Append two pair lists; as maps, the right side wins on duplicates.
fn concat_pairs(left: Vec<(String, ConditionValue)>, right: Vec<(String, ConditionValue)>) -> (r:
    Vec<(String, ConditionValue)>)
    ensures
        spec_cond_pairs_view(r@) == spec_cond_pairs_view(left@).union_prefer_right(
            spec_cond_pairs_view(right@),
        ),
{
    let ghost gleft = left@;
    let ghost gright = right@;
    let mut out = left;
    let mut rest = right;
    while rest.len() > 0
        invariant
            out@ + rest@ == gleft + gright,
        decreases rest@.len(),
    {
        let p = rest.remove(0);
        out.push(p);
        proof {
            assert(out@ + rest@ =~= gleft + gright);
        }
    }
    proof {
        assert(out@ =~= out@ + rest@);
        assert(out@ == gleft + gright);
        lemma_cond_pairs_view_concat(gleft, gright);
    }
    out
}

/// The empty pair list reads as the empty map.
proof fn lemma_cond_pairs_view_empty()
    ensures
        spec_cond_pairs_view(Seq::<(String, ConditionValue)>::empty()) == Map::<
            Seq<char>,
            CondValView,
        >::empty(),
{
}

/// A pair list concatenation reads as the union of the two maps, the right
/// side winning.
proof fn lemma_cond_pairs_view_concat(a: Seq<(String, ConditionValue)>, b: Seq<(String, ConditionValue)>)
    ensures
        spec_cond_pairs_view(a + b) == spec_cond_pairs_view(a).union_prefer_right(
            spec_cond_pairs_view(b),
        ),
    decreases b.len(),
{
    if b.len() == 0 {
        assert(a + b =~= a);
        lemma_cond_pairs_view_empty();
        assert(b =~= Seq::<(String, ConditionValue)>::empty());
        assert(spec_cond_pairs_view(a).union_prefer_right(spec_cond_pairs_view(b))
            =~= spec_cond_pairs_view(a));
    } else {
        lemma_cond_pairs_view_concat(a, b.drop_last());
        assert((a + b).drop_last() =~= a + b.drop_last());
        assert((a + b).last() == b.last());
        assert(spec_cond_pairs_view(a + b) =~= spec_cond_pairs_view(a).union_prefer_right(
            spec_cond_pairs_view(b),
        ));
    }
}

/// Helper to determine the Redis data type text from a table name.
pub open spec fn spec_table_type_text(name: Seq<char>) -> Seq<char> {
    match spec_table_kind(name) {
        RedisDataType::Hash => "hash"@,
        RedisDataType::List => "list"@,
        RedisDataType::PlainSet => "set"@,
        RedisDataType::SortedSet => "zset"@,
        RedisDataType::String => "string"@,
    }
}

/// Helper to determine Redis data type from table name
pub fn determine_table_type(table: &str) -> (r: &'static str)
    ensures
        r@ == spec_table_type_text(table@),
{
    if crate::pattern::matchers::common::is_hash_table_name(table) {
        "hash"
    } else if crate::pattern::matchers::common::is_list_table_name(table) {
        "list"
    } else if crate::pattern::matchers::common::is_set_table_name(table) {
        "set"
    } else if crate::pattern::matchers::common::is_zset_table_name(table) {
        "zset"
    } else {
        "string"
    }
}

pub open spec fn spec_is_table_type(t: SqlTableFactor, suffix: Seq<char>) -> bool {
    match t {
        SqlTableFactor::Table { name, .. } => name@.len() > 0 && spec_ends_with(name@[0]@, suffix),
        _ => false,
    }
}

/// Helper to check if a table factor's name carries a specific suffix
pub fn is_table_type(table: &SqlTableFactor, suffix: &str) -> (r: bool)
    ensures
        r == spec_is_table_type(*table, suffix@),
{
    match table {
        SqlTableFactor::Table { name, .. } => {
            if name.len() > 0 {
                str_ends_with(name[0].as_str(), suffix)
            } else {
                false
            }
        },
        _ => false,
    }
}

} // verus!
