// The analysis surface: joins, CTEs, subqueries and flattened conditions,
// exercised on statement models built by hand.
use sql_redis::ast::{
    BinOp, Cte, Join, JoinConstraintKind, JoinOperatorKind, LiteralValue, SetExprKind,
    SqlExpr, SqlQuery, SqlSelect, SqlSelectItem, SqlStatement, SqlTableFactor, SqlTableWithJoins,
    SqlWith, extract_conditions,
};
use sql_redis::pattern::cte::{extract_all_ctes, find_cte_references, is_recursive_cte};
use sql_redis::pattern::extractors::{ConditionValue, extract_complex_conditions,
    extract_join_info};
use sql_redis::pattern::join::{JoinCondition, JoinType, extract_all_joins, is_equi_join,
    table_info_from_factor};
use sql_redis::pattern::subquery::{SubqueryContext, extract_all_subqueries};

fn table(name: &str) -> SqlTableFactor {
    SqlTableFactor::Table { name: vec![name.to_string()], alias: None }
}

fn eq(field: &str, value: &str) -> SqlExpr {
    SqlExpr::BinaryOp {
        op: BinOp::Eq,
        left: Box::new(SqlExpr::Identifier(field.to_string())),
        right: Box::new(SqlExpr::Value(LiteralValue::SingleQuoted(value.to_string()))),
    }
}

fn select_query(select: SqlSelect) -> SqlQuery {
    SqlQuery {
        with: None,
        body: SetExprKind::Select(Box::new(select)),
        order_by: None,
        limit: None,
    }
}

#[test]
fn test_table_info_from_factor() {
    let info = table_info_from_factor(&table("users"));
    assert_eq!(info.name, "users");
    assert_eq!(info.alias, None);
    assert!(!info.is_derived);

    let derived = SqlTableFactor::Derived {
        alias: Some("d".to_string()),
        subquery: Box::new(select_query(SqlSelect {
            projection: vec![SqlSelectItem::Wildcard],
            from: vec![],
            selection: None,
            having: None,
        })),
    };
    let info = table_info_from_factor(&derived);
    assert_eq!(info.name, "d");
    assert_eq!(info.alias.as_deref(), Some("d"));
    assert!(info.is_derived);
}

#[test]
fn test_extract_all_joins_and_equi_join() {
    let on = SqlExpr::BinaryOp {
        op: BinOp::Eq,
        left: Box::new(SqlExpr::CompoundIdentifier(vec![
            "a".to_string(),
            "id".to_string(),
        ])),
        right: Box::new(SqlExpr::CompoundIdentifier(vec![
            "b".to_string(),
            "id".to_string(),
        ])),
    };
    let select = SqlSelect {
        projection: vec![SqlSelectItem::Wildcard],
        from: vec![SqlTableWithJoins {
            relation: table("a"),
            joins: vec![Join {
                relation: table("b"),
                join_operator: JoinOperatorKind::Inner(JoinConstraintKind::On(on)),
            }],
        }],
        selection: None,
        having: None,
    };
    let joins = extract_all_joins(&select);
    assert_eq!(joins.len(), 1);
    assert_eq!(joins[0].join_type, JoinType::Inner);
    assert_eq!(joins[0].left.name, "a");
    assert_eq!(joins[0].right.name, "b");
    assert!(is_equi_join(&joins[0]));
    match &joins[0].condition {
        JoinCondition::On(_) => {}
        _ => panic!("expected an ON condition"),
    }

    let stmt = SqlStatement::Query(Box::new(select_query(select)));
    let infos = extract_join_info(&stmt).unwrap();
    assert_eq!(infos.len(), 1);
    assert_eq!(infos[0].left.name, "a");
}

#[test]
fn test_extract_ctes_and_references() {
    let inner = select_query(SqlSelect {
        projection: vec![SqlSelectItem::Wildcard],
        from: vec![SqlTableWithJoins { relation: table("base"), joins: vec![] }],
        selection: None,
        having: None,
    });
    let outer_select = SqlSelect {
        projection: vec![SqlSelectItem::Wildcard],
        from: vec![SqlTableWithJoins { relation: table("c1"), joins: vec![] }],
        selection: None,
        having: None,
    };
    let stmt = SqlStatement::Query(Box::new(SqlQuery {
        with: Some(SqlWith {
            recursive: false,
            cte_tables: vec![Cte {
                name: "c1".to_string(),
                columns: vec![],
                query: Box::new(inner),
            }],
        }),
        body: SetExprKind::Select(Box::new(outer_select)),
        order_by: None,
        limit: None,
    }));
    let ctes = extract_all_ctes(&stmt);
    assert_eq!(ctes.len(), 1);
    assert_eq!(ctes[0].name, "c1");
    assert!(!ctes[0].recursive);
    // The CTE's own query references only `base`, so it is not recursive.
    assert!(!is_recursive_cte(&ctes[0], &ctes));
    // A query reading from `c1` references the declared name.
    let q = select_query(SqlSelect {
        projection: vec![SqlSelectItem::Wildcard],
        from: vec![SqlTableWithJoins { relation: table("c1"), joins: vec![] }],
        selection: None,
        having: None,
    });
    let refs = find_cte_references(&q, &vec!["c1".to_string()]);
    assert_eq!(refs, vec!["c1".to_string()]);
}

#[test]
fn test_extract_subqueries() {
    let sub = select_query(SqlSelect {
        projection: vec![SqlSelectItem::Wildcard],
        from: vec![SqlTableWithJoins { relation: table("t"), joins: vec![] }],
        selection: None,
        having: None,
    });
    let where_clause = SqlExpr::InSubquery {
        operand: Box::new(SqlExpr::Identifier("id".to_string())),
        subquery: Box::new(sub),
        negated: false,
    };
    let stmt = SqlStatement::Query(Box::new(select_query(SqlSelect {
        projection: vec![SqlSelectItem::Wildcard],
        from: vec![SqlTableWithJoins { relation: table("users"), joins: vec![] }],
        selection: Some(where_clause),
        having: None,
    })));
    let subs = extract_all_subqueries(&stmt);
    assert_eq!(subs.len(), 1);
    assert!(!subs[0].negated);
    match &subs[0].context {
        SubqueryContext::InPredicate { column } => {
            assert_eq!(column.as_deref(), Some("id"));
        }
        other => panic!("expected an IN predicate, got {:?}", other),
    }
}

#[test]
fn test_flattened_conditions() {
    let expr = SqlExpr::BinaryOp {
        op: BinOp::And,
        left: Box::new(eq("key", "k1")),
        right: Box::new(eq("member", "m1")),
    };
    let flat = extract_conditions(&Some(expr));
    assert_eq!(flat.len(), 2);
    assert_eq!(flat[0], ("key".to_string(), "k1".to_string()));
    assert_eq!(flat[1], ("member".to_string(), "m1".to_string()));

    let expr = SqlExpr::BinaryOp {
        op: BinOp::Or,
        left: Box::new(eq("key", "k1")),
        right: Box::new(eq("key", "k2")),
    };
    let complex = extract_complex_conditions(&expr);
    assert_eq!(complex.len(), 1);
    assert_eq!(complex[0].0, "OR_CONDITION");
    match &complex[0].1 {
        ConditionValue::OrCondition(left, right) => {
            assert_eq!(left.len(), 1);
            assert_eq!(right.len(), 1);
        }
        _ => panic!("expected a composite condition"),
    }
}
