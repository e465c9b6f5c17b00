// Boundary behavior: the LIMIT stop index, score-range encodings, and
// decimal conversion edges.
use sql_redis::SqlToRedisTransformer;
use sql_redis::ast::{
    BinOp, LiteralValue, OrderByItem, OrderByKind, SetExprKind, SqlExpr, SqlQuery, SqlSelect,
    SqlSelectItem, SqlStatement, SqlTableFactor, SqlTableWithJoins,
};
use sql_redis::commands::generate_command;
use sql_redis::numutil::{parse_u64, u64_to_dec_string};

#[test]
fn test_limit_zero_yields_stop_minus_one() {
    // LIMIT 0 gives stop index (limit - 1) = -1, the same text as a full
    // range scan.
    let transformer = SqlToRedisTransformer::new().unwrap();
    let result = transformer.transform("SELECT * FROM posts__list WHERE key = 'k' LIMIT 0").unwrap();
    assert_eq!(result, "LRANGE k 0 -1");
}

#[test]
fn test_limit_one_yields_stop_zero() {
    let transformer = SqlToRedisTransformer::new().unwrap();
    let result = transformer.transform("SELECT * FROM posts__list WHERE key = 'k' LIMIT 1").unwrap();
    assert_eq!(result, "LRANGE k 0 0");
}

#[test]
fn test_score_range_encodings() {
    let transformer = SqlToRedisTransformer::new().unwrap();
    let r = transformer.transform("SELECT * FROM g__zset WHERE key = 'k' AND score >= 1000").unwrap();
    assert_eq!(r, "ZRANGEBYSCORE k 1000 +inf");
    let r = transformer.transform("SELECT * FROM g__zset WHERE key = 'k' AND score < 5").unwrap();
    assert_eq!(r, "ZRANGEBYSCORE k -inf (5");
    let r = transformer.transform("SELECT * FROM g__zset WHERE key = 'k' AND score <= 5").unwrap();
    assert_eq!(r, "ZRANGEBYSCORE k -inf 5");
}

#[test]
fn test_score_range_conjunction_merge() {
    // The conjunction merge takes the lower bound from the left comparison
    // and the upper bound from the right one.
    let transformer = SqlToRedisTransformer::new().unwrap();
    let r = transformer
        .transform("SELECT * FROM g__zset WHERE key = 'k' AND score > 10 AND score < 20")
        .unwrap();
    assert_eq!(r, "ZRANGEBYSCORE k (10 (20");
}

#[test]
fn test_parse_u64_values() {
    assert_eq!(parse_u64("0"), Some(0));
    assert_eq!(parse_u64("10"), Some(10));
    assert_eq!(parse_u64("18446744073709551615"), Some(u64::MAX));
    assert_eq!(parse_u64("18446744073709551616"), None);
    assert_eq!(parse_u64(""), None);
    assert_eq!(parse_u64("12a"), None);
}

#[test]
fn test_u64_to_dec_string_values() {
    assert_eq!(u64_to_dec_string(0), "0");
    assert_eq!(u64_to_dec_string(9), "9");
    assert_eq!(u64_to_dec_string(90), "90");
    assert_eq!(u64_to_dec_string(18446744073709551615), "18446744073709551615");
}

#[test]
fn test_reversed_scan_with_limit_diverges_by_strategy() {
    // A descending score read with a LIMIT: the registry's reversed rule
    // steps aside and the full-range rule answers, while the direct
    // generator's reversed shape accepts the statement as written. The two
    // strategies deliberately diverge here; registry-first dispatch decides
    // what transform returns.
    let transformer = SqlToRedisTransformer::new().unwrap();
    let sql = "SELECT * FROM lb__zset WHERE key = 'k' ORDER BY score DESC LIMIT 5";
    assert_eq!(transformer.transform(sql).unwrap(), "ZRANGEBYSCORE k -inf +inf");

    let stmt = SqlStatement::Query(Box::new(SqlQuery {
        with: None,
        body: SetExprKind::Select(Box::new(SqlSelect {
            projection: vec![SqlSelectItem::Wildcard],
            from: vec![SqlTableWithJoins {
                relation: SqlTableFactor::Table { name: vec!["lb__zset".to_string()], alias: None },
                joins: vec![],
            }],
            selection: Some(SqlExpr::BinaryOp {
                op: BinOp::Eq,
                left: Box::new(SqlExpr::Identifier("key".to_string())),
                right: Box::new(SqlExpr::Value(LiteralValue::SingleQuoted("k".to_string()))),
            }),
            having: None,
        })),
        order_by: Some(OrderByKind::Expressions(vec![OrderByItem {
            expr: SqlExpr::Identifier("score".to_string()),
            asc: Some(false),
        }])),
        limit: Some(SqlExpr::Value(LiteralValue::Number("5".to_string()))),
    }));
    let cmd = generate_command(&stmt).unwrap();
    assert_eq!(cmd.to_string(), "ZREVRANGEBYSCORE k +inf -inf");
}

#[test]
fn test_pattern_details_metadata() {
    let transformer = SqlToRedisTransformer::new().unwrap();
    let details = transformer.get_pattern_details();
    assert_eq!(details.len(), 31);
    assert_eq!(details[0].matcher, "is_string_get");
    assert_eq!(details[0].sql_pattern, "SELECT * FROM table WHERE key = 'value'");
    assert_eq!(details[0].redis_pattern, "GET value");
    assert_eq!(details[30].name, "zset_delete_member");
    assert_eq!(details[30].redis_pattern, "ZREM key member");
}
