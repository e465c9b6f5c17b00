// Each reachable error variant, and the one-line messages.
use sql_redis::{SqlRedisError, SqlToRedisTransformer};

#[test]
fn test_parse_error() {
    let transformer = SqlToRedisTransformer::new().unwrap();
    let result = transformer.transform("THIS IS NOT SQL");
    match result {
        Err(SqlRedisError::SqlParseError(_)) => {}
        other => panic!("expected a parse error, got {:?}", other),
    }
}

#[test]
fn test_empty_input_is_a_parse_error() {
    let transformer = SqlToRedisTransformer::new().unwrap();
    let result = transformer.transform("");
    match result {
        Err(SqlRedisError::SqlParseError(msg)) => assert_eq!(msg, "Empty SQL statement"),
        other => panic!("expected a parse error, got {:?}", other),
    }
}

#[test]
fn test_no_matching_pattern_carries_input() {
    let transformer = SqlToRedisTransformer::new().unwrap();
    // Parses fine, but no rule matches and the generator finds nothing:
    // there is no key condition at all.
    let sql = "SELECT * FROM users";
    match transformer.transform(sql) {
        Err(SqlRedisError::NoMatchingPattern(orig)) => assert_eq!(orig, sql),
        other => panic!("expected no matching pattern, got {:?}", other),
    }
}

#[test]
fn test_key_column_name_is_exact_in_value_lookups() {
    // The shape predicate compares column names without regard to ASCII
    // case, but the value lookup wants the literal column `key`; with
    // `KEY` no strategy completes.
    let transformer = SqlToRedisTransformer::new().unwrap();
    let sql = "INSERT INTO users__hash (KEY, name) VALUES ('u', 'n')";
    match transformer.transform(sql) {
        Err(SqlRedisError::NoMatchingPattern(orig)) => assert_eq!(orig, sql),
        other => panic!("expected no matching pattern, got {:?}", other),
    }
}

#[test]
fn test_error_messages() {
    assert_eq!(
        SqlRedisError::SqlParseError("boom".to_string()).message(),
        "SQL parse error: boom"
    );
    assert_eq!(
        SqlRedisError::NoMatchingPattern("SELECT 1".to_string()).message(),
        "No matching pattern for: SELECT 1"
    );
    assert_eq!(
        SqlRedisError::TemplateError("boom".to_string()).message(),
        "Template error: boom"
    );
    assert_eq!(
        SqlRedisError::InitializationError("boom".to_string()).message(),
        "Initialization error: boom"
    );
}

#[test]
fn test_transform_is_deterministic() {
    // The same input always gives the same output, independent of call
    // order.
    let transformer = SqlToRedisTransformer::new().unwrap();
    let a = transformer.transform("SELECT * FROM users WHERE key = 'u'").unwrap();
    let _ = transformer.transform("DELETE FROM users WHERE key = 'u'").unwrap();
    let b = transformer.transform("SELECT * FROM users WHERE key = 'u'").unwrap();
    assert_eq!(a, b);
    let other = SqlToRedisTransformer::new().unwrap();
    assert_eq!(other.transform("SELECT * FROM users WHERE key = 'u'").unwrap(), a);
}

#[test]
fn test_pattern_details_cover_every_rule() {
    let transformer = SqlToRedisTransformer::new().unwrap();
    let details = transformer.get_pattern_details();
    assert_eq!(details.len(), 31);
    assert_eq!(details[0].name, "string_get");
    assert_eq!(details[0].matcher, "is_string_get");
}

#[test]
fn test_construction_always_succeeds() {
    // The fixed command templates always register, so both constructors
    // are guaranteed to succeed.
    assert!(sql_redis::templates::TemplateEngine::new().is_ok());
    assert!(SqlToRedisTransformer::new().is_ok());
}
