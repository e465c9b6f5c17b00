// Round trips of single statements through the transformer.
use sql_redis::SqlToRedisTransformer;

#[test]
fn test_string_get() {
    let transformer = SqlToRedisTransformer::new().unwrap();
    let result = transformer.transform("SELECT * FROM users WHERE key = 'user:1001'").unwrap();
    assert_eq!(result, "GET user:1001");
}

#[test]
fn test_hash_getall() {
    let transformer = SqlToRedisTransformer::new().unwrap();
    let result = transformer.transform("SELECT * FROM users__hash WHERE key = 'user:1001'").unwrap();
    assert_eq!(result, "HGETALL user:1001");
}

#[test]
fn test_hash_get() {
    let transformer = SqlToRedisTransformer::new().unwrap();
    let result = transformer.transform("SELECT name FROM users__hash WHERE key = 'user:1001'").unwrap();
    assert_eq!(result, "HGET user:1001 name");
}

#[test]
fn test_hash_multi_get() {
    let transformer = SqlToRedisTransformer::new().unwrap();
    let result = transformer.transform("SELECT name, email, age FROM users__hash WHERE key = 'user:1001'").unwrap();
    assert_eq!(result, "HMGET user:1001 name email age");
}

#[test]
fn test_list_getall() {
    let transformer = SqlToRedisTransformer::new().unwrap();
    let result = transformer.transform("SELECT * FROM tweets__list WHERE key = 'user:1001:tweets'").unwrap();
    assert_eq!(result, "LRANGE user:1001:tweets 0 -1");
}

#[test]
fn test_list_get_index() {
    let transformer = SqlToRedisTransformer::new().unwrap();
    let result = transformer.transform("SELECT * FROM tweets__list WHERE key = 'user:1001:tweets' AND index = 0").unwrap();
    assert_eq!(result, "LINDEX user:1001:tweets 0");
}

#[test]
fn test_list_get_range() {
    let transformer = SqlToRedisTransformer::new().unwrap();
    let result = transformer.transform("SELECT * FROM tweets__list WHERE key = 'user:1001:tweets' LIMIT 10").unwrap();
    assert_eq!(result, "LRANGE user:1001:tweets 0 9");
}

#[test]
fn test_set_getall() {
    let transformer = SqlToRedisTransformer::new().unwrap();
    let result = transformer.transform("SELECT * FROM followers__set WHERE key = 'user:1001:followers'").unwrap();
    assert_eq!(result, "SMEMBERS user:1001:followers");
}

#[test]
fn test_set_ismember() {
    let transformer = SqlToRedisTransformer::new().unwrap();
    let result = transformer.transform("SELECT * FROM followers__set WHERE key = 'user:1001:followers' AND member = 'user:1002'").unwrap();
    assert_eq!(result, "SISMEMBER user:1001:followers user:1002");
}

#[test]
fn test_zset_getall() {
    let transformer = SqlToRedisTransformer::new().unwrap();
    let result = transformer.transform("SELECT * FROM leaderboard__zset WHERE key = 'games:leaderboard'").unwrap();
    assert_eq!(result, "ZRANGEBYSCORE games:leaderboard -inf +inf");
}

#[test]
fn test_zset_get_score_range() {
    let transformer = SqlToRedisTransformer::new().unwrap();
    let result = transformer.transform("SELECT * FROM leaderboard__zset WHERE key = 'games:leaderboard' AND score > 1000").unwrap();
    assert_eq!(result, "ZRANGEBYSCORE games:leaderboard (1000 +inf");
}

#[test]
fn test_zset_get_reversed() {
    let transformer = SqlToRedisTransformer::new().unwrap();
    let result = transformer.transform("SELECT * FROM leaderboard__zset WHERE key = 'games:leaderboard' ORDER BY score DESC").unwrap();
    assert_eq!(result, "ZREVRANGEBYSCORE games:leaderboard +inf -inf");
}
