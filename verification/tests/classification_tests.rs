// Table classification: one kind per name, suffix outranking the default.
use sql_redis::pattern::matchers::common::{
    RedisDataType, get_redis_data_type, is_hash_table_name, is_list_table_name,
    is_set_table_name, is_string_table_name, is_zset_table_name,
};
use sql_redis::pattern::extractors::determine_table_type;

#[test]
fn test_table_kind_of_each_suffix() {
    assert_eq!(get_redis_data_type("users"), RedisDataType::String);
    assert_eq!(get_redis_data_type("users__hash"), RedisDataType::Hash);
    assert_eq!(get_redis_data_type("tweets__list"), RedisDataType::List);
    assert_eq!(get_redis_data_type("followers__set"), RedisDataType::PlainSet);
    assert_eq!(get_redis_data_type("games__zset"), RedisDataType::SortedSet);
}

#[test]
fn test_suffix_always_outranks_default() {
    // Amending any name with a suffix decides the kind, whatever came before.
    assert_eq!(get_redis_data_type("a__zset__hash"), RedisDataType::Hash);
    assert_eq!(get_redis_data_type("a__hash__list"), RedisDataType::List);
    assert_eq!(get_redis_data_type("a__hash__set"), RedisDataType::PlainSet);
    assert_eq!(get_redis_data_type("a__set__zset"), RedisDataType::SortedSet);
    assert_eq!(get_redis_data_type("__hash"), RedisDataType::Hash);
    // A sorted-set suffix is not mistaken for the plain set suffix.
    assert_eq!(get_redis_data_type("a__zset"), RedisDataType::SortedSet);
    assert!(!is_set_table_name("a__zset"));
}

#[test]
fn test_table_name_predicates() {
    assert!(is_string_table_name("users"));
    assert!(is_hash_table_name("users__hash"));
    assert!(is_list_table_name("a__list"));
    assert!(is_zset_table_name("a__zset"));
    assert!(!is_string_table_name("users__hash"));
    assert!(!is_hash_table_name("users"));
}

#[test]
fn test_table_type_text() {
    assert_eq!(determine_table_type("users"), "string");
    assert_eq!(determine_table_type("u__hash"), "hash");
    assert_eq!(determine_table_type("u__list"), "list");
    assert_eq!(determine_table_type("u__set"), "set");
    assert_eq!(determine_table_type("u__zset"), "zset");
}
