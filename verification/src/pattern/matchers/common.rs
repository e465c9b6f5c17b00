// Table classification shared by every statement kind: a table name maps to
// exactly one Redis data type, decided by its suffix alone.

use vstd::prelude::*;

use crate::strutil::{spec_ends_with, str_ends_with};

verus! {

/// The Redis data type a table name stands for.
#[derive(Debug, Clone, PartialEq, Eq, Structural)]
pub enum RedisDataType {
    String,
    Hash,
    List,
    PlainSet,
    SortedSet,
}

pub open spec fn spec_is_hash_table_name(name: Seq<char>) -> bool {
    spec_ends_with(name, "__hash"@)
}

pub open spec fn spec_is_list_table_name(name: Seq<char>) -> bool {
    spec_ends_with(name, "__list"@)
}

pub open spec fn spec_is_set_table_name(name: Seq<char>) -> bool {
    spec_ends_with(name, "__set"@)
}

pub open spec fn spec_is_zset_table_name(name: Seq<char>) -> bool {
    spec_ends_with(name, "__zset"@)
}

pub open spec fn spec_is_string_table_name(name: Seq<char>) -> bool {
    !spec_is_hash_table_name(name) && !spec_is_list_table_name(name)
        && !spec_is_set_table_name(name) && !spec_is_zset_table_name(name)
}

/// The one classification every component agrees on: the first matching
/// suffix decides, and a name with no suffix is a plain string table.
pub open spec fn spec_table_kind(name: Seq<char>) -> RedisDataType {
    if spec_is_hash_table_name(name) {
        RedisDataType::Hash
    } else if spec_is_list_table_name(name) {
        RedisDataType::List
    } else if spec_is_set_table_name(name) {
        RedisDataType::PlainSet
    } else if spec_is_zset_table_name(name) {
        RedisDataType::SortedSet
    } else {
        RedisDataType::String
    }
}

/// Check if a table name represents a Redis Hash table
pub fn is_hash_table_name(name: &str) -> (r: bool)
    ensures
        r == spec_is_hash_table_name(name@),
{
    str_ends_with(name, "__hash")
}

/// Check if a table name represents a Redis List table
pub fn is_list_table_name(name: &str) -> (r: bool)
    ensures
        r == spec_is_list_table_name(name@),
{
    str_ends_with(name, "__list")
}

/// Check if a table name represents a Redis Set table
pub fn is_set_table_name(name: &str) -> (r: bool)
    ensures
        r == spec_is_set_table_name(name@),
{
    str_ends_with(name, "__set")
}

/// Check if a table name represents a Redis Sorted Set table
pub fn is_zset_table_name(name: &str) -> (r: bool)
    ensures
        r == spec_is_zset_table_name(name@),
{
    str_ends_with(name, "__zset")
}

/// Check if a table name represents a Redis String table (default)
pub fn is_string_table_name(name: &str) -> (r: bool)
    ensures
        r == spec_is_string_table_name(name@),
{
    !is_hash_table_name(name) && !is_list_table_name(name) && !is_set_table_name(name)
        && !is_zset_table_name(name)
}

/// Determine the Redis data type from a table name.
pub fn get_redis_data_type(table_name: &str) -> (r: RedisDataType)
    ensures
        r == spec_table_kind(table_name@),
{
    if is_hash_table_name(table_name) {
        RedisDataType::Hash
    } else if is_list_table_name(table_name) {
        RedisDataType::List
    } else if is_set_table_name(table_name) {
        RedisDataType::PlainSet
    } else if is_zset_table_name(table_name) {
        RedisDataType::SortedSet
    } else {
        RedisDataType::String
    }
}

/// Classification is total and single-valued: a name is a string table
/// exactly when no suffix matches, and each suffix decides its own kind
/// unless an earlier suffix in the fixed order also matches.
pub proof fn lemma_table_kind_total(name: Seq<char>)
    ensures
        spec_table_kind(name) == RedisDataType::String <==> spec_is_string_table_name(name),
        spec_table_kind(name) == RedisDataType::Hash <==> spec_is_hash_table_name(name),
        spec_table_kind(name) == RedisDataType::List <==> (spec_is_list_table_name(name)
            && !spec_is_hash_table_name(name)),
        spec_table_kind(name) == RedisDataType::PlainSet <==> (spec_is_set_table_name(name)
            && !spec_is_hash_table_name(name) && !spec_is_list_table_name(name)),
        spec_table_kind(name) == RedisDataType::SortedSet <==> (spec_is_zset_table_name(name)
            && !spec_is_hash_table_name(name) && !spec_is_list_table_name(name)
            && !spec_is_set_table_name(name)),
{
}

/// Amending any name with a kind suffix always outranks the default: the
/// amended name classifies as that suffix's kind, whatever the name was.
pub proof fn lemma_suffix_outranks_default(name: Seq<char>)
    ensures
        spec_table_kind(name + "__hash"@) == RedisDataType::Hash,
        spec_table_kind(name + "__list"@) == RedisDataType::List,
        spec_table_kind(name + "__set"@) == RedisDataType::PlainSet,
        spec_table_kind(name + "__zset"@) == RedisDataType::SortedSet,
{
    reveal_strlit("__hash");
    reveal_strlit("__list");
    reveal_strlit("__set");
    reveal_strlit("__zset");
    let h = name + "__hash"@;
    assert(h.subrange(h.len() - 6, h.len() as int) =~= "__hash"@);
    assert(spec_is_hash_table_name(h));

    let l = name + "__list"@;
    assert(l.subrange(l.len() - 6, l.len() as int) =~= "__list"@);
    assert(spec_is_list_table_name(l));
    if spec_is_hash_table_name(l) {
        assert(l.subrange(l.len() - 6, l.len() as int) == "__hash"@);
        assert("__list"@[2] == 'l' && "__hash"@[2] == 'h');
        assert(false);
    }

    let s = name + "__set"@;
    assert(s.subrange(s.len() - 5, s.len() as int) =~= "__set"@);
    assert(spec_is_set_table_name(s));
    if spec_is_hash_table_name(s) {
        assert(s.subrange(s.len() - 6, s.len() as int) == "__hash"@);
        assert(s.subrange(s.len() - 5, s.len() as int)[1] == "__set"@[1]);
        assert(s.subrange(s.len() - 6, s.len() as int)[2] == "__hash"@[2]);
        assert(s[s.len() - 4] == '_');
        assert(s[s.len() - 4] == 'h');
        assert(false);
    }
    if spec_is_list_table_name(s) {
        assert(s.subrange(s.len() - 6, s.len() as int) == "__list"@);
        assert(s.subrange(s.len() - 5, s.len() as int)[1] == "__set"@[1]);
        assert(s.subrange(s.len() - 6, s.len() as int)[2] == "__list"@[2]);
        assert(s[s.len() - 4] == '_');
        assert(s[s.len() - 4] == 'l');
        assert(false);
    }

    let z = name + "__zset"@;
    assert(z.subrange(z.len() - 6, z.len() as int) =~= "__zset"@);
    assert(spec_is_zset_table_name(z));
    if spec_is_hash_table_name(z) {
        assert(z.subrange(z.len() - 6, z.len() as int) == "__hash"@);
        assert("__zset"@[2] == 'z' && "__hash"@[2] == 'h');
        assert(false);
    }
    if spec_is_list_table_name(z) {
        assert(z.subrange(z.len() - 6, z.len() as int) == "__list"@);
        assert("__zset"@[2] == 'z' && "__list"@[2] == 'l');
        assert(false);
    }
    if spec_is_set_table_name(z) {
        assert(z.subrange(z.len() - 5, z.len() as int) == "__set"@);
        assert(z.subrange(z.len() - 5, z.len() as int)[1] == "__set"@[1]);
        assert(z.subrange(z.len() - 6, z.len() as int)[2] == "__zset"@[2]);
        assert(z[z.len() - 4] == '_');
        assert(z[z.len() - 4] == 'z');
        assert(false);
    }
}

} // verus!
