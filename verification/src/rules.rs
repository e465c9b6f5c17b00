// The rule registry: a closed set of rule kinds, each binding a shape
// predicate, a context builder and an output template identifier. The
// registry is an ordered list assembled once — SELECT, INSERT, UPDATE,
// DELETE — and dispatch returns the first rule that both matches and
// builds a context.

pub mod delete;
pub mod insert;
pub mod select;
pub mod update;

pub use delete::create_delete_rules;
pub use insert::create_insert_rules;
pub use select::create_select_rules;
pub use update::create_update_rules;

use vstd::prelude::*;

use crate::ast::SqlStatement;
use crate::context::{ContextBuilder, TemplateContext};
use crate::pattern::matchers;

verus! {

/// Every rule the registry can hold, one kind per output shape.
#[derive(Debug, Clone, Copy, PartialEq, Eq, Structural)]
pub enum RuleKind {
    StringGet,
    StringGetValue,
    HashGetAll,
    HashGet,
    HashMultiGet,
    ListGetAll,
    ListGetIndex,
    ListGetRange,
    SetGetAll,
    SetIsMember,
    ZSetGetAll,
    ZSetGetScoreRange,
    ZSetGetReversed,
    StringSet,
    HashSet,
    ListPush,
    SetAdd,
    ZSetAdd,
    StringUpdate,
    HashUpdate,
    ListUpdate,
    ZSetUpdate,
    StringDelete,
    HashDelete,
    HashDeleteField,
    ListDelete,
    ListDeleteValue,
    SetDelete,
    SetDeleteMember,
    ZSetDeleteMember,
    ZSetDelete,
}

/// Whether a rule kind's shape predicate holds of a statement.
pub open spec fn spec_rule_matches(k: RuleKind, stmt: SqlStatement) -> bool {
    match k {
        RuleKind::StringGet => matchers::select::spec_is_string_get(stmt),
        RuleKind::StringGetValue => matchers::select::spec_is_string_get_value(stmt),
        RuleKind::HashGetAll => matchers::select::spec_is_hash_getall(stmt),
        RuleKind::HashGet => matchers::select::spec_is_hash_get(stmt),
        RuleKind::HashMultiGet => matchers::select::spec_is_hash_hmget(stmt),
        RuleKind::ListGetAll => matchers::select::spec_is_list_getall(stmt),
        RuleKind::ListGetIndex => matchers::select::spec_is_list_get_index(stmt),
        RuleKind::ListGetRange => matchers::select::spec_is_list_get_range(stmt),
        RuleKind::SetGetAll => matchers::select::spec_is_set_getall(stmt),
        RuleKind::SetIsMember => matchers::select::spec_is_set_ismember(stmt),
        RuleKind::ZSetGetAll => matchers::select::spec_is_zset_getall(stmt),
        RuleKind::ZSetGetScoreRange => matchers::select::spec_is_zset_get_score_range(stmt),
        RuleKind::ZSetGetReversed => matchers::select::spec_is_zset_get_reversed(stmt),
        RuleKind::StringSet => matchers::insert::spec_is_string_set(stmt),
        RuleKind::HashSet => matchers::insert::spec_is_hash_set(stmt),
        RuleKind::ListPush => matchers::insert::spec_is_list_push(stmt),
        RuleKind::SetAdd => matchers::insert::spec_is_set_add(stmt),
        RuleKind::ZSetAdd => matchers::insert::spec_is_zset_add(stmt),
        RuleKind::StringUpdate => matchers::update::spec_is_string_update(stmt),
        RuleKind::HashUpdate => matchers::update::spec_is_hash_update(stmt),
        RuleKind::ListUpdate => matchers::update::spec_is_list_update(stmt),
        RuleKind::ZSetUpdate => matchers::update::spec_is_zset_update(stmt),
        RuleKind::StringDelete => matchers::delete::spec_is_string_delete(stmt),
        RuleKind::HashDelete => matchers::delete::spec_is_hash_delete(stmt),
        RuleKind::HashDeleteField => matchers::delete::spec_is_hash_delete_field(stmt),
        RuleKind::ListDelete => matchers::delete::spec_is_list_delete(stmt),
        RuleKind::ListDeleteValue => matchers::delete::spec_is_list_delete_value(stmt),
        RuleKind::SetDelete => matchers::delete::spec_is_set_delete(stmt),
        RuleKind::SetDeleteMember => matchers::delete::spec_is_set_delete_member(stmt),
        RuleKind::ZSetDeleteMember => matchers::delete::spec_is_zset_delete_member(stmt),
        RuleKind::ZSetDelete => matchers::delete::spec_is_zset_delete(stmt),
    }
}

/// The context a rule kind's builder produces for a statement.
pub open spec fn spec_rule_context(k: RuleKind, stmt: SqlStatement) -> Option<
    Seq<(Seq<char>, Seq<char>)>,
> {
    match k {
        RuleKind::StringGet => (crate::context::StringGetContextBuilder {}).spec_context(stmt),
        RuleKind::StringGetValue => (crate::context::StringGetValueContextBuilder {}).spec_context(
            stmt,
        ),
        RuleKind::HashGetAll => (crate::context::HashGetAllContextBuilder {}).spec_context(stmt),
        RuleKind::HashGet => (crate::context::HashGetContextBuilder {}).spec_context(stmt),
        RuleKind::HashMultiGet => (crate::context::HashMultiGetContextBuilder {}).spec_context(
            stmt,
        ),
        RuleKind::ListGetAll => (crate::context::ListGetAllContextBuilder {}).spec_context(stmt),
        RuleKind::ListGetIndex => (crate::context::ListGetIndexContextBuilder {}).spec_context(
            stmt,
        ),
        RuleKind::ListGetRange => (crate::context::ListGetRangeContextBuilder {}).spec_context(
            stmt,
        ),
        RuleKind::SetGetAll => (crate::context::SetGetAllContextBuilder {}).spec_context(stmt),
        RuleKind::SetIsMember => (crate::context::SetIsMemberContextBuilder {}).spec_context(stmt),
        RuleKind::ZSetGetAll => (crate::context::ZSetGetAllContextBuilder {}).spec_context(stmt),
        RuleKind::ZSetGetScoreRange => (
        crate::context::ZSetGetScoreRangeContextBuilder {}).spec_context(stmt),
        RuleKind::ZSetGetReversed => (crate::context::ZSetGetReversedContextBuilder {}).spec_context(
            stmt,
        ),
        RuleKind::StringSet => (crate::context::StringSetContextBuilder {}).spec_context(stmt),
        RuleKind::HashSet => (crate::context::HashSetContextBuilder {}).spec_context(stmt),
        RuleKind::ListPush => (crate::context::ListPushContextBuilder {}).spec_context(stmt),
        RuleKind::SetAdd => (crate::context::SetAddContextBuilder {}).spec_context(stmt),
        RuleKind::ZSetAdd => (crate::context::ZSetAddContextBuilder {}).spec_context(stmt),
        RuleKind::StringUpdate => (crate::context::StringUpdateContextBuilder {}).spec_context(
            stmt,
        ),
        RuleKind::HashUpdate => (crate::context::HashUpdateContextBuilder {}).spec_context(stmt),
        RuleKind::ListUpdate => (crate::context::ListUpdateContextBuilder {}).spec_context(stmt),
        RuleKind::ZSetUpdate => (crate::context::ZSetUpdateContextBuilder {}).spec_context(stmt),
        RuleKind::StringDelete => (crate::context::StringDeleteContextBuilder {}).spec_context(
            stmt,
        ),
        RuleKind::HashDelete => (crate::context::HashDeleteContextBuilder {}).spec_context(stmt),
        RuleKind::HashDeleteField => (crate::context::HashDeleteFieldContextBuilder {}).spec_context(
            stmt,
        ),
        RuleKind::ListDelete => (crate::context::ListDeleteContextBuilder {}).spec_context(stmt),
        RuleKind::ListDeleteValue => (crate::context::ListDeleteValueContextBuilder {}).spec_context(
            stmt,
        ),
        RuleKind::SetDelete => (crate::context::SetDeleteContextBuilder {}).spec_context(stmt),
        RuleKind::SetDeleteMember => (crate::context::SetDeleteMemberContextBuilder {}).spec_context(
            stmt,
        ),
        RuleKind::ZSetDeleteMember => (
        crate::context::ZSetDeleteMemberContextBuilder {}).spec_context(stmt),
        RuleKind::ZSetDelete => (crate::context::ZSetDeleteContextBuilder {}).spec_context(stmt),
    }
}

/// The template identifier a rule kind renders.
pub open spec fn spec_template_name(k: RuleKind) -> Seq<char> {
    match k {
        RuleKind::StringGet => "string_get"@,
        RuleKind::StringGetValue => "string_get"@,
        RuleKind::HashGetAll => "hash_getall"@,
        RuleKind::HashGet => "hash_get"@,
        RuleKind::HashMultiGet => "hash_hmget"@,
        RuleKind::ListGetAll => "list_getall"@,
        RuleKind::ListGetIndex => "list_get_index"@,
        RuleKind::ListGetRange => "list_get_range"@,
        RuleKind::SetGetAll => "set_getall"@,
        RuleKind::SetIsMember => "set_ismember"@,
        RuleKind::ZSetGetAll => "zset_getall"@,
        RuleKind::ZSetGetScoreRange => "zset_get_score_range"@,
        RuleKind::ZSetGetReversed => "zset_get_reversed"@,
        RuleKind::StringSet => "string_set"@,
        RuleKind::HashSet => "hash_set"@,
        RuleKind::ListPush => "list_push"@,
        RuleKind::SetAdd => "set_add"@,
        RuleKind::ZSetAdd => "zset_add"@,
        RuleKind::StringUpdate => "string_update"@,
        RuleKind::HashUpdate => "hash_update"@,
        RuleKind::ListUpdate => "list_update"@,
        RuleKind::ZSetUpdate => "zset_update"@,
        RuleKind::StringDelete => "del"@,
        RuleKind::HashDelete => "hash_delete"@,
        RuleKind::HashDeleteField => "hash_delete_field"@,
        RuleKind::ListDelete => "list_delete"@,
        RuleKind::ListDeleteValue => "list_delete_value"@,
        RuleKind::SetDelete => "set_delete"@,
        RuleKind::SetDeleteMember => "set_delete_member"@,
        RuleKind::ZSetDeleteMember => "zset_delete_member"@,
        RuleKind::ZSetDelete => "zset_delete"@,
    }
}

/// The name of the shape predicate a rule kind dispatches on.
pub open spec fn spec_matcher_name(k: RuleKind) -> Seq<char> {
    match k {
        RuleKind::StringGet => "is_string_get"@,
        RuleKind::StringGetValue => "is_string_get_value"@,
        RuleKind::HashGetAll => "is_hash_getall"@,
        RuleKind::HashGet => "is_hash_get"@,
        RuleKind::HashMultiGet => "is_hash_hmget"@,
        RuleKind::ListGetAll => "is_list_getall"@,
        RuleKind::ListGetIndex => "is_list_get_index"@,
        RuleKind::ListGetRange => "is_list_get_range"@,
        RuleKind::SetGetAll => "is_set_getall"@,
        RuleKind::SetIsMember => "is_set_ismember"@,
        RuleKind::ZSetGetAll => "is_zset_getall"@,
        RuleKind::ZSetGetScoreRange => "is_zset_get_score_range"@,
        RuleKind::ZSetGetReversed => "is_zset_get_reversed"@,
        RuleKind::StringSet => "is_string_set"@,
        RuleKind::HashSet => "is_hash_set"@,
        RuleKind::ListPush => "is_list_push"@,
        RuleKind::SetAdd => "is_set_add"@,
        RuleKind::ZSetAdd => "is_zset_add"@,
        RuleKind::StringUpdate => "is_string_update"@,
        RuleKind::HashUpdate => "is_hash_update"@,
        RuleKind::ListUpdate => "is_list_update"@,
        RuleKind::ZSetUpdate => "is_zset_update"@,
        RuleKind::StringDelete => "is_string_delete"@,
        RuleKind::HashDelete => "is_hash_delete"@,
        RuleKind::HashDeleteField => "is_hash_delete_field"@,
        RuleKind::ListDelete => "is_list_delete"@,
        RuleKind::ListDeleteValue => "is_list_delete_value"@,
        RuleKind::SetDelete => "is_set_delete"@,
        RuleKind::SetDeleteMember => "is_set_delete_member"@,
        RuleKind::ZSetDelete => "is_zset_delete"@,
        RuleKind::ZSetDeleteMember => "is_zset_delete_member"@,
    }
}

/// The SQL shape a rule kind matches, for pattern listings.
pub open spec fn spec_sql_pattern(k: RuleKind) -> Seq<char> {
    match k {
        RuleKind::StringGet => "SELECT * FROM table WHERE key = 'value'"@,
        RuleKind::StringGetValue => "SELECT value FROM table WHERE key = 'value'"@,
        RuleKind::HashGetAll => "SELECT * FROM table__hash WHERE key = 'value'"@,
        RuleKind::HashGet => "SELECT field FROM table__hash WHERE key = 'value'"@,
        RuleKind::HashMultiGet => "SELECT field1, field2 FROM table__hash WHERE key = 'value'"@,
        RuleKind::ListGetAll => "SELECT * FROM table__list WHERE key = 'value'"@,
        RuleKind::ListGetIndex => "SELECT * FROM table__list WHERE key = 'value' AND index = n"@,
        RuleKind::ListGetRange => "SELECT * FROM table__list WHERE key = 'value' LIMIT n"@,
        RuleKind::SetGetAll => "SELECT * FROM table__set WHERE key = 'value'"@,
        RuleKind::SetIsMember => "SELECT * FROM table__set WHERE key = 'value' AND member = 'member'"@,
        RuleKind::ZSetGetAll => "SELECT * FROM table__zset WHERE key = 'value'"@,
        RuleKind::ZSetGetScoreRange => "SELECT * FROM table__zset WHERE key = 'value' AND score > n"@,
        RuleKind::ZSetGetReversed => "SELECT * FROM table__zset WHERE key = 'value' ORDER BY score DESC"@,
        RuleKind::StringSet => "INSERT INTO table (key, value) VALUES ('key', 'value')"@,
        RuleKind::HashSet => "INSERT INTO table__hash (key, field1, field2) VALUES ('key', 'value1', 'value2')"@,
        RuleKind::ListPush => "INSERT INTO table__list (key, value) VALUES ('key', 'value')"@,
        RuleKind::SetAdd => "INSERT INTO table__set (key, member) VALUES ('key', 'member')"@,
        RuleKind::ZSetAdd => "INSERT INTO table__zset (key, member, score) VALUES ('key', 'member', 'score')"@,
        RuleKind::StringUpdate => "UPDATE table SET value = 'new-value' WHERE key = 'key'"@,
        RuleKind::HashUpdate => "UPDATE table__hash SET field1 = 'value1', field2 = 'value2' WHERE key = 'key'"@,
        RuleKind::ListUpdate => "UPDATE table__list SET value = 'new-value' WHERE key = 'key' AND index = 0"@,
        RuleKind::ZSetUpdate => "UPDATE table__zset SET score = 'new-score' WHERE key = 'key' AND member = 'member'"@,
        RuleKind::StringDelete => "DELETE FROM table WHERE key = 'key'"@,
        RuleKind::HashDelete => "DELETE FROM table__hash WHERE key = 'key'"@,
        RuleKind::HashDeleteField => "DELETE FROM table__hash WHERE key = 'key' AND field = 'field'"@,
        RuleKind::ListDelete => "DELETE FROM table__list WHERE key = 'key'"@,
        RuleKind::ListDeleteValue => "DELETE FROM table__list WHERE key = 'key' AND value = 'value'"@,
        RuleKind::SetDelete => "DELETE FROM table__set WHERE key = 'key'"@,
        RuleKind::SetDeleteMember => "DELETE FROM table__set WHERE key = 'key' AND member = 'member'"@,
        RuleKind::ZSetDelete => "DELETE FROM table__zset WHERE key = 'key'"@,
        RuleKind::ZSetDeleteMember => "DELETE FROM table__zset WHERE key = 'key' AND member = 'member'"@,
    }
}

/// The Redis shape a rule kind emits, for pattern listings.
pub open spec fn spec_redis_pattern(k: RuleKind) -> Seq<char> {
    match k {
        RuleKind::StringGet => "GET value"@,
        RuleKind::StringGetValue => "GET value"@,
        RuleKind::HashGetAll => "HGETALL value"@,
        RuleKind::HashGet => "HGET value field"@,
        RuleKind::HashMultiGet => "HMGET value field1 field2..."@,
        RuleKind::ListGetAll => "LRANGE value 0 -1"@,
        RuleKind::ListGetIndex => "LINDEX value n"@,
        RuleKind::ListGetRange => "LRANGE value 0 n-1"@,
        RuleKind::SetGetAll => "SMEMBERS value"@,
        RuleKind::SetIsMember => "SISMEMBER value member"@,
        RuleKind::ZSetGetAll => "ZRANGEBYSCORE value -inf +inf"@,
        RuleKind::ZSetGetScoreRange => "ZRANGEBYSCORE value (n +inf"@,
        RuleKind::ZSetGetReversed => "ZREVRANGEBYSCORE value +inf -inf"@,
        RuleKind::StringSet => "SET key value"@,
        RuleKind::HashSet => "HSET key field1 value1 field2 value2"@,
        RuleKind::ListPush => "RPUSH key value"@,
        RuleKind::SetAdd => "SADD key member"@,
        RuleKind::ZSetAdd => "ZADD key score member"@,
        RuleKind::StringUpdate => "SET key new-value"@,
        RuleKind::HashUpdate => "HSET key field1 value1 field2 value2"@,
        RuleKind::ListUpdate => "LSET key 0 new-value"@,
        RuleKind::ZSetUpdate => "ZADD key new-score member"@,
        RuleKind::StringDelete => "DEL key"@,
        RuleKind::HashDelete => "DEL key"@,
        RuleKind::HashDeleteField => "HDEL key field"@,
        RuleKind::ListDelete => "DEL key"@,
        RuleKind::ListDeleteValue => "LREM key 0 value"@,
        RuleKind::SetDelete => "DEL key"@,
        RuleKind::SetDeleteMember => "SREM key member"@,
        RuleKind::ZSetDelete => "DEL key"@,
        RuleKind::ZSetDeleteMember => "ZREM key member"@,
    }
}

/// A rule: a kind (deciding its predicate and builder), its template
/// identifier, and descriptive metadata.
pub struct Rule {
    pub kind: RuleKind,
    pub template_name: String,
    pub matcher_name: String,
    pub sql_pattern: String,
    pub redis_pattern: String,
}

/// A rule carries the template identifier and descriptive metadata of its
/// kind.
pub open spec fn spec_rule_wf(r: Rule) -> bool {
    &&& r.template_name@ == spec_template_name(r.kind)
    &&& r.matcher_name@ == spec_matcher_name(r.kind)
    &&& r.sql_pattern@ == spec_sql_pattern(r.kind)
    &&& r.redis_pattern@ == spec_redis_pattern(r.kind)
}

impl Rule {
    /// Whether this rule's shape predicate holds of a statement.
    pub fn matches(&self, stmt: &SqlStatement) -> (r: bool)
        ensures
            r == spec_rule_matches(self.kind, *stmt),
    {
        match self.kind {
            RuleKind::StringGet => matchers::select::is_string_get(stmt),
            RuleKind::StringGetValue => matchers::select::is_string_get_value(stmt),
            RuleKind::HashGetAll => matchers::select::is_hash_getall(stmt),
            RuleKind::HashGet => matchers::select::is_hash_get(stmt),
            RuleKind::HashMultiGet => matchers::select::is_hash_hmget(stmt),
            RuleKind::ListGetAll => matchers::select::is_list_getall(stmt),
            RuleKind::ListGetIndex => matchers::select::is_list_get_index(stmt),
            RuleKind::ListGetRange => matchers::select::is_list_get_range(stmt),
            RuleKind::SetGetAll => matchers::select::is_set_getall(stmt),
            RuleKind::SetIsMember => matchers::select::is_set_ismember(stmt),
            RuleKind::ZSetGetAll => matchers::select::is_zset_getall(stmt),
            RuleKind::ZSetGetScoreRange => matchers::select::is_zset_get_score_range(stmt),
            RuleKind::ZSetGetReversed => matchers::select::is_zset_get_reversed(stmt),
            RuleKind::StringSet => matchers::insert::is_string_set(stmt),
            RuleKind::HashSet => matchers::insert::is_hash_set(stmt),
            RuleKind::ListPush => matchers::insert::is_list_push(stmt),
            RuleKind::SetAdd => matchers::insert::is_set_add(stmt),
            RuleKind::ZSetAdd => matchers::insert::is_zset_add(stmt),
            RuleKind::StringUpdate => matchers::update::is_string_update(stmt),
            RuleKind::HashUpdate => matchers::update::is_hash_update(stmt),
            RuleKind::ListUpdate => matchers::update::is_list_update(stmt),
            RuleKind::ZSetUpdate => matchers::update::is_zset_update(stmt),
            RuleKind::StringDelete => matchers::delete::is_string_delete(stmt),
            RuleKind::HashDelete => matchers::delete::is_hash_delete(stmt),
            RuleKind::HashDeleteField => matchers::delete::is_hash_delete_field(stmt),
            RuleKind::ListDelete => matchers::delete::is_list_delete(stmt),
            RuleKind::ListDeleteValue => matchers::delete::is_list_delete_value(stmt),
            RuleKind::SetDelete => matchers::delete::is_set_delete(stmt),
            RuleKind::SetDeleteMember => matchers::delete::is_set_delete_member(stmt),
            RuleKind::ZSetDeleteMember => matchers::delete::is_zset_delete_member(stmt),
            RuleKind::ZSetDelete => matchers::delete::is_zset_delete(stmt),
        }
    }

    /// Build this rule's template context for a statement.
    pub fn get_context(&self, stmt: &SqlStatement) -> (r: Option<TemplateContext>)
        ensures
            match (r, spec_rule_context(self.kind, *stmt)) {
                (Some(a), Some(b)) => a.deep_view() == b,
                (None, None) => true,
                _ => false,
            },
    {
        match self.kind {
            RuleKind::StringGet => (crate::context::StringGetContextBuilder {}).build_context(stmt),
            RuleKind::StringGetValue => (crate::context::StringGetValueContextBuilder {}).build_context(stmt),
            RuleKind::HashGetAll => (crate::context::HashGetAllContextBuilder {}).build_context(stmt),
            RuleKind::HashGet => (crate::context::HashGetContextBuilder {}).build_context(stmt),
            RuleKind::HashMultiGet => (crate::context::HashMultiGetContextBuilder {}).build_context(stmt),
            RuleKind::ListGetAll => (crate::context::ListGetAllContextBuilder {}).build_context(stmt),
            RuleKind::ListGetIndex => (crate::context::ListGetIndexContextBuilder {}).build_context(stmt),
            RuleKind::ListGetRange => (crate::context::ListGetRangeContextBuilder {}).build_context(stmt),
            RuleKind::SetGetAll => (crate::context::SetGetAllContextBuilder {}).build_context(stmt),
            RuleKind::SetIsMember => (crate::context::SetIsMemberContextBuilder {}).build_context(stmt),
            RuleKind::ZSetGetAll => (crate::context::ZSetGetAllContextBuilder {}).build_context(stmt),
            RuleKind::ZSetGetScoreRange => (crate::context::ZSetGetScoreRangeContextBuilder {}).build_context(stmt),
            RuleKind::ZSetGetReversed => (crate::context::ZSetGetReversedContextBuilder {}).build_context(stmt),
            RuleKind::StringSet => (crate::context::StringSetContextBuilder {}).build_context(stmt),
            RuleKind::HashSet => (crate::context::HashSetContextBuilder {}).build_context(stmt),
            RuleKind::ListPush => (crate::context::ListPushContextBuilder {}).build_context(stmt),
            RuleKind::SetAdd => (crate::context::SetAddContextBuilder {}).build_context(stmt),
            RuleKind::ZSetAdd => (crate::context::ZSetAddContextBuilder {}).build_context(stmt),
            RuleKind::StringUpdate => (crate::context::StringUpdateContextBuilder {}).build_context(stmt),
            RuleKind::HashUpdate => (crate::context::HashUpdateContextBuilder {}).build_context(stmt),
            RuleKind::ListUpdate => (crate::context::ListUpdateContextBuilder {}).build_context(stmt),
            RuleKind::ZSetUpdate => (crate::context::ZSetUpdateContextBuilder {}).build_context(stmt),
            RuleKind::StringDelete => (crate::context::StringDeleteContextBuilder {}).build_context(stmt),
            RuleKind::HashDelete => (crate::context::HashDeleteContextBuilder {}).build_context(stmt),
            RuleKind::HashDeleteField => (crate::context::HashDeleteFieldContextBuilder {}).build_context(stmt),
            RuleKind::ListDelete => (crate::context::ListDeleteContextBuilder {}).build_context(stmt),
            RuleKind::ListDeleteValue => (crate::context::ListDeleteValueContextBuilder {}).build_context(stmt),
            RuleKind::SetDelete => (crate::context::SetDeleteContextBuilder {}).build_context(stmt),
            RuleKind::SetDeleteMember => (crate::context::SetDeleteMemberContextBuilder {}).build_context(stmt),
            RuleKind::ZSetDeleteMember => (crate::context::ZSetDeleteMemberContextBuilder {}).build_context(stmt),
            RuleKind::ZSetDelete => (crate::context::ZSetDeleteContextBuilder {}).build_context(stmt),
        }
    }

    /// The template identifier this rule renders.
    pub fn get_template_name(&self) -> (r: &str)
        ensures
            r@ == self.template_name@,
    {
        self.template_name.as_str()
    }

    /// The name of the shape predicate, for pattern listings.
    pub fn get_matcher_name(&self) -> (r: &str)
        ensures
            r@ == self.matcher_name@,
    {
        self.matcher_name.as_str()
    }

    /// The SQL shape this rule matches, for pattern listings.
    pub fn get_sql_pattern(&self) -> (r: &str)
        ensures
            r@ == self.sql_pattern@,
    {
        self.sql_pattern.as_str()
    }

    /// The Redis shape this rule emits, for pattern listings.
    pub fn get_redis_pattern(&self) -> (r: &str)
        ensures
            r@ == self.redis_pattern@,
    {
        self.redis_pattern.as_str()
    }
}

/// Make one rule with its metadata.
pub fn mk_rule(
    kind: RuleKind,
    template_name: &str,
    matcher_name: &str,
    sql_pattern: &str,
    redis_pattern: &str,
) -> (r: Rule)
    ensures
        r.kind == kind,
        r.template_name@ == template_name@,
        r.matcher_name@ == matcher_name@,
        r.sql_pattern@ == sql_pattern@,
        r.redis_pattern@ == redis_pattern@,
{
    Rule {
        kind,
        template_name: template_name.to_owned(),
        matcher_name: matcher_name.to_owned(),
        sql_pattern: sql_pattern.to_owned(),
        redis_pattern: redis_pattern.to_owned(),
    }
}

/// The registry order: SELECT, INSERT, UPDATE, DELETE rule kinds.
pub open spec fn spec_rule_kinds() -> Seq<RuleKind> {
    select::spec_select_rule_kinds() + insert::spec_insert_rule_kinds()
        + update::spec_update_rule_kinds() + delete::spec_delete_rule_kinds()
}

/// A rule applies when its predicate matches and its builder succeeds.
pub open spec fn spec_applies(k: RuleKind, stmt: SqlStatement) -> bool {
    spec_rule_matches(k, stmt) && spec_rule_context(k, stmt) is Some
}

/// First-match-wins dispatch over an ordered kind list.
pub open spec fn spec_first_match(ks: Seq<RuleKind>, stmt: SqlStatement) -> Option<RuleKind>
    decreases ks.len(),
{
    if ks.len() == 0 {
        None
    } else if spec_applies(ks[0], stmt) {
        Some(ks[0])
    } else {
        spec_first_match(ks.drop_first(), stmt)
    }
}

/// First-match-wins is insensitive to the order of two adjacent rules of
/// which at most one applies to the statement at hand: swapping them leaves
/// the dispatch result unchanged. The law is stated for adjacent pairs
/// because it is false for a transposition across a distance: if a third
/// rule standing between the two also applies, moving an applying rule past
/// it changes which rule wins.
pub proof fn lemma_first_match_swap_adjacent(
    ks1: Seq<RuleKind>,
    ks2: Seq<RuleKind>,
    i: int,
    stmt: SqlStatement,
)
    requires
        0 <= i,
        i + 1 < ks1.len(),
        ks2 == ks1.update(i, ks1[i + 1]).update(i + 1, ks1[i]),
        !(spec_applies(ks1[i], stmt) && spec_applies(ks1[i + 1], stmt)),
    ensures
        spec_first_match(ks1, stmt) == spec_first_match(ks2, stmt),
    decreases i,
{
    if i == 0 {
        if spec_applies(ks1[0], stmt) {
            assert(!spec_applies(ks1[1], stmt));
            assert(ks2[0] == ks1[1] && ks2[1] == ks1[0]);
            assert(spec_first_match(ks2, stmt) == spec_first_match(ks2.drop_first(), stmt));
            assert(ks2.drop_first()[0] == ks1[0]);
            assert(spec_first_match(ks2.drop_first(), stmt) == Some(ks1[0]));
        } else if spec_applies(ks1[1], stmt) {
            assert(spec_first_match(ks1, stmt) == spec_first_match(ks1.drop_first(), stmt));
            assert(ks1.drop_first()[0] == ks1[1]);
            assert(spec_first_match(ks1.drop_first(), stmt) == Some(ks1[1]));
            assert(ks2[0] == ks1[1]);
        } else {
            assert(ks1.drop_first().drop_first() =~= ks2.drop_first().drop_first());
            assert(spec_first_match(ks1, stmt) == spec_first_match(
                ks1.drop_first().drop_first(),
                stmt,
            ));
            assert(spec_first_match(ks2, stmt) == spec_first_match(
                ks2.drop_first().drop_first(),
                stmt,
            ));
        }
    } else {
        assert(ks2[0] == ks1[0]);
        if spec_applies(ks1[0], stmt) {
        } else {
            assert(ks2.drop_first() =~= ks1.drop_first().update(i - 1, ks1.drop_first()[i]).update(
                i,
                ks1.drop_first()[i - 1],
            ));
            lemma_first_match_swap_adjacent(ks1.drop_first(), ks2.drop_first(), i - 1, stmt);
        }
    }
}

/// Swapping two adjacent rules that both apply to a statement, none of the
/// earlier rules applying, changes only which of the two is returned.
pub proof fn lemma_first_match_swap_overlapping(
    ks1: Seq<RuleKind>,
    ks2: Seq<RuleKind>,
    i: int,
    stmt: SqlStatement,
)
    requires
        0 <= i,
        i + 1 < ks1.len(),
        ks2 == ks1.update(i, ks1[i + 1]).update(i + 1, ks1[i]),
        spec_applies(ks1[i], stmt),
        spec_applies(ks1[i + 1], stmt),
        forall|j: int| 0 <= j < i ==> !spec_applies(#[trigger] ks1[j], stmt),
    ensures
        spec_first_match(ks1, stmt) == Some(ks1[i]),
        spec_first_match(ks2, stmt) == Some(ks1[i + 1]),
    decreases i,
{
    if i == 0 {
        assert(ks2[0] == ks1[1]);
    } else {
        assert(ks2[0] == ks1[0]);
        assert(!spec_applies(ks1[0], stmt));
        assert(ks2.drop_first() =~= ks1.drop_first().update(i - 1, ks1.drop_first()[i]).update(
            i,
            ks1.drop_first()[i - 1],
        ));
        assert(forall|j: int|
            0 <= j < i - 1 ==> !spec_applies(#[trigger] ks1.drop_first()[j], stmt));
        lemma_first_match_swap_overlapping(ks1.drop_first(), ks2.drop_first(), i - 1, stmt);
    }
}

/// Creates all the rules for SQL to Redis transformations, in registry
/// order: SELECT, INSERT, UPDATE, DELETE.
pub fn create_rules() -> (r: Vec<Rule>)
    ensures
        r@.map_values(|x: Rule| x.kind) == spec_rule_kinds(),
        forall|i: int| 0 <= i < r@.len() ==> spec_rule_wf(#[trigger] r@[i]),
{
    let mut rules = create_select_rules();
    let mut insert_rules = create_insert_rules();
    let mut update_rules = create_update_rules();
    let mut delete_rules = create_delete_rules();
    let ghost g0 = rules@;
    rules.append(&mut insert_rules);
    let ghost g1 = rules@;
    rules.append(&mut update_rules);
    let ghost g2 = rules@;
    rules.append(&mut delete_rules);
    proof {
        assert(rules@.map_values(|x: Rule| x.kind) =~= spec_rule_kinds());
    }
    rules
}

} // verus!
