// The SELECT rules, in registry order.

use vstd::prelude::*;

use crate::rules::{Rule, RuleKind, mk_rule, spec_rule_wf};

verus! {

pub open spec fn spec_select_rule_kinds() -> Seq<RuleKind> {
    seq![
        RuleKind::StringGet,
        RuleKind::StringGetValue,
        RuleKind::HashGetAll,
        RuleKind::HashGet,
        RuleKind::HashMultiGet,
        RuleKind::ListGetAll,
        RuleKind::ListGetIndex,
        RuleKind::ListGetRange,
        RuleKind::SetGetAll,
        RuleKind::SetIsMember,
        RuleKind::ZSetGetAll,
        RuleKind::ZSetGetScoreRange,
        RuleKind::ZSetGetReversed,
    ]
}

/// Create all rules for SELECT statement transformations.
pub fn create_select_rules() -> (r: Vec<Rule>)
    ensures
        r@.map_values(|x: Rule| x.kind) == spec_select_rule_kinds(),
        forall|i: int| 0 <= i < r@.len() ==> spec_rule_wf(#[trigger] r@[i]),
{
    let mut rules: Vec<Rule> = Vec::new();
    rules.push(
        mk_rule(
            RuleKind::StringGet,
            "string_get",
            "is_string_get",
            "SELECT * FROM table WHERE key = 'value'",
            "GET value",
        ),
    );
    rules.push(
        mk_rule(
            RuleKind::StringGetValue,
            "string_get",
            "is_string_get_value",
            "SELECT value FROM table WHERE key = 'value'",
            "GET value",
        ),
    );
    rules.push(
        mk_rule(
            RuleKind::HashGetAll,
            "hash_getall",
            "is_hash_getall",
            "SELECT * FROM table__hash WHERE key = 'value'",
            "HGETALL value",
        ),
    );
    rules.push(
        mk_rule(
            RuleKind::HashGet,
            "hash_get",
            "is_hash_get",
            "SELECT field FROM table__hash WHERE key = 'value'",
            "HGET value field",
        ),
    );
    rules.push(
        mk_rule(
            RuleKind::HashMultiGet,
            "hash_hmget",
            "is_hash_hmget",
            "SELECT field1, field2 FROM table__hash WHERE key = 'value'",
            "HMGET value field1 field2...",
        ),
    );
    rules.push(
        mk_rule(
            RuleKind::ListGetAll,
            "list_getall",
            "is_list_getall",
            "SELECT * FROM table__list WHERE key = 'value'",
            "LRANGE value 0 -1",
        ),
    );
    rules.push(
        mk_rule(
            RuleKind::ListGetIndex,
            "list_get_index",
            "is_list_get_index",
            "SELECT * FROM table__list WHERE key = 'value' AND index = n",
            "LINDEX value n",
        ),
    );
    rules.push(
        mk_rule(
            RuleKind::ListGetRange,
            "list_get_range",
            "is_list_get_range",
            "SELECT * FROM table__list WHERE key = 'value' LIMIT n",
            "LRANGE value 0 n-1",
        ),
    );
    rules.push(
        mk_rule(
            RuleKind::SetGetAll,
            "set_getall",
            "is_set_getall",
            "SELECT * FROM table__set WHERE key = 'value'",
            "SMEMBERS value",
        ),
    );
    rules.push(
        mk_rule(
            RuleKind::SetIsMember,
            "set_ismember",
            "is_set_ismember",
            "SELECT * FROM table__set WHERE key = 'value' AND member = 'member'",
            "SISMEMBER value member",
        ),
    );
    rules.push(
        mk_rule(
            RuleKind::ZSetGetAll,
            "zset_getall",
            "is_zset_getall",
            "SELECT * FROM table__zset WHERE key = 'value'",
            "ZRANGEBYSCORE value -inf +inf",
        ),
    );
    rules.push(
        mk_rule(
            RuleKind::ZSetGetScoreRange,
            "zset_get_score_range",
            "is_zset_get_score_range",
            "SELECT * FROM table__zset WHERE key = 'value' AND score > n",
            "ZRANGEBYSCORE value (n +inf",
        ),
    );
    rules.push(
        mk_rule(
            RuleKind::ZSetGetReversed,
            "zset_get_reversed",
            "is_zset_get_reversed",
            "SELECT * FROM table__zset WHERE key = 'value' ORDER BY score DESC",
            "ZREVRANGEBYSCORE value +inf -inf",
        ),
    );
    proof {
        assert(rules@.map_values(|x: Rule| x.kind) =~= spec_select_rule_kinds());
    }
    rules
}

} // verus!
