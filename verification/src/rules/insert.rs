// The INSERT rules, in registry order.

use vstd::prelude::*;

use crate::rules::{Rule, RuleKind, mk_rule, spec_rule_wf};

verus! {

pub open spec fn spec_insert_rule_kinds() -> Seq<RuleKind> {
    seq![
        RuleKind::StringSet,
        RuleKind::HashSet,
        RuleKind::ListPush,
        RuleKind::SetAdd,
        RuleKind::ZSetAdd,
    ]
}

/// Create all rules for INSERT statement transformations.
pub fn create_insert_rules() -> (r: Vec<Rule>)
    ensures
        r@.map_values(|x: Rule| x.kind) == spec_insert_rule_kinds(),
        forall|i: int| 0 <= i < r@.len() ==> spec_rule_wf(#[trigger] r@[i]),
{
    let mut rules: Vec<Rule> = Vec::new();
    rules.push(
        mk_rule(
            RuleKind::StringSet,
            "string_set",
            "is_string_set",
            "INSERT INTO table (key, value) VALUES ('key', 'value')",
            "SET key value",
        ),
    );
    rules.push(
        mk_rule(
            RuleKind::HashSet,
            "hash_set",
            "is_hash_set",
            "INSERT INTO table__hash (key, field1, field2) VALUES ('key', 'value1', 'value2')",
            "HSET key field1 value1 field2 value2",
        ),
    );
    rules.push(
        mk_rule(
            RuleKind::ListPush,
            "list_push",
            "is_list_push",
            "INSERT INTO table__list (key, value) VALUES ('key', 'value')",
            "RPUSH key value",
        ),
    );
    rules.push(
        mk_rule(
            RuleKind::SetAdd,
            "set_add",
            "is_set_add",
            "INSERT INTO table__set (key, member) VALUES ('key', 'member')",
            "SADD key member",
        ),
    );
    rules.push(
        mk_rule(
            RuleKind::ZSetAdd,
            "zset_add",
            "is_zset_add",
            "INSERT INTO table__zset (key, member, score) VALUES ('key', 'member', 'score')",
            "ZADD key score member",
        ),
    );
    proof {
        assert(rules@.map_values(|x: Rule| x.kind) =~= spec_insert_rule_kinds());
    }
    rules
}

} // verus!
