// The UPDATE rules, in registry order.

use vstd::prelude::*;

use crate::rules::{Rule, RuleKind, mk_rule, spec_rule_wf};

verus! {

pub open spec fn spec_update_rule_kinds() -> Seq<RuleKind> {
    seq![
        RuleKind::StringUpdate,
        RuleKind::HashUpdate,
        RuleKind::ListUpdate,
        RuleKind::ZSetUpdate,
    ]
}

/// Create all rules for UPDATE statement transformations.
pub fn create_update_rules() -> (r: Vec<Rule>)
    ensures
        r@.map_values(|x: Rule| x.kind) == spec_update_rule_kinds(),
        forall|i: int| 0 <= i < r@.len() ==> spec_rule_wf(#[trigger] r@[i]),
{
    let mut rules: Vec<Rule> = Vec::new();
    rules.push(
        mk_rule(
            RuleKind::StringUpdate,
            "string_update",
            "is_string_update",
            "UPDATE table SET value = 'new-value' WHERE key = 'key'",
            "SET key new-value",
        ),
    );
    rules.push(
        mk_rule(
            RuleKind::HashUpdate,
            "hash_update",
            "is_hash_update",
            "UPDATE table__hash SET field1 = 'value1', field2 = 'value2' WHERE key = 'key'",
            "HSET key field1 value1 field2 value2",
        ),
    );
    rules.push(
        mk_rule(
            RuleKind::ListUpdate,
            "list_update",
            "is_list_update",
            "UPDATE table__list SET value = 'new-value' WHERE key = 'key' AND index = 0",
            "LSET key 0 new-value",
        ),
    );
    rules.push(
        mk_rule(
            RuleKind::ZSetUpdate,
            "zset_update",
            "is_zset_update",
            "UPDATE table__zset SET score = 'new-score' WHERE key = 'key' AND member = 'member'",
            "ZADD key new-score member",
        ),
    );
    proof {
        assert(rules@.map_values(|x: Rule| x.kind) =~= spec_update_rule_kinds());
    }
    rules
}

} // verus!
