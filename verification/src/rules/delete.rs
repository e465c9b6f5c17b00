// The DELETE rules, in registry order.

use vstd::prelude::*;

use crate::rules::{Rule, RuleKind, mk_rule, spec_rule_wf};

verus! {

pub open spec fn spec_delete_rule_kinds() -> Seq<RuleKind> {
    seq![
        RuleKind::StringDelete,
        RuleKind::HashDelete,
        RuleKind::HashDeleteField,
        RuleKind::ListDelete,
        RuleKind::ListDeleteValue,
        RuleKind::SetDelete,
        RuleKind::SetDeleteMember,
        RuleKind::ZSetDelete,
        RuleKind::ZSetDeleteMember,
    ]
}

/// Create all rules for DELETE statement transformations.
pub fn create_delete_rules() -> (r: Vec<Rule>)
    ensures
        r@.map_values(|x: Rule| x.kind) == spec_delete_rule_kinds(),
        forall|i: int| 0 <= i < r@.len() ==> spec_rule_wf(#[trigger] r@[i]),
{
    let mut rules: Vec<Rule> = Vec::new();
    rules.push(
        mk_rule(
            RuleKind::StringDelete,
            "del",
            "is_string_delete",
            "DELETE FROM table WHERE key = 'key'",
            "DEL key",
        ),
    );
    rules.push(
        mk_rule(
            RuleKind::HashDelete,
            "hash_delete",
            "is_hash_delete",
            "DELETE FROM table__hash WHERE key = 'key'",
            "DEL key",
        ),
    );
    rules.push(
        mk_rule(
            RuleKind::HashDeleteField,
            "hash_delete_field",
            "is_hash_delete_field",
            "DELETE FROM table__hash WHERE key = 'key' AND field = 'field'",
            "HDEL key field",
        ),
    );
    rules.push(
        mk_rule(
            RuleKind::ListDelete,
            "list_delete",
            "is_list_delete",
            "DELETE FROM table__list WHERE key = 'key'",
            "DEL key",
        ),
    );
    rules.push(
        mk_rule(
            RuleKind::ListDeleteValue,
            "list_delete_value",
            "is_list_delete_value",
            "DELETE FROM table__list WHERE key = 'key' AND value = 'value'",
            "LREM key 0 value",
        ),
    );
    rules.push(
        mk_rule(
            RuleKind::SetDelete,
            "set_delete",
            "is_set_delete",
            "DELETE FROM table__set WHERE key = 'key'",
            "DEL key",
        ),
    );
    rules.push(
        mk_rule(
            RuleKind::SetDeleteMember,
            "set_delete_member",
            "is_set_delete_member",
            "DELETE FROM table__set WHERE key = 'key' AND member = 'member'",
            "SREM key member",
        ),
    );
    rules.push(
        mk_rule(
            RuleKind::ZSetDelete,
            "zset_delete",
            "is_zset_delete",
            "DELETE FROM table__zset WHERE key = 'key'",
            "DEL key",
        ),
    );
    rules.push(
        mk_rule(
            RuleKind::ZSetDeleteMember,
            "zset_delete_member",
            "is_zset_delete_member",
            "DELETE FROM table__zset WHERE key = 'key' AND member = 'member'",
            "ZREM key member",
        ),
    );
    proof {
        assert(rules@.map_values(|x: Rule| x.kind) =~= spec_delete_rule_kinds());
    }
    rules
}

} // verus!
