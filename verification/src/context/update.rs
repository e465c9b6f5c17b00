// Context builders for UPDATE statement transformations. The WHERE values
// are searched through conjunctions; the SET assignments keep their written
// order.

use vstd::prelude::*;

use crate::ast::insert::spec_pairs_get;
use crate::ast::update::{
    spec_upd_assignments, spec_upd_field_filter, spec_upd_key_value,
};
use crate::ast::SqlStatement;
use crate::context::{ContextBuilder, TemplateContext, ctx2, ctx3, join_sep, spec_join_sep};

verus! {

/// One `field value` text per assignment pair.
pub open spec fn spec_assignment_parts(pairs: Seq<(Seq<char>, Seq<char>)>) -> Seq<Seq<char>> {
    pairs.map_values(|p: (Seq<char>, Seq<char>)| p.0 + " "@ + p.1)
}

fn assignment_parts(pairs: &Vec<(String, String)>) -> (r: Vec<String>)
    ensures
        r.deep_view() =~= spec_assignment_parts(pairs.deep_view()),
{
    let ghost gpairs = pairs.deep_view();
    let mut out: Vec<String> = Vec::new();
    let mut i: usize = 0;
    while i < pairs.len()
        invariant
            gpairs == pairs.deep_view(),
            gpairs.len() == pairs@.len(),
            i <= pairs@.len(),
            out@.len() == i,
            forall|j: int|
                0 <= j < i ==> #[trigger] out@[j]@ == gpairs[j].0 + " "@ + gpairs[j].1,
        decreases pairs@.len() - i,
    {
        proof {
            assert(gpairs[i as int] == (pairs@[i as int].0@, pairs@[i as int].1@));
        }
        let mut part = pairs[i].0.clone();
        part.append(" ");
        part.append(pairs[i].1.as_str());
        out.push(part);
        i += 1;
    }
    proof {
        assert(out.deep_view() =~= spec_assignment_parts(gpairs));
    }
    out
}

/// Builder for string SET commands (update)
pub struct StringUpdateContextBuilder;

impl ContextBuilder for StringUpdateContextBuilder {
    open spec fn spec_context(&self, stmt: SqlStatement) -> Option<Seq<(Seq<char>, Seq<char>)>> {
        match (spec_upd_key_value(stmt), spec_upd_assignments(stmt)) {
            (Some(key), Some(pairs)) => match spec_pairs_get(pairs, "value"@) {
                Some(value) => Some(seq![("key"@, key), ("value"@, value)]),
                None => None,
            },
            _ => None,
        }
    }

    fn build_context(&self, stmt: &SqlStatement) -> (r: Option<TemplateContext>) {
        let key = match crate::ast::upd_get_key_value(stmt) {
            Some(k) => k,
            None => { return None },
        };
        let assignments = match crate::ast::upd_get_assignments(stmt) {
            Some(a) => a,
            None => { return None },
        };
        match crate::ast::insert::pairs_get(&assignments, "value") {
            Some(value) => Some(ctx2("key", key, "value", value)),
            None => None,
        }
    }
}

/// Builder for hash HSET commands (update)
pub struct HashUpdateContextBuilder;

impl ContextBuilder for HashUpdateContextBuilder {
    open spec fn spec_context(&self, stmt: SqlStatement) -> Option<Seq<(Seq<char>, Seq<char>)>> {
        match (spec_upd_key_value(stmt), spec_upd_assignments(stmt)) {
            (Some(key), Some(pairs)) => Some(
                seq![
                    ("key"@, key),
                    ("field_values"@, spec_join_sep(spec_assignment_parts(pairs), " "@)),
                ],
            ),
            _ => None,
        }
    }

    fn build_context(&self, stmt: &SqlStatement) -> (r: Option<TemplateContext>) {
        let key = match crate::ast::upd_get_key_value(stmt) {
            Some(k) => k,
            None => { return None },
        };
        let assignments = match crate::ast::upd_get_assignments(stmt) {
            Some(a) => a,
            None => { return None },
        };
        let parts = assignment_parts(&assignments);
        let joined = join_sep(&parts, " ");
        Some(ctx2("key", key, "field_values", joined))
    }
}

/// Builder for list LSET commands
pub struct ListUpdateContextBuilder;

impl ContextBuilder for ListUpdateContextBuilder {
    open spec fn spec_context(&self, stmt: SqlStatement) -> Option<Seq<(Seq<char>, Seq<char>)>> {
        match (spec_upd_key_value(stmt), spec_upd_field_filter(stmt, "index"@)) {
            (Some(key), Some(index)) => match spec_upd_assignments(stmt) {
                Some(pairs) => match spec_pairs_get(pairs, "value"@) {
                    Some(value) => Some(
                        seq![("key"@, key), ("index"@, index), ("value"@, value)],
                    ),
                    None => None,
                },
                None => None,
            },
            _ => None,
        }
    }

    fn build_context(&self, stmt: &SqlStatement) -> (r: Option<TemplateContext>) {
        let key = match crate::ast::upd_get_key_value(stmt) {
            Some(k) => k,
            None => { return None },
        };
        let index = match crate::ast::upd_get_field_filter(stmt, "index") {
            Some(ix) => ix,
            None => { return None },
        };
        let assignments = match crate::ast::upd_get_assignments(stmt) {
            Some(a) => a,
            None => { return None },
        };
        match crate::ast::insert::pairs_get(&assignments, "value") {
            Some(value) => Some(ctx3("key", key, "index", index, "value", value)),
            None => None,
        }
    }
}

/// Builder for sorted set ZADD commands (update score)
pub struct ZSetUpdateContextBuilder;

impl ContextBuilder for ZSetUpdateContextBuilder {
    open spec fn spec_context(&self, stmt: SqlStatement) -> Option<Seq<(Seq<char>, Seq<char>)>> {
        match (spec_upd_key_value(stmt), spec_upd_field_filter(stmt, "member"@)) {
            (Some(key), Some(member)) => match spec_upd_assignments(stmt) {
                Some(pairs) => match spec_pairs_get(pairs, "score"@) {
                    Some(score) => Some(
                        seq![("key"@, key), ("member"@, member), ("score"@, score)],
                    ),
                    None => None,
                },
                None => None,
            },
            _ => None,
        }
    }

    fn build_context(&self, stmt: &SqlStatement) -> (r: Option<TemplateContext>) {
        let key = match crate::ast::upd_get_key_value(stmt) {
            Some(k) => k,
            None => { return None },
        };
        let member = match crate::ast::upd_get_field_filter(stmt, "member") {
            Some(m) => m,
            None => { return None },
        };
        let assignments = match crate::ast::upd_get_assignments(stmt) {
            Some(a) => a,
            None => { return None },
        };
        match crate::ast::insert::pairs_get(&assignments, "score") {
            Some(score) => Some(ctx3("key", key, "member", member, "score", score)),
            None => None,
        }
    }
}

} // verus!
