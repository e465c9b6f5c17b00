// Context builders for SELECT statement transformations. Each builder
// extracts exactly the variables its template needs from the statement,
// using the top-level WHERE accessors of the SELECT family.

use vstd::prelude::*;

use crate::ast::select::{
    spec_sel_field_name, spec_sel_field_names, spec_sel_key_value, spec_sel_limit,
    spec_sel_score_range,
};
use crate::ast::SqlStatement;
use crate::commands::spec_stop_text;
use crate::context::{ContextBuilder, TemplateContext, ctx1, ctx2, ctx3, join_sep, spec_join_sep};
use crate::numutil::u64_to_dec_string;
use crate::pattern::matchers::select::spec_stmt_select;

verus! {

/// The top-level key of a plain SELECT.
pub open spec fn spec_select_key(stmt: SqlStatement) -> Option<Seq<char>> {
    match spec_stmt_select(stmt) {
        Some(s) => spec_sel_key_value(s.selection),
        None => None,
    }
}

fn select_key(stmt: &SqlStatement) -> (r: Option<String>)
    ensures
        match (r, spec_select_key(*stmt)) {
            (Some(a), Some(b)) => a@ == b,
            (None, None) => true,
            _ => false,
        },
{
    match crate::ast::sel_get_query(stmt) {
        Some(q) => match crate::ast::sel_get_select(q) {
            Some(s) => crate::ast::sel_get_key_value(&s.selection),
            None => None,
        },
        None => None,
    }
}

/// String GET context builder
pub struct StringGetContextBuilder;

impl ContextBuilder for StringGetContextBuilder {
    open spec fn spec_context(&self, stmt: SqlStatement) -> Option<Seq<(Seq<char>, Seq<char>)>> {
        match spec_select_key(stmt) {
            Some(key) => Some(seq![("key"@, key)]),
            None => None,
        }
    }

    fn build_context(&self, stmt: &SqlStatement) -> (r: Option<TemplateContext>) {
        match select_key(stmt) {
            Some(key) => Some(ctx1("key", key)),
            None => None,
        }
    }
}

/// String GET context builder for a `value` projection; it reuses the
/// plain GET template.
pub struct StringGetValueContextBuilder;

impl ContextBuilder for StringGetValueContextBuilder {
    open spec fn spec_context(&self, stmt: SqlStatement) -> Option<Seq<(Seq<char>, Seq<char>)>> {
        match spec_select_key(stmt) {
            Some(key) => Some(seq![("key"@, key)]),
            None => None,
        }
    }

    fn build_context(&self, stmt: &SqlStatement) -> (r: Option<TemplateContext>) {
        match select_key(stmt) {
            Some(key) => Some(ctx1("key", key)),
            None => None,
        }
    }
}

/// Hash HGETALL context builder
pub struct HashGetAllContextBuilder;

impl ContextBuilder for HashGetAllContextBuilder {
    open spec fn spec_context(&self, stmt: SqlStatement) -> Option<Seq<(Seq<char>, Seq<char>)>> {
        match spec_select_key(stmt) {
            Some(key) => Some(seq![("key"@, key)]),
            None => None,
        }
    }

    fn build_context(&self, stmt: &SqlStatement) -> (r: Option<TemplateContext>) {
        match select_key(stmt) {
            Some(key) => Some(ctx1("key", key)),
            None => None,
        }
    }
}

/// Hash HGET context builder
pub struct HashGetContextBuilder;

impl ContextBuilder for HashGetContextBuilder {
    open spec fn spec_context(&self, stmt: SqlStatement) -> Option<Seq<(Seq<char>, Seq<char>)>> {
        match spec_select_key(stmt) {
            Some(key) => match spec_stmt_select(stmt) {
                Some(s) => {
                    if s.projection@.len() > 0 {
                        match spec_sel_field_name(s.projection@[0]) {
                            Some(field) => Some(seq![("key"@, key), ("field"@, field)]),
                            None => None,
                        }
                    } else {
                        None
                    }
                },
                None => None,
            },
            None => None,
        }
    }

    fn build_context(&self, stmt: &SqlStatement) -> (r: Option<TemplateContext>) {
        let key = match select_key(stmt) {
            Some(key) => key,
            None => { return None },
        };
        let s = match crate::ast::sel_get_query(stmt) {
            Some(q) => match crate::ast::sel_get_select(q) {
                Some(s) => s,
                None => { return None },
            },
            None => { return None },
        };
        if s.projection.len() == 0 {
            return None;
        }
        match crate::ast::sel_get_field_name(&s.projection[0]) {
            Some(field) => Some(ctx2("key", key, "field", field)),
            None => None,
        }
    }
}

/// The quoted form of each field, for script-style variable lists.
pub open spec fn spec_quoted(f: Seq<char>) -> Seq<char> {
    "'"@ + f + "'"@
}

pub open spec fn spec_quoted_all(fields: Seq<Seq<char>>) -> Seq<Seq<char>> {
    fields.map_values(|f: Seq<char>| spec_quoted(f))
}

fn quoted_all(fields: &Vec<String>) -> (r: Vec<String>)
    ensures
        r.deep_view() =~= spec_quoted_all(fields.deep_view()),
{
    let ghost gfields = fields.deep_view();
    let mut out: Vec<String> = Vec::new();
    let mut i: usize = 0;
    while i < fields.len()
        invariant
            gfields == fields.deep_view(),
            gfields.len() == fields@.len(),
            i <= fields@.len(),
            out@.len() == i,
            forall|j: int| 0 <= j < i ==> #[trigger] out@[j]@ == spec_quoted(gfields[j]),
        decreases fields@.len() - i,
    {
        let mut q = String::from_str("'");
        q.append(fields[i].as_str());
        q.append("'");
        proof {
            assert(gfields[i as int] == fields@[i as int]@);
        }
        out.push(q);
        i += 1;
    }
    proof {
        assert(out.deep_view() =~= spec_quoted_all(gfields));
    }
    out
}

/// Hash HMGET context builder for multiple fields
pub struct HashMultiGetContextBuilder;

impl ContextBuilder for HashMultiGetContextBuilder {
    open spec fn spec_context(&self, stmt: SqlStatement) -> Option<Seq<(Seq<char>, Seq<char>)>> {
        match spec_select_key(stmt) {
            Some(key) => match spec_stmt_select(stmt) {
                Some(s) => {
                    let fields = spec_sel_field_names(s.projection@);
                    if fields.len() == 0 {
                        None
                    } else {
                        Some(
                            seq![
                                ("key"@, key),
                                ("fields"@, spec_join_sep(fields, " "@)),
                                ("fields_array"@, spec_join_sep(spec_quoted_all(fields), ", "@)),
                            ],
                        )
                    }
                },
                None => None,
            },
            None => None,
        }
    }

    fn build_context(&self, stmt: &SqlStatement) -> (r: Option<TemplateContext>) {
        let key = match select_key(stmt) {
            Some(key) => key,
            None => { return None },
        };
        let s = match crate::ast::sel_get_query(stmt) {
            Some(q) => match crate::ast::sel_get_select(q) {
                Some(s) => s,
                None => { return None },
            },
            None => { return None },
        };
        let fields = crate::ast::sel_get_field_names(&s.projection);
        if fields.len() == 0 {
            return None;
        }
        let joined = join_sep(&fields, " ");
        let quoted = quoted_all(&fields);
        let array = join_sep(&quoted, ", ");
        Some(ctx3("key", key, "fields", joined, "fields_array", array))
    }
}

/// List LRANGE (all elements) context builder
pub struct ListGetAllContextBuilder;

impl ContextBuilder for ListGetAllContextBuilder {
    open spec fn spec_context(&self, stmt: SqlStatement) -> Option<Seq<(Seq<char>, Seq<char>)>> {
        match spec_select_key(stmt) {
            Some(key) => Some(seq![("key"@, key), ("start"@, "0"@), ("stop"@, "-1"@)]),
            None => None,
        }
    }

    fn build_context(&self, stmt: &SqlStatement) -> (r: Option<TemplateContext>) {
        match select_key(stmt) {
            Some(key) => Some(
                ctx3("key", key, "start", "0".to_owned(), "stop", "-1".to_owned()),
            ),
            None => None,
        }
    }
}

/// List LINDEX context builder
pub struct ListGetIndexContextBuilder;

impl ContextBuilder for ListGetIndexContextBuilder {
    open spec fn spec_context(&self, stmt: SqlStatement) -> Option<Seq<(Seq<char>, Seq<char>)>> {
        match spec_select_key(stmt) {
            Some(key) => match spec_stmt_select(stmt) {
                Some(s) => match crate::ast::select::spec_sel_field_filter(
                    s.selection,
                    "index"@,
                ) {
                    Some(index) => Some(seq![("key"@, key), ("index"@, index)]),
                    None => None,
                },
                None => None,
            },
            None => None,
        }
    }

    fn build_context(&self, stmt: &SqlStatement) -> (r: Option<TemplateContext>) {
        let key = match select_key(stmt) {
            Some(key) => key,
            None => { return None },
        };
        let s = match crate::ast::sel_get_query(stmt) {
            Some(q) => match crate::ast::sel_get_select(q) {
                Some(s) => s,
                None => { return None },
            },
            None => { return None },
        };
        match crate::ast::sel_get_field_filter(&s.selection, "index") {
            Some(index) => Some(ctx2("key", key, "index", index)),
            None => None,
        }
    }
}

/// List LRANGE with limit context builder
pub struct ListGetRangeContextBuilder;

impl ContextBuilder for ListGetRangeContextBuilder {
    open spec fn spec_context(&self, stmt: SqlStatement) -> Option<Seq<(Seq<char>, Seq<char>)>> {
        match spec_select_key(stmt) {
            Some(key) => match stmt {
                SqlStatement::Query(q) => match spec_sel_limit(*q) {
                    Some(limit) => Some(
                        seq![("key"@, key), ("start"@, "0"@), ("stop"@, spec_stop_text(limit))],
                    ),
                    None => None,
                },
                _ => None,
            },
            None => None,
        }
    }

    fn build_context(&self, stmt: &SqlStatement) -> (r: Option<TemplateContext>) {
        let key = match select_key(stmt) {
            Some(key) => key,
            None => { return None },
        };
        match stmt {
            SqlStatement::Query(q) => match crate::ast::sel_get_limit(q) {
                Some(limit) => {
                    let stop = if limit == 0 {
                        "-1".to_owned()
                    } else {
                        u64_to_dec_string(limit - 1)
                    };
                    Some(ctx3("key", key, "start", "0".to_owned(), "stop", stop))
                },
                None => None,
            },
            _ => None,
        }
    }
}

/// Set SMEMBERS context builder
pub struct SetGetAllContextBuilder;

impl ContextBuilder for SetGetAllContextBuilder {
    open spec fn spec_context(&self, stmt: SqlStatement) -> Option<Seq<(Seq<char>, Seq<char>)>> {
        match spec_select_key(stmt) {
            Some(key) => Some(seq![("key"@, key)]),
            None => None,
        }
    }

    fn build_context(&self, stmt: &SqlStatement) -> (r: Option<TemplateContext>) {
        match select_key(stmt) {
            Some(key) => Some(ctx1("key", key)),
            None => None,
        }
    }
}

/// Set SISMEMBER context builder
pub struct SetIsMemberContextBuilder;

impl ContextBuilder for SetIsMemberContextBuilder {
    open spec fn spec_context(&self, stmt: SqlStatement) -> Option<Seq<(Seq<char>, Seq<char>)>> {
        match spec_select_key(stmt) {
            Some(key) => match spec_stmt_select(stmt) {
                Some(s) => match crate::ast::select::spec_sel_field_filter(
                    s.selection,
                    "member"@,
                ) {
                    Some(member) => Some(seq![("key"@, key), ("member"@, member)]),
                    None => None,
                },
                None => None,
            },
            None => None,
        }
    }

    fn build_context(&self, stmt: &SqlStatement) -> (r: Option<TemplateContext>) {
        let key = match select_key(stmt) {
            Some(key) => key,
            None => { return None },
        };
        let s = match crate::ast::sel_get_query(stmt) {
            Some(q) => match crate::ast::sel_get_select(q) {
                Some(s) => s,
                None => { return None },
            },
            None => { return None },
        };
        match crate::ast::sel_get_field_filter(&s.selection, "member") {
            Some(member) => Some(ctx2("key", key, "member", member)),
            None => None,
        }
    }
}

/// ZSet ZRANGEBYSCORE (all elements) context builder: the full range is
/// supplied whatever the WHERE clause holds, because the matching rule
/// requires the absence of a score condition.
pub struct ZSetGetAllContextBuilder;

impl ContextBuilder for ZSetGetAllContextBuilder {
    open spec fn spec_context(&self, stmt: SqlStatement) -> Option<Seq<(Seq<char>, Seq<char>)>> {
        match spec_select_key(stmt) {
            Some(key) => Some(seq![("key"@, key), ("min"@, "-inf"@), ("max"@, "+inf"@)]),
            None => None,
        }
    }

    fn build_context(&self, stmt: &SqlStatement) -> (r: Option<TemplateContext>) {
        match select_key(stmt) {
            Some(key) => Some(
                ctx3("key", key, "min", "-inf".to_owned(), "max", "+inf".to_owned()),
            ),
            None => None,
        }
    }
}

/// ZSet ZRANGEBYSCORE with score range context builder
pub struct ZSetGetScoreRangeContextBuilder;

impl ContextBuilder for ZSetGetScoreRangeContextBuilder {
    open spec fn spec_context(&self, stmt: SqlStatement) -> Option<Seq<(Seq<char>, Seq<char>)>> {
        match spec_select_key(stmt) {
            Some(key) => match spec_stmt_select(stmt) {
                Some(s) => match spec_sel_score_range(s.selection) {
                    Some(range) => Some(
                        seq![("key"@, key), ("min"@, range.0), ("max"@, range.1)],
                    ),
                    None => None,
                },
                None => None,
            },
            None => None,
        }
    }

    fn build_context(&self, stmt: &SqlStatement) -> (r: Option<TemplateContext>) {
        let key = match select_key(stmt) {
            Some(key) => key,
            None => { return None },
        };
        let s = match crate::ast::sel_get_query(stmt) {
            Some(q) => match crate::ast::sel_get_select(q) {
                Some(s) => s,
                None => { return None },
            },
            None => { return None },
        };
        match crate::ast::sel_get_score_range(&s.selection) {
            Some((min, max)) => Some(ctx3("key", key, "min", min, "max", max)),
            None => None,
        }
    }
}

/// ZSet ZREVRANGEBYSCORE context builder
pub struct ZSetGetReversedContextBuilder;

impl ContextBuilder for ZSetGetReversedContextBuilder {
    open spec fn spec_context(&self, stmt: SqlStatement) -> Option<Seq<(Seq<char>, Seq<char>)>> {
        match spec_select_key(stmt) {
            Some(key) => Some(seq![("key"@, key), ("max"@, "+inf"@), ("min"@, "-inf"@)]),
            None => None,
        }
    }

    fn build_context(&self, stmt: &SqlStatement) -> (r: Option<TemplateContext>) {
        match select_key(stmt) {
            Some(key) => Some(
                ctx3("key", key, "max", "+inf".to_owned(), "min", "-inf".to_owned()),
            ),
            None => None,
        }
    }
}

} // verus!
