// Template context building: a flat list of named string variables, one
// builder per output shape. A builder returns the complete variable set its
// template needs, or signals that it cannot, never a partial set. The pair
// list keeps a fixed order so that every derived text is deterministic.

pub mod delete;
pub mod insert;
pub mod select;
pub mod update;

pub use delete::{
    HashDeleteContextBuilder, HashDeleteFieldContextBuilder, ListDeleteContextBuilder,
    ListDeleteValueContextBuilder, SetDeleteContextBuilder, SetDeleteMemberContextBuilder,
    StringDeleteContextBuilder, ZSetDeleteContextBuilder, ZSetDeleteMemberContextBuilder,
};
pub use insert::{
    HashSetContextBuilder, ListPushContextBuilder, SetAddContextBuilder, StringSetContextBuilder,
    ZSetAddContextBuilder,
};
pub use select::{
    HashGetAllContextBuilder, HashGetContextBuilder, HashMultiGetContextBuilder,
    ListGetAllContextBuilder, ListGetIndexContextBuilder, ListGetRangeContextBuilder,
    SetGetAllContextBuilder, SetIsMemberContextBuilder, StringGetContextBuilder,
    StringGetValueContextBuilder, ZSetGetAllContextBuilder, ZSetGetReversedContextBuilder,
    ZSetGetScoreRangeContextBuilder,
};
pub use update::{
    HashUpdateContextBuilder, ListUpdateContextBuilder, StringUpdateContextBuilder,
    ZSetUpdateContextBuilder,
};

use vstd::prelude::*;

use crate::ast::SqlStatement;

verus! {

/// A template context: named string variables in a fixed order.
pub type TemplateContext = Vec<(String, String)>;

/// The variable map a context stands for; a later pair overwrites an
/// earlier one with the same name.
pub open spec fn spec_ctx_map(pairs: Seq<(Seq<char>, Seq<char>)>) -> Map<Seq<char>, Seq<char>>
    decreases pairs.len(),
{
    if pairs.len() == 0 {
        Map::empty()
    } else {
        spec_ctx_map(pairs.drop_last()).insert(pairs.last().0, pairs.last().1)
    }
}

/// Builds the template variables for one output shape.
pub trait ContextBuilder {
    /// The exact variable list this builder produces for a statement, or
    /// nothing when a required value is absent.
    spec fn spec_context(&self, stmt: SqlStatement) -> Option<Seq<(Seq<char>, Seq<char>)>>;

    fn build_context(&self, stmt: &SqlStatement) -> (r: Option<TemplateContext>)
        ensures
            match (r, self.spec_context(*stmt)) {
                (Some(a), Some(b)) => a.deep_view() == b,
                (None, None) => true,
                _ => false,
            },
    ;
}

/// `parts` joined by `sep`.
pub open spec fn spec_join_sep(parts: Seq<Seq<char>>, sep: Seq<char>) -> Seq<char>
    decreases parts.len(),
{
    if parts.len() == 0 {
        Seq::empty()
    } else if parts.len() == 1 {
        parts[0]
    } else {
        spec_join_sep(parts.drop_last(), sep) + sep + parts.last()
    }
}

/// Join string parts with a separator.
pub fn join_sep(parts: &Vec<String>, sep: &str) -> (r: String)
    ensures
        r@ == spec_join_sep(parts.deep_view(), sep@),
{
    let ghost gparts = parts.deep_view();
    let mut out = String::new();
    let mut i: usize = 0;
    proof {
        assert(gparts.subrange(0, 0) =~= Seq::<Seq<char>>::empty());
    }
    while i < parts.len()
        invariant
            gparts == parts.deep_view(),
            gparts.len() == parts@.len(),
            i <= parts@.len(),
            out@ == spec_join_sep(gparts.subrange(0, i as int), sep@),
        decreases parts@.len() - i,
    {
        proof {
            assert(gparts.subrange(0, i + 1).drop_last() =~= gparts.subrange(0, i as int));
            assert(gparts.subrange(0, i + 1).last() == gparts[i as int]);
            assert(gparts[i as int] == parts@[i as int]@);
        }
        if i > 0 {
            out.append(sep);
        }
        out.append(parts[i].as_str());
        i += 1;
        proof {
            if i == 1 {
                assert(out@ == spec_join_sep(gparts.subrange(0, 1), sep@));
            }
        }
    }
    proof {
        assert(gparts.subrange(0, gparts.len() as int) =~= gparts);
    }
    out
}

/// A context of one variable.
pub fn ctx1(k1: &str, v1: String) -> (r: TemplateContext)
    ensures
        r.deep_view() =~= seq![(k1@, v1@)],
{
    let mut c: TemplateContext = Vec::new();
    c.push((k1.to_owned(), v1));
    c
}

/// A context of two variables.
pub fn ctx2(k1: &str, v1: String, k2: &str, v2: String) -> (r: TemplateContext)
    ensures
        r.deep_view() =~= seq![(k1@, v1@), (k2@, v2@)],
{
    let mut c: TemplateContext = Vec::new();
    c.push((k1.to_owned(), v1));
    c.push((k2.to_owned(), v2));
    c
}

/// A context of three variables.
pub fn ctx3(k1: &str, v1: String, k2: &str, v2: String, k3: &str, v3: String) -> (r:
    TemplateContext)
    ensures
        r.deep_view() =~= seq![(k1@, v1@), (k2@, v2@), (k3@, v3@)],
{
    let mut c: TemplateContext = Vec::new();
    c.push((k1.to_owned(), v1));
    c.push((k2.to_owned(), v2));
    c.push((k3.to_owned(), v3));
    c
}

} // verus!
