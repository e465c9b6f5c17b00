// Context builders for INSERT statement transformations. Row maps keep the
// written column order, so positional variable texts are deterministic.

use vstd::prelude::*;

use crate::ast::insert::{
    spec_ins_column_value, spec_ins_row_maps, spec_pairs_get,
};
use crate::ast::SqlStatement;
use crate::context::{ContextBuilder, TemplateContext, ctx2, ctx3, join_sep, spec_join_sep};

verus! {

/// Builder for string SET commands
pub struct StringSetContextBuilder;

impl ContextBuilder for StringSetContextBuilder {
    open spec fn spec_context(&self, stmt: SqlStatement) -> Option<Seq<(Seq<char>, Seq<char>)>> {
        match (
            spec_ins_column_value(stmt, "key"@),
            spec_ins_column_value(stmt, "value"@),
        ) {
            (Some(key), Some(value)) => Some(seq![("key"@, key), ("value"@, value)]),
            _ => None,
        }
    }

    fn build_context(&self, stmt: &SqlStatement) -> (r: Option<TemplateContext>) {
        let key = match crate::ast::ins_get_column_value(stmt, "key") {
            Some(k) => k,
            None => { return None },
        };
        match crate::ast::ins_get_column_value(stmt, "value") {
            Some(value) => Some(ctx2("key", key, "value", value)),
            None => None,
        }
    }
}

/// One `field value` text per pair, skipping the `key` column.
pub open spec fn spec_fv_parts(pairs: Seq<(Seq<char>, Seq<char>)>) -> Seq<Seq<char>>
    decreases pairs.len(),
{
    if pairs.len() == 0 {
        Seq::empty()
    } else {
        spec_fv_parts(pairs.drop_last()) + (if pairs.last().0 != "key"@ {
            seq![pairs.last().0 + " "@ + pairs.last().1]
        } else {
            Seq::empty()
        })
    }
}

/// The `field value ...` texts of a row, skipping the `key` column.
pub fn fv_parts(pairs: &Vec<(String, String)>) -> (r: Vec<String>)
    ensures
        r.deep_view() == spec_fv_parts(pairs.deep_view()),
{
    let ghost gpairs = pairs.deep_view();
    let mut out: Vec<String> = Vec::new();
    let mut i: usize = 0;
    proof {
        assert(gpairs.subrange(0, 0) =~= Seq::<(Seq<char>, Seq<char>)>::empty());
        assert(out.deep_view() =~= spec_fv_parts(gpairs.subrange(0, 0)));
    }
    while i < pairs.len()
        invariant
            gpairs == pairs.deep_view(),
            gpairs.len() == pairs@.len(),
            i <= pairs@.len(),
            out.deep_view() == spec_fv_parts(gpairs.subrange(0, i as int)),
        decreases pairs@.len() - i,
    {
        proof {
            assert(gpairs.subrange(0, i + 1).drop_last() =~= gpairs.subrange(0, i as int));
            assert(gpairs.subrange(0, i + 1).last() == gpairs[i as int]);
            assert(gpairs[i as int] == (pairs@[i as int].0@, pairs@[i as int].1@));
        }
        if !crate::ast::insert::substr_eq(&pairs[i].0, "key") {
            let mut part = pairs[i].0.clone();
            part.append(" ");
            part.append(pairs[i].1.as_str());
            out.push(part);
        }
        i += 1;
        proof {
            assert(out.deep_view() =~= spec_fv_parts(gpairs.subrange(0, i as int)));
        }
    }
    proof {
        assert(gpairs.subrange(0, gpairs.len() as int) =~= gpairs);
    }
    out
}

/// Builder for hash HSET commands
pub struct HashSetContextBuilder;

impl ContextBuilder for HashSetContextBuilder {
    open spec fn spec_context(&self, stmt: SqlStatement) -> Option<Seq<(Seq<char>, Seq<char>)>> {
        match spec_ins_row_maps(stmt) {
            Some(maps) => {
                if maps.len() == 0 {
                    None
                } else {
                    match spec_pairs_get(maps[0], "key"@) {
                        Some(key) => {
                            let parts = spec_fv_parts(maps[0]);
                            if parts.len() == 0 {
                                None
                            } else {
                                Some(
                                    seq![
                                        ("key"@, key),
                                        ("field_values"@, spec_join_sep(parts, " "@)),
                                    ],
                                )
                            }
                        },
                        None => None,
                    }
                }
            },
            None => None,
        }
    }

    fn build_context(&self, stmt: &SqlStatement) -> (r: Option<TemplateContext>) {
        let maps = match crate::ast::ins_get_values_as_maps(stmt) {
            Some(m) => m,
            None => { return None },
        };
        if maps.len() == 0 {
            return None;
        }
        let key = match crate::ast::insert::pairs_get(&maps[0], "key") {
            Some(k) => k,
            None => { return None },
        };
        let parts = fv_parts(&maps[0]);
        if parts.len() == 0 {
            proof {
                assert(maps.deep_view()[0] == maps@[0].deep_view());
            }
            return None;
        }
        proof {
            assert(maps.deep_view()[0] == maps@[0].deep_view());
        }
        let joined = join_sep(&parts, " ");
        Some(ctx2("key", key, "field_values", joined))
    }
}

/// Builder for list RPUSH commands
pub struct ListPushContextBuilder;

impl ContextBuilder for ListPushContextBuilder {
    open spec fn spec_context(&self, stmt: SqlStatement) -> Option<Seq<(Seq<char>, Seq<char>)>> {
        match (
            spec_ins_column_value(stmt, "key"@),
            spec_ins_column_value(stmt, "value"@),
        ) {
            (Some(key), Some(value)) => Some(seq![("key"@, key), ("value"@, value)]),
            _ => None,
        }
    }

    fn build_context(&self, stmt: &SqlStatement) -> (r: Option<TemplateContext>) {
        let key = match crate::ast::ins_get_column_value(stmt, "key") {
            Some(k) => k,
            None => { return None },
        };
        match crate::ast::ins_get_column_value(stmt, "value") {
            Some(value) => Some(ctx2("key", key, "value", value)),
            None => None,
        }
    }
}

/// The members of every row whose `key` equals the first row's key.
pub open spec fn spec_sadd_members(
    maps: Seq<Seq<(Seq<char>, Seq<char>)>>,
    first_key: Seq<char>,
) -> Seq<Seq<char>>
    decreases maps.len(),
{
    if maps.len() == 0 {
        Seq::empty()
    } else {
        spec_sadd_members(maps.drop_last(), first_key) + (
        if spec_pairs_get(maps.last(), "key"@) == Some(first_key) {
            match spec_pairs_get(maps.last(), "member"@) {
                Some(m) => seq![m],
                None => Seq::empty(),
            }
        } else {
            Seq::empty()
        })
    }
}

/// Builder for set SADD commands
pub struct SetAddContextBuilder;

impl ContextBuilder for SetAddContextBuilder {
    open spec fn spec_context(&self, stmt: SqlStatement) -> Option<Seq<(Seq<char>, Seq<char>)>> {
        match spec_ins_column_value(stmt, "key"@) {
            Some(key) => match spec_ins_row_maps(stmt) {
                Some(maps) => {
                    if maps.len() == 0 {
                        None
                    } else {
                        match spec_pairs_get(maps[0], "key"@) {
                            Some(first_key) => {
                                let members = spec_sadd_members(maps, first_key);
                                if members.len() == 0 {
                                    None
                                } else {
                                    Some(
                                        seq![
                                            ("key"@, key),
                                            ("members"@, spec_join_sep(members, " "@)),
                                        ],
                                    )
                                }
                            },
                            None => None,
                        }
                    }
                },
                None => None,
            },
            None => None,
        }
    }

    fn build_context(&self, stmt: &SqlStatement) -> (r: Option<TemplateContext>) {
        let key = match crate::ast::ins_get_column_value(stmt, "key") {
            Some(k) => k,
            None => { return None },
        };
        let maps = match crate::ast::ins_get_values_as_maps(stmt) {
            Some(m) => m,
            None => { return None },
        };
        if maps.len() == 0 {
            return None;
        }
        let ghost gmaps = maps.deep_view();
        proof {
            assert(gmaps[0] == maps@[0].deep_view());
        }
        let first_key = match crate::ast::insert::pairs_get(&maps[0], "key") {
            Some(k) => k,
            None => { return None },
        };
        let ghost gfk = first_key@;
        let mut members: Vec<String> = Vec::new();
        let mut i: usize = 0;
        proof {
            assert(gmaps.subrange(0, 0) =~= Seq::<Seq<(Seq<char>, Seq<char>)>>::empty());
            assert(members.deep_view() =~= spec_sadd_members(gmaps.subrange(0, 0), gfk));
        }
        while i < maps.len()
            invariant
                gmaps == maps.deep_view(),
                gmaps.len() == maps@.len(),
                gfk == first_key@,
                i <= maps@.len(),
                members.deep_view() == spec_sadd_members(gmaps.subrange(0, i as int), gfk),
            decreases maps@.len() - i,
        {
            proof {
                assert(gmaps.subrange(0, i + 1).drop_last() =~= gmaps.subrange(0, i as int));
                assert(gmaps.subrange(0, i + 1).last() == gmaps[i as int]);
                assert(gmaps[i as int] == maps@[i as int].deep_view());
            }
            let row_key = crate::ast::insert::pairs_get(&maps[i], "key");
            let matches_first = match &row_key {
                Some(k) => *k == first_key,
                None => false,
            };
            if matches_first {
                match crate::ast::insert::pairs_get(&maps[i], "member") {
                    Some(m) => {
                        members.push(m);
                    },
                    None => {},
                }
            }
            i += 1;
            proof {
                assert(members.deep_view() =~= spec_sadd_members(
                    gmaps.subrange(0, i as int),
                    gfk,
                ));
            }
        }
        proof {
            assert(gmaps.subrange(0, gmaps.len() as int) =~= gmaps);
        }
        if members.len() == 0 {
            return None;
        }
        let joined = join_sep(&members, " ");
        Some(ctx2("key", key, "members", joined))
    }
}

/// Builder for sorted set ZADD commands
pub struct ZSetAddContextBuilder;

impl ContextBuilder for ZSetAddContextBuilder {
    open spec fn spec_context(&self, stmt: SqlStatement) -> Option<Seq<(Seq<char>, Seq<char>)>> {
        match (
            spec_ins_column_value(stmt, "key"@),
            spec_ins_column_value(stmt, "member"@),
            spec_ins_column_value(stmt, "score"@),
        ) {
            (Some(key), Some(member), Some(score)) => Some(
                seq![("key"@, key), ("member"@, member), ("score"@, score)],
            ),
            _ => None,
        }
    }

    fn build_context(&self, stmt: &SqlStatement) -> (r: Option<TemplateContext>) {
        let key = match crate::ast::ins_get_column_value(stmt, "key") {
            Some(k) => k,
            None => { return None },
        };
        let member = match crate::ast::ins_get_column_value(stmt, "member") {
            Some(m) => m,
            None => { return None },
        };
        match crate::ast::ins_get_column_value(stmt, "score") {
            Some(score) => Some(ctx3("key", key, "member", member, "score", score)),
            None => None,
        }
    }
}

} // verus!
