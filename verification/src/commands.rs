// Redis command generation: the command value itself and the template-free
// direct generator, tried only after the rule registry is exhausted. The
// generator re-derives the table kind from the table name and switches on
// it; its argument order is fixed by the info records, which keep the
// original column order.

use vstd::prelude::*;

use crate::ast::SqlStatement;
use crate::ast::insert::spec_pairs_get;
use crate::numutil::{spec_u64_digits, u64_to_dec_string};
use crate::pattern::extractors;
use crate::pattern::matchers::common::{RedisDataType, spec_table_kind};

verus! {

/// A Redis command with its arguments; rendering is the space-joined
/// concatenation of the name and the arguments, in the order supplied.
#[derive(Debug, Clone)]
pub struct RedisCommand {
    pub command: String,
    pub args: Vec<String>,
}

/// The rendered text of a command: name, then each argument, separated by
/// single spaces.
pub open spec fn spec_cmd_string(name: Seq<char>, args: Seq<Seq<char>>) -> Seq<char>
    decreases args.len(),
{
    if args.len() == 0 {
        name
    } else {
        spec_cmd_string(name, args.drop_last()) + " "@ + args.last()
    }
}

impl RedisCommand {
    /// Create a new Redis command
    pub fn new(command: &str, args: Vec<String>) -> (r: RedisCommand)
        ensures
            r.command@ == command@,
            r.args == args,
    {
        RedisCommand { command: command.to_owned(), args }
    }

    /// Format the command as a string
    pub fn to_string(&self) -> (r: String)
        ensures
            r@ == spec_cmd_string(self.command@, self.args.deep_view()),
    {
        let mut out: String = self.command.clone();
        let ghost gargs = self.args.deep_view();
        let mut i: usize = 0;
        proof {
            assert(gargs.subrange(0, 0) =~= Seq::<Seq<char>>::empty());
        }
        while i < self.args.len()
            invariant
                gargs == self.args.deep_view(),
                gargs.len() == self.args@.len(),
                forall|j: int| 0 <= j < gargs.len() ==> #[trigger] gargs[j] == self.args@[j]@,
                i <= self.args@.len(),
                out@ == spec_cmd_string(self.command@, gargs.subrange(0, i as int)),
            decreases self.args@.len() - i,
        {
            proof {
                assert(gargs.subrange(0, i + 1).drop_last() =~= gargs.subrange(0, i as int));
                assert(gargs.subrange(0, i + 1).last() == gargs[i as int]);
            }
            out.append(" ");
            out.append(self.args[i].as_str());
            i += 1;
        }
        proof {
            assert(gargs.subrange(0, gargs.len() as int) =~= gargs);
        }
        out
    }
}

/// The argument tail of an HMSET: every field/value pair in order, skipping
/// the `key` column.
pub open spec fn spec_field_args(pairs: Seq<(Seq<char>, Seq<char>)>) -> Seq<Seq<char>>
    decreases pairs.len(),
{
    if pairs.len() == 0 {
        Seq::empty()
    } else {
        spec_field_args(pairs.drop_last()) + (if pairs.last().0 != "key"@ {
            seq![pairs.last().0, pairs.last().1]
        } else {
            Seq::empty()
        })
    }
}

/// The stop index text of an LRANGE limited to `limit` rows: `limit - 1`,
/// which is `-1` when the limit is zero.
pub open spec fn spec_stop_text(limit: u64) -> Seq<char> {
    if limit == 0 {
        "-1"@
    } else {
        spec_u64_digits((limit - 1) as nat)
    }
}

/// What the direct generator produces: the first extractor in its fixed
/// order that yields an info record decides the command name and arguments.
pub open spec fn spec_generate_command(stmt: SqlStatement) -> Option<(Seq<char>, Seq<Seq<char>>)> {
    if let Some(key) = extractors::string_ops::spec_extract_string_get(stmt) {
        Some(("GET"@, seq![key]))
    } else if let Some(key) = extractors::hash_ops::spec_extract_hash_getall(stmt) {
        Some(("HGETALL"@, seq![key]))
    } else if let Some((key, field)) = extractors::hash_ops::spec_extract_hash_get(stmt) {
        Some(("HGET"@, seq![key, field]))
    } else if let Some((key, fields)) = extractors::hash_ops::spec_extract_hash_multi_get(stmt) {
        Some(("HMGET"@, seq![key] + fields))
    } else if let Some((key, index)) = extractors::list_ops::spec_extract_list_get_index(stmt) {
        Some(("LINDEX"@, seq![key, index]))
    } else if let Some((key, limit)) = extractors::list_ops::spec_extract_list_get_range(stmt) {
        Some(("LRANGE"@, seq![key, "0"@, spec_stop_text(limit)]))
    } else if let Some(key) = extractors::list_ops::spec_extract_list_getall(stmt) {
        Some(("LRANGE"@, seq![key, "0"@, "-1"@]))
    } else if let Some((key, member)) = extractors::set_ops::spec_extract_set_ismember(stmt) {
        Some(("SISMEMBER"@, seq![key, member]))
    } else if let Some(key) = extractors::set_ops::spec_extract_set_getall(stmt) {
        Some(("SMEMBERS"@, seq![key]))
    } else if let Some(key) = extractors::zset_ops::spec_extract_zset_get_reversed(stmt) {
        Some(("ZREVRANGEBYSCORE"@, seq![key, "+inf"@, "-inf"@]))
    } else if let Some((key, min, max)) = extractors::zset_ops::spec_extract_zset_get_score_range(
        stmt,
    ) {
        Some(("ZRANGEBYSCORE"@, seq![key, min, max]))
    } else if let Some(key) = extractors::zset_ops::spec_extract_zset_getall(stmt) {
        Some(("ZRANGEBYSCORE"@, seq![key, "-inf"@, "+inf"@]))
    } else if let Some(cmd) = spec_generate_insert(stmt) {
        Some(cmd)
    } else if let Some(cmd) = spec_generate_delete(stmt) {
        Some(cmd)
    } else {
        None
    }
}

pub open spec fn spec_generate_insert(stmt: SqlStatement) -> Option<(Seq<char>, Seq<Seq<char>>)> {
    match extractors::insert_ops::spec_extract_insert_command(stmt) {
        Some((table, key, fields)) => {
            match spec_table_kind(table) {
                RedisDataType::String => match spec_pairs_get(fields, "value"@) {
                    Some(value) => Some(("SET"@, seq![key, value])),
                    None => None,
                },
                RedisDataType::Hash => Some(("HMSET"@, seq![key] + spec_field_args(fields))),
                RedisDataType::List => match spec_pairs_get(fields, "value"@) {
                    Some(value) => match spec_pairs_get(fields, "index"@) {
                        Some(index) => Some(("LSET"@, seq![key, index, value])),
                        None => Some(("RPUSH"@, seq![key, value])),
                    },
                    None => None,
                },
                RedisDataType::PlainSet => match spec_pairs_get(fields, "member"@) {
                    Some(member) => Some(("SADD"@, seq![key, member])),
                    None => None,
                },
                RedisDataType::SortedSet => match (
                    spec_pairs_get(fields, "member"@),
                    spec_pairs_get(fields, "score"@),
                ) {
                    (Some(member), Some(score)) => Some(("ZADD"@, seq![key, score, member])),
                    _ => None,
                },
            }
        },
        None => None,
    }
}

pub open spec fn spec_generate_delete(stmt: SqlStatement) -> Option<(Seq<char>, Seq<Seq<char>>)> {
    match extractors::delete_ops::spec_extract_delete_command(stmt) {
        Some((table, key, member, index)) => {
            if member is None && index is None {
                Some(("DEL"@, seq![key]))
            } else {
                match (spec_table_kind(table), member) {
                    (RedisDataType::Hash, Some(field)) => Some(("HDEL"@, seq![key, field])),
                    (RedisDataType::List, Some(value)) => Some(
                        ("LREM"@, seq![key, "0"@, value]),
                    ),
                    (RedisDataType::PlainSet, Some(m)) => Some(("SREM"@, seq![key, m])),
                    (RedisDataType::SortedSet, Some(m)) => Some(("ZREM"@, seq![key, m])),
                    _ => None,
                }
            }
        },
        None => None,
    }
}

fn one_arg(a: String) -> (r: Vec<String>)
    ensures
        r.deep_view() =~= seq![a@],
        r@.len() == 1,
        r@[0]@ == a@,
{
    let mut v: Vec<String> = Vec::new();
    v.push(a);
    v
}

fn two_args(a: String, b: String) -> (r: Vec<String>)
    ensures
        r.deep_view() =~= seq![a@, b@],
{
    let mut v: Vec<String> = Vec::new();
    v.push(a);
    v.push(b);
    v
}

fn three_args(a: String, b: String, c: String) -> (r: Vec<String>)
    ensures
        r.deep_view() =~= seq![a@, b@, c@],
{
    let mut v: Vec<String> = Vec::new();
    v.push(a);
    v.push(b);
    v.push(c);
    v
}

/// Generate a Redis command from a SQL statement, trying each extractor in
/// the generator's fixed order.
pub fn generate_command(stmt: &SqlStatement) -> (r: Option<RedisCommand>)
    ensures
        match (r, spec_generate_command(*stmt)) {
            (Some(c), Some(s)) => c.command@ == s.0 && c.args.deep_view() == s.1,
            (None, None) => true,
            _ => false,
        },
{
    if let Some(info) = extractors::extract_string_get(stmt) {
        return Some(RedisCommand::new("GET", one_arg(info.key)));
    }
    if let Some(info) = extractors::extract_hash_getall(stmt) {
        return Some(RedisCommand::new("HGETALL", one_arg(info.key)));
    }
    if let Some(info) = extractors::extract_hash_get(stmt) {
        return Some(RedisCommand::new("HGET", two_args(info.key, info.field)));
    }
    if let Some(info) = extractors::extract_hash_multi_get(stmt) {
        let ghost gfields = info.fields.deep_view();
        let ghost gkey = info.key@;
        let mut args = one_arg(info.key);
        let mut i: usize = 0;
        let fields = info.fields;
        while i < fields.len()
            invariant
                gfields == fields.deep_view(),
                gfields.len() == fields@.len(),
                i <= fields@.len(),
                args@.len() == i + 1,
                args@[0]@ == gkey,
                forall|j: int| 1 <= j < args@.len() ==> #[trigger] args@[j]@ == gfields[j - 1],
            decreases fields@.len() - i,
        {
            let f = fields[i].clone();
            proof {
                assert(gfields[i as int] == fields@[i as int]@);
            }
            args.push(f);
            i += 1;
        }
        proof {
            assert(args.deep_view() =~= seq![gkey] + gfields);
        }
        return Some(RedisCommand::new("HMGET", args));
    }
    if let Some(info) = extractors::extract_list_get_index(stmt) {
        return Some(RedisCommand::new("LINDEX", two_args(info.key, info.index)));
    }
    if let Some(info) = extractors::extract_list_get_range(stmt) {
        let stop = if info.limit == 0 {
            "-1".to_owned()
        } else {
            u64_to_dec_string(info.limit - 1)
        };
        return Some(RedisCommand::new("LRANGE", three_args(info.key, "0".to_owned(), stop)));
    }
    if let Some(info) = extractors::extract_list_getall(stmt) {
        return Some(
            RedisCommand::new(
                "LRANGE",
                three_args(info.key, "0".to_owned(), "-1".to_owned()),
            ),
        );
    }
    if let Some(info) = extractors::extract_set_ismember(stmt) {
        return Some(RedisCommand::new("SISMEMBER", two_args(info.key, info.member)));
    }
    if let Some(info) = extractors::extract_set_getall(stmt) {
        return Some(RedisCommand::new("SMEMBERS", one_arg(info.key)));
    }
    if let Some(info) = extractors::extract_zset_get_reversed(stmt) {
        return Some(
            RedisCommand::new(
                "ZREVRANGEBYSCORE",
                three_args(info.key, "+inf".to_owned(), "-inf".to_owned()),
            ),
        );
    }
    if let Some(info) = extractors::extract_zset_get_score_range(stmt) {
        return Some(RedisCommand::new("ZRANGEBYSCORE", three_args(info.key, info.min, info.max)));
    }
    if let Some(info) = extractors::extract_zset_getall(stmt) {
        return Some(
            RedisCommand::new(
                "ZRANGEBYSCORE",
                three_args(info.key, "-inf".to_owned(), "+inf".to_owned()),
            ),
        );
    }
    if let Some(info) = extractors::extract_insert_command(stmt) {
        match crate::pattern::matchers::common::get_redis_data_type(info.table.as_str()) {
            RedisDataType::String => {
                match crate::ast::insert::pairs_get(&info.fields, "value") {
                    Some(value) => {
                        return Some(RedisCommand::new("SET", two_args(info.key, value)));
                    },
                    None => {},
                }
            },
            RedisDataType::Hash => {
                let ghost gfields = info.fields.deep_view();
                let ghost gkey = info.key@;
                let mut args = one_arg(info.key);
                let fields = info.fields;
                let mut i: usize = 0;
                proof {
                    assert(gfields.subrange(0, 0) =~= Seq::<(Seq<char>, Seq<char>)>::empty());
                    assert(args.deep_view() =~= seq![gkey] + spec_field_args(
                        gfields.subrange(0, 0),
                    ));
                }
                while i < fields.len()
                    invariant
                        gfields == fields.deep_view(),
                        gfields.len() == fields@.len(),
                        i <= fields@.len(),
                        args@.len() >= 1,
                        args.deep_view() == seq![gkey] + spec_field_args(
                            gfields.subrange(0, i as int),
                        ),
                    decreases fields@.len() - i,
                {
                    proof {
                        assert(gfields.subrange(0, i + 1).drop_last() =~= gfields.subrange(
                            0,
                            i as int,
                        ));
                        assert(gfields.subrange(0, i + 1).last() == gfields[i as int]);
                        assert(gfields[i as int] == (fields@[i as int].0@, fields@[i as int].1@));
                    }
                    if !crate::ast::insert::substr_eq(&fields[i].0, "key") {
                        let f = fields[i].0.clone();
                        let v = fields[i].1.clone();
                        let ghost olddeep = args.deep_view();
                        args.push(f);
                        args.push(v);
                        proof {
                            assert(args.deep_view() =~= olddeep + seq![
                                gfields[i as int].0,
                                gfields[i as int].1,
                            ]);
                        }
                    }
                    i += 1;
                    proof {
                        assert(spec_field_args(gfields.subrange(0, i as int))
                            == spec_field_args(gfields.subrange(0, i - 1)) + (
                        if gfields[i - 1].0 != "key"@ {
                            seq![gfields[i - 1].0, gfields[i - 1].1]
                        } else {
                            Seq::<Seq<char>>::empty()
                        }));
                        assert(args.deep_view() =~= seq![gkey] + spec_field_args(
                            gfields.subrange(0, i as int),
                        ));
                    }
                }
                proof {
                    assert(gfields.subrange(0, gfields.len() as int) =~= gfields);
                }
                return Some(RedisCommand::new("HMSET", args));
            },
            RedisDataType::List => {
                match crate::ast::insert::pairs_get(&info.fields, "value") {
                    Some(value) => {
                        match crate::ast::insert::pairs_get(&info.fields, "index") {
                            Some(index) => {
                                return Some(
                                    RedisCommand::new("LSET", three_args(info.key, index, value)),
                                );
                            },
                            None => {
                                return Some(
                                    RedisCommand::new("RPUSH", two_args(info.key, value)),
                                );
                            },
                        }
                    },
                    None => {},
                }
            },
            RedisDataType::PlainSet => {
                match crate::ast::insert::pairs_get(&info.fields, "member") {
                    Some(member) => {
                        return Some(RedisCommand::new("SADD", two_args(info.key, member)));
                    },
                    None => {},
                }
            },
            RedisDataType::SortedSet => {
                let member = crate::ast::insert::pairs_get(&info.fields, "member");
                let score = crate::ast::insert::pairs_get(&info.fields, "score");
                match (member, score) {
                    (Some(member), Some(score)) => {
                        return Some(
                            RedisCommand::new("ZADD", three_args(info.key, score, member)),
                        );
                    },
                    _ => {},
                }
            },
        }
    }
    if let Some(info) = extractors::extract_delete_command(stmt) {
        if info.member.is_none() && info.index.is_none() {
            return Some(RedisCommand::new("DEL", one_arg(info.key)));
        }
        match crate::pattern::matchers::common::get_redis_data_type(info.table.as_str()) {
            RedisDataType::Hash => {
                if let Some(field) = info.member {
                    return Some(RedisCommand::new("HDEL", two_args(info.key, field)));
                }
            },
            RedisDataType::List => {
                if let Some(value) = info.member {
                    return Some(
                        RedisCommand::new("LREM", three_args(info.key, "0".to_owned(), value)),
                    );
                }
            },
            RedisDataType::PlainSet => {
                if let Some(member) = info.member {
                    return Some(RedisCommand::new("SREM", two_args(info.key, member)));
                }
            },
            RedisDataType::SortedSet => {
                if let Some(member) = info.member {
                    return Some(RedisCommand::new("ZREM", two_args(info.key, member)));
                }
            },
            RedisDataType::String => {},
        }
    }
    None
}

} // verus!
