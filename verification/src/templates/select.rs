// Templates for SELECT statements: one per Redis read command shape.

use vstd::prelude::*;

use crate::templates::{templates_of, tera_add_raw_template};

verus! {

/// The SELECT templates added to a template map.
pub open spec fn with_select_templates(m: Map<Seq<char>, Seq<char>>) -> Map<Seq<char>, Seq<char>> {
    m.insert("string_get"@, "GET {{ key }}"@).insert("hash_getall"@, "HGETALL {{ key }}"@).insert(
        "hash_get"@,
        "HGET {{ key }} {{ field }}"@,
    ).insert("hash_hmget"@, "HMGET {{ key }} {{ fields }}"@).insert(
        "list_getall"@,
        "LRANGE {{ key }} {{ start }} {{ stop }}"@,
    ).insert("list_get_index"@, "LINDEX {{ key }} {{ index }}"@).insert(
        "list_get_range"@,
        "LRANGE {{ key }} {{ start }} {{ stop }}"@,
    ).insert("set_getall"@, "SMEMBERS {{ key }}"@).insert(
        "set_ismember"@,
        "SISMEMBER {{ key }} {{ member }}"@,
    ).insert("zset_getall"@, "ZRANGEBYSCORE {{ key }} {{ min }} {{ max }}"@).insert(
        "zset_get_score_range"@,
        "ZRANGEBYSCORE {{ key }} {{ min }} {{ max }}"@,
    ).insert("zset_get_reversed"@, "ZREVRANGEBYSCORE {{ key }} {{ max }} {{ min }}"@)
}

/// Registers all SELECT statement templates. Relies on
/// tera::Tera::add_raw_template: every source here is plain text with
/// `{{ var }}` substitutions, which tera's parser accepts, and with only
/// such templates registered the inheritance and macro checks cannot fail,
/// so registration succeeds.
#[verifier::external_body]
pub fn register_select_templates(t: &mut tera::Tera) -> (r: Result<(), String>)
    requires
        templates_of(*old(t)) == crate::templates::empty_templates(),
    ensures
        r is Ok,
        templates_of(*final(t)) == with_select_templates(templates_of(*old(t))),
{
    tera_add_raw_template(t, "string_get", "GET {{ key }}")?;
    tera_add_raw_template(t, "hash_getall", "HGETALL {{ key }}")?;
    tera_add_raw_template(t, "hash_get", "HGET {{ key }} {{ field }}")?;
    tera_add_raw_template(t, "hash_hmget", "HMGET {{ key }} {{ fields }}")?;
    tera_add_raw_template(t, "list_getall", "LRANGE {{ key }} {{ start }} {{ stop }}")?;
    tera_add_raw_template(t, "list_get_index", "LINDEX {{ key }} {{ index }}")?;
    tera_add_raw_template(t, "list_get_range", "LRANGE {{ key }} {{ start }} {{ stop }}")?;
    tera_add_raw_template(t, "set_getall", "SMEMBERS {{ key }}")?;
    tera_add_raw_template(t, "set_ismember", "SISMEMBER {{ key }} {{ member }}")?;
    tera_add_raw_template(t, "zset_getall", "ZRANGEBYSCORE {{ key }} {{ min }} {{ max }}")?;
    tera_add_raw_template(t, "zset_get_score_range", "ZRANGEBYSCORE {{ key }} {{ min }} {{ max }}")?;
    tera_add_raw_template(t, "zset_get_reversed", "ZREVRANGEBYSCORE {{ key }} {{ max }} {{ min }}")?;
    Ok(())
}

} // verus!
