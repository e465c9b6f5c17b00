// Templates for INSERT statements: one per Redis write command shape.

use vstd::prelude::*;

use crate::templates::{templates_of, tera_add_raw_template};

verus! {

/// The INSERT templates added to a template map.
pub open spec fn with_insert_templates(m: Map<Seq<char>, Seq<char>>) -> Map<Seq<char>, Seq<char>> {
    m.insert("string_set"@, "SET {{ key }} {{ value }}"@).insert(
        "hash_set"@,
        "HSET {{ key }} {{ field_values }}"@,
    ).insert("list_push"@, "RPUSH {{ key }} {{ value }}"@).insert(
        "set_add"@,
        "SADD {{ key }} {{ members }}"@,
    ).insert("zset_add"@, "ZADD {{ key }} {{ score }} {{ member }}"@)
}

/// Registers all INSERT statement templates. Relies on
/// tera::Tera::add_raw_template: every source here is plain text with
/// `{{ var }}` substitutions, which tera's parser accepts, and with only
/// such templates registered the inheritance and macro checks cannot fail,
/// so registration succeeds.
#[verifier::external_body]
pub fn register_insert_templates(t: &mut tera::Tera) -> (r: Result<(), String>)
    requires
        templates_of(*old(t)) == crate::templates::with_select_templates(
            crate::templates::empty_templates(),
        ),
    ensures
        r is Ok,
        templates_of(*final(t)) == with_insert_templates(templates_of(*old(t))),
{
    tera_add_raw_template(t, "string_set", "SET {{ key }} {{ value }}")?;
    tera_add_raw_template(t, "hash_set", "HSET {{ key }} {{ field_values }}")?;
    tera_add_raw_template(t, "list_push", "RPUSH {{ key }} {{ value }}")?;
    tera_add_raw_template(t, "set_add", "SADD {{ key }} {{ members }}")?;
    tera_add_raw_template(t, "zset_add", "ZADD {{ key }} {{ score }} {{ member }}")?;
    Ok(())
}

} // verus!
