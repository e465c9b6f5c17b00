// Templates for UPDATE statements; the string, hash and sorted-set updates
// reuse the SET, HSET and ZADD command shapes.

use vstd::prelude::*;

use crate::templates::{templates_of, tera_add_raw_template};

verus! {

/// The UPDATE templates added to a template map.
pub open spec fn with_update_templates(m: Map<Seq<char>, Seq<char>>) -> Map<Seq<char>, Seq<char>> {
    m.insert("string_update"@, "SET {{ key }} {{ value }}"@).insert(
        "hash_update"@,
        "HSET {{ key }} {{ field_values }}"@,
    ).insert("list_update"@, "LSET {{ key }} {{ index }} {{ value }}"@).insert(
        "zset_update"@,
        "ZADD {{ key }} {{ score }} {{ member }}"@,
    )
}

/// Registers all UPDATE statement templates. Relies on
/// tera::Tera::add_raw_template: every source here is plain text with
/// `{{ var }}` substitutions, which tera's parser accepts, and with only
/// such templates registered the inheritance and macro checks cannot fail,
/// so registration succeeds.
#[verifier::external_body]
pub fn register_update_templates(t: &mut tera::Tera) -> (r: Result<(), String>)
    requires
        templates_of(*old(t)) == crate::templates::with_insert_templates(
            crate::templates::with_select_templates(crate::templates::empty_templates()),
        ),
    ensures
        r is Ok,
        templates_of(*final(t)) == with_update_templates(templates_of(*old(t))),
{
    tera_add_raw_template(t, "string_update", "SET {{ key }} {{ value }}")?;
    tera_add_raw_template(t, "hash_update", "HSET {{ key }} {{ field_values }}")?;
    tera_add_raw_template(t, "list_update", "LSET {{ key }} {{ index }} {{ value }}")?;
    tera_add_raw_template(t, "zset_update", "ZADD {{ key }} {{ score }} {{ member }}")?;
    Ok(())
}

} // verus!
