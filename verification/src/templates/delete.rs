// Templates for DELETE statements: whole-key deletion shares one DEL shape;
// member-level deletion has one shape per data type.

use vstd::prelude::*;

use crate::templates::{templates_of, tera_add_raw_template};

verus! {

/// The DELETE templates added to a template map.
pub open spec fn with_delete_templates(m: Map<Seq<char>, Seq<char>>) -> Map<Seq<char>, Seq<char>> {
    m.insert("del"@, "DEL {{ key }}"@).insert("hash_delete"@, "DEL {{ key }}"@).insert(
        "hash_delete_field"@,
        "HDEL {{ key }} {{ field }}"@,
    ).insert("list_delete"@, "DEL {{ key }}"@).insert(
        "list_delete_value"@,
        "LREM {{ key }} 0 {{ value }}"@,
    ).insert("set_delete"@, "DEL {{ key }}"@).insert(
        "set_delete_member"@,
        "SREM {{ key }} {{ member }}"@,
    ).insert("zset_delete"@, "DEL {{ key }}"@).insert(
        "zset_delete_member"@,
        "ZREM {{ key }} {{ member }}"@,
    )
}

/// Registers all DELETE statement templates. Relies on
/// tera::Tera::add_raw_template: every source here is plain text with
/// `{{ var }}` substitutions, which tera's parser accepts, and with only
/// such templates registered the inheritance and macro checks cannot fail,
/// so registration succeeds.
#[verifier::external_body]
pub fn register_delete_templates(t: &mut tera::Tera) -> (r: Result<(), String>)
    requires
        templates_of(*old(t)) == crate::templates::with_update_templates(
            crate::templates::with_insert_templates(
                crate::templates::with_select_templates(crate::templates::empty_templates()),
            ),
        ),
    ensures
        r is Ok,
        templates_of(*final(t)) == with_delete_templates(templates_of(*old(t))),
{
    tera_add_raw_template(t, "del", "DEL {{ key }}")?;
    tera_add_raw_template(t, "hash_delete", "DEL {{ key }}")?;
    tera_add_raw_template(t, "hash_delete_field", "HDEL {{ key }} {{ field }}")?;
    tera_add_raw_template(t, "list_delete", "DEL {{ key }}")?;
    tera_add_raw_template(t, "list_delete_value", "LREM {{ key }} 0 {{ value }}")?;
    tera_add_raw_template(t, "set_delete", "DEL {{ key }}")?;
    tera_add_raw_template(t, "set_delete_member", "SREM {{ key }} {{ member }}")?;
    tera_add_raw_template(t, "zset_delete", "DEL {{ key }}")?;
    tera_add_raw_template(t, "zset_delete_member", "ZREM {{ key }} {{ member }}")?;
    Ok(())
}

} // verus!
