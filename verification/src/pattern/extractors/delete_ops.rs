// Extraction for the direct DELETE path. The table is read from the
// multi-table list of the DELETE statement, so this path only applies to
// the multi-table form; the ordinary `DELETE FROM` shape is handled by the
// rule registry.

use vstd::prelude::*;

use crate::ast::delete::spec_field_condition;
use crate::ast::SqlStatement;
use crate::pattern::extractors::list_ops::spec_list_index;
use crate::pattern::extractors::set_ops::spec_set_member;

verus! {

/// Info struct for delete commands
pub struct DeleteCommandInfo {
    pub table: String,
    pub key: String,
    pub member: Option<String>,
    pub index: Option<String>,
}

pub open spec fn spec_extract_delete_command(stmt: SqlStatement) -> Option<
    (Seq<char>, Seq<char>, Option<Seq<char>>, Option<Seq<char>>),
> {
    match stmt {
        SqlStatement::Delete(d) => {
            if d.tables@.len() == 0 || d.tables@[0]@.len() == 0 {
                None
            } else {
                match d.selection {
                    Some(e) => match spec_field_condition(e, "key"@) {
                        Some(key) => Some(
                            (d.tables@[0]@[0]@, key, spec_set_member(e), spec_list_index(e)),
                        ),
                        None => None,
                    },
                    None => None,
                }
            }
        },
        _ => None,
    }
}

/// Extract delete command information
pub fn extract_delete_command(stmt: &SqlStatement) -> (r: Option<DeleteCommandInfo>)
    ensures
        match (r, spec_extract_delete_command(*stmt)) {
            (Some(a), Some(b)) => a.table@ == b.0 && a.key@ == b.1 && (match (a.member, b.2) {
                (Some(x), Some(y)) => x@ == y,
                (None, None) => true,
                _ => false,
            }) && (match (a.index, b.3) {
                (Some(x), Some(y)) => x@ == y,
                (None, None) => true,
                _ => false,
            }),
            (None, None) => true,
            _ => false,
        },
{
    let d = match stmt {
        SqlStatement::Delete(d) => d,
        _ => { return None },
    };
    if d.tables.len() == 0 {
        return None;
    }
    if d.tables[0].len() == 0 {
        return None;
    }
    let table = d.tables[0][0].clone();
    let e = match &d.selection {
        Some(e) => e,
        None => { return None },
    };
    let key = match crate::pattern::extractors::common::extract_key_from_condition(e) {
        Some(k) => k,
        None => { return None },
    };
    let member = crate::pattern::extractors::set_ops::extract_set_member(e);
    let index = crate::pattern::extractors::list_ops::extract_list_index(e);
    Some(DeleteCommandInfo { table, key, member, index })
}

} // verus!
