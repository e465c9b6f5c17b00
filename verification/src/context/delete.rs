// Context builders for DELETE statement transformations. The WHERE values
// are searched through conjunctions, left branch first.

use vstd::prelude::*;

use crate::ast::delete::{spec_del_field_filter, spec_del_key_value};
use crate::ast::SqlStatement;
use crate::context::{ContextBuilder, TemplateContext, ctx1, ctx2};

verus! {

/// Builder for string DEL commands
pub struct StringDeleteContextBuilder;

impl ContextBuilder for StringDeleteContextBuilder {
    open spec fn spec_context(&self, stmt: SqlStatement) -> Option<Seq<(Seq<char>, Seq<char>)>> {
        match spec_del_key_value(stmt) {
            Some(key) => Some(seq![("key"@, key)]),
            None => None,
        }
    }

    fn build_context(&self, stmt: &SqlStatement) -> (r: Option<TemplateContext>) {
        match crate::ast::delete::get_key_value(stmt) {
            Some(key) => Some(ctx1("key", key)),
            None => None,
        }
    }
}

/// Builder for hash DEL commands
pub struct HashDeleteContextBuilder;

impl ContextBuilder for HashDeleteContextBuilder {
    open spec fn spec_context(&self, stmt: SqlStatement) -> Option<Seq<(Seq<char>, Seq<char>)>> {
        match spec_del_key_value(stmt) {
            Some(key) => Some(seq![("key"@, key)]),
            None => None,
        }
    }

    fn build_context(&self, stmt: &SqlStatement) -> (r: Option<TemplateContext>) {
        match crate::ast::delete::get_key_value(stmt) {
            Some(key) => Some(ctx1("key", key)),
            None => None,
        }
    }
}

/// Builder for hash HDEL commands
pub struct HashDeleteFieldContextBuilder;

impl ContextBuilder for HashDeleteFieldContextBuilder {
    open spec fn spec_context(&self, stmt: SqlStatement) -> Option<Seq<(Seq<char>, Seq<char>)>> {
        match (spec_del_key_value(stmt), spec_del_field_filter(stmt, "field"@)) {
            (Some(key), Some(field)) => Some(seq![("key"@, key), ("field"@, field)]),
            _ => None,
        }
    }

    fn build_context(&self, stmt: &SqlStatement) -> (r: Option<TemplateContext>) {
        let key = match crate::ast::delete::get_key_value(stmt) {
            Some(k) => k,
            None => { return None },
        };
        match crate::ast::delete::get_field_filter(stmt, "field") {
            Some(field) => Some(ctx2("key", key, "field", field)),
            None => None,
        }
    }
}

/// Builder for list DEL commands
pub struct ListDeleteContextBuilder;

impl ContextBuilder for ListDeleteContextBuilder {
    open spec fn spec_context(&self, stmt: SqlStatement) -> Option<Seq<(Seq<char>, Seq<char>)>> {
        match spec_del_key_value(stmt) {
            Some(key) => Some(seq![("key"@, key)]),
            None => None,
        }
    }

    fn build_context(&self, stmt: &SqlStatement) -> (r: Option<TemplateContext>) {
        match crate::ast::delete::get_key_value(stmt) {
            Some(key) => Some(ctx1("key", key)),
            None => None,
        }
    }
}

/// Builder for list LREM commands
pub struct ListDeleteValueContextBuilder;

impl ContextBuilder for ListDeleteValueContextBuilder {
    open spec fn spec_context(&self, stmt: SqlStatement) -> Option<Seq<(Seq<char>, Seq<char>)>> {
        match (spec_del_key_value(stmt), spec_del_field_filter(stmt, "value"@)) {
            (Some(key), Some(value)) => Some(seq![("key"@, key), ("value"@, value)]),
            _ => None,
        }
    }

    fn build_context(&self, stmt: &SqlStatement) -> (r: Option<TemplateContext>) {
        let key = match crate::ast::delete::get_key_value(stmt) {
            Some(k) => k,
            None => { return None },
        };
        match crate::ast::delete::get_field_filter(stmt, "value") {
            Some(value) => Some(ctx2("key", key, "value", value)),
            None => None,
        }
    }
}

/// Builder for set DEL commands
pub struct SetDeleteContextBuilder;

impl ContextBuilder for SetDeleteContextBuilder {
    open spec fn spec_context(&self, stmt: SqlStatement) -> Option<Seq<(Seq<char>, Seq<char>)>> {
        match spec_del_key_value(stmt) {
            Some(key) => Some(seq![("key"@, key)]),
            None => None,
        }
    }

    fn build_context(&self, stmt: &SqlStatement) -> (r: Option<TemplateContext>) {
        match crate::ast::delete::get_key_value(stmt) {
            Some(key) => Some(ctx1("key", key)),
            None => None,
        }
    }
}

/// Builder for set SREM commands
pub struct SetDeleteMemberContextBuilder;

impl ContextBuilder for SetDeleteMemberContextBuilder {
    open spec fn spec_context(&self, stmt: SqlStatement) -> Option<Seq<(Seq<char>, Seq<char>)>> {
        match (spec_del_key_value(stmt), spec_del_field_filter(stmt, "member"@)) {
            (Some(key), Some(member)) => Some(seq![("key"@, key), ("member"@, member)]),
            _ => None,
        }
    }

    fn build_context(&self, stmt: &SqlStatement) -> (r: Option<TemplateContext>) {
        let key = match crate::ast::delete::get_key_value(stmt) {
            Some(k) => k,
            None => { return None },
        };
        match crate::ast::delete::get_field_filter(stmt, "member") {
            Some(member) => Some(ctx2("key", key, "member", member)),
            None => None,
        }
    }
}

/// Builder for sorted set DEL commands
pub struct ZSetDeleteContextBuilder;

impl ContextBuilder for ZSetDeleteContextBuilder {
    open spec fn spec_context(&self, stmt: SqlStatement) -> Option<Seq<(Seq<char>, Seq<char>)>> {
        match spec_del_key_value(stmt) {
            Some(key) => Some(seq![("key"@, key)]),
            None => None,
        }
    }

    fn build_context(&self, stmt: &SqlStatement) -> (r: Option<TemplateContext>) {
        match crate::ast::delete::get_key_value(stmt) {
            Some(key) => Some(ctx1("key", key)),
            None => None,
        }
    }
}

/// Builder for sorted set ZREM commands
pub struct ZSetDeleteMemberContextBuilder;

impl ContextBuilder for ZSetDeleteMemberContextBuilder {
    open spec fn spec_context(&self, stmt: SqlStatement) -> Option<Seq<(Seq<char>, Seq<char>)>> {
        match (spec_del_key_value(stmt), spec_del_field_filter(stmt, "member"@)) {
            (Some(key), Some(member)) => Some(seq![("key"@, key), ("member"@, member)]),
            _ => None,
        }
    }

    fn build_context(&self, stmt: &SqlStatement) -> (r: Option<TemplateContext>) {
        let key = match crate::ast::delete::get_key_value(stmt) {
            Some(k) => k,
            None => { return None },
        };
        match crate::ast::delete::get_field_filter(stmt, "member") {
            Some(member) => Some(ctx2("key", key, "member", member)),
            None => None,
        }
    }
}

} // verus!
