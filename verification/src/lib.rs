// SQL-to-Redis transformation library.
//
// A declarative engine that classifies parsed SQL statements by shape and
// emits the matching Redis command: an ordered rule registry is tried
// first (first match wins, rendering a named template), then the direct
// command generator, and only the exhaustion of both is an error.

pub mod ast;
pub mod commands;
pub mod context;
pub mod numutil;
pub mod parse;
pub mod pattern;
pub mod rules;
pub mod strutil;
pub mod templates;

use vstd::prelude::*;

use crate::ast::SqlStatement;
use crate::commands::{spec_cmd_string, spec_generate_command};
use crate::context::spec_ctx_map;
use crate::parse::spec_parse_sql;
use crate::rules::{
    Rule, create_rules, spec_applies, spec_first_match, spec_rule_context, spec_rule_kinds,
    spec_rule_wf, spec_template_name,
};
use crate::templates::{TemplateEngine, spec_rendered};

verus! {

/// Core error type for SQL-Redis transformation. A failing rule predicate
/// or context builder is not an error; only parse failure, exhaustion of
/// every strategy, a missing or broken template, or a failed engine
/// construction is.
#[derive(Debug)]
pub enum SqlRedisError {
    SqlParseError(String),
    NoMatchingPattern(String),
    TemplateError(String),
    InitializationError(String),
}

fn prefixed(prefix: &str, s: &String) -> (r: String)
    ensures
        r@ == prefix@ + s@,
{
    let mut out = prefix.to_owned();
    out.append(s.as_str());
    out
}

impl SqlRedisError {
    /// A one-line description of the error.
    pub fn message(&self) -> (r: String)
        ensures
            r@ == (match *self {
                SqlRedisError::SqlParseError(m) => "SQL parse error: "@ + m@,
                SqlRedisError::NoMatchingPattern(m) => "No matching pattern for: "@ + m@,
                SqlRedisError::TemplateError(m) => "Template error: "@ + m@,
                SqlRedisError::InitializationError(m) => "Initialization error: "@ + m@,
            }),
    {
        match self {
            SqlRedisError::SqlParseError(m) => prefixed("SQL parse error: ", m),
            SqlRedisError::NoMatchingPattern(m) => prefixed("No matching pattern for: ", m),
            SqlRedisError::TemplateError(m) => prefixed("Template error: ", m),
            SqlRedisError::InitializationError(m) => prefixed("Initialization error: ", m),
        }
    }
}

/// One rule's descriptive metadata, for pattern listings.
pub struct PatternDetail {
    pub name: String,
    pub matcher: String,
    pub sql_pattern: String,
    pub redis_pattern: String,
}

/// What transforming one statement must yield: the first applicable rule's
/// rendered template; else the direct generator's command text; else the
/// no-match error carrying the original input.
pub open spec fn spec_transform_post(
    stmt: SqlStatement,
    sql: Seq<char>,
    r: Result<String, SqlRedisError>,
) -> bool {
    match spec_first_match(spec_rule_kinds(), stmt) {
        Some(k) => {
            let ctx = spec_rule_context(k, stmt).unwrap();
            match spec_rendered(spec_template_name(k), spec_ctx_map(ctx)) {
                Some(s) => r matches Ok(out) && out@ == s,
                None => r matches Err(SqlRedisError::TemplateError(_)),
            }
        },
        None => match spec_generate_command(stmt) {
            Some(cmd) => r matches Ok(out) && out@ == spec_cmd_string(cmd.0, cmd.1),
            None => r matches Err(SqlRedisError::NoMatchingPattern(orig)) && orig@ == sql,
        },
    }
}

/// Transformation is deterministic: any two results meeting the transform
/// contract for the same statement and input text agree — same success or
/// failure, same output text, same error shape.
pub proof fn lemma_transform_deterministic(
    stmt: SqlStatement,
    sql: Seq<char>,
    r1: Result<String, SqlRedisError>,
    r2: Result<String, SqlRedisError>,
)
    requires
        spec_transform_post(stmt, sql, r1),
        spec_transform_post(stmt, sql, r2),
    ensures
        r1 is Ok <==> r2 is Ok,
        r1 matches Ok(a) ==> (r2 matches Ok(b) && a@ == b@),
        r1 matches Err(e1) ==> (r2 matches Err(e2) && (e1 is TemplateError
            <==> e2 is TemplateError) && (e1 is NoMatchingPattern <==> e2 is NoMatchingPattern)),
{
}

/// Main transformer connecting SQL pattern matching with Redis command
/// templates.
pub struct SqlToRedisTransformer {
    rules: Vec<Rule>,
    template_engine: TemplateEngine,
}

impl SqlToRedisTransformer {
    /// The registry holds the fixed rule list in order, and the engine the
    /// fixed templates.
    pub closed spec fn wf(&self) -> bool {
        &&& self.template_engine.wf()
        &&& self.rules@.map_values(|x: Rule| x.kind) == spec_rule_kinds()
        &&& forall|i: int| 0 <= i < self.rules@.len() ==> spec_rule_wf(#[trigger] self.rules@[i])
    }

    /// Build the registry and the template engine. The engine's fixed
    /// templates always register, so construction always succeeds; a
    /// failure to build the engine would be the initialization error, and
    /// the rule registry is built exactly once here and never mutated
    /// afterwards.
    pub fn new() -> (r: Result<SqlToRedisTransformer, SqlRedisError>)
        ensures
            r is Ok,
            r matches Ok(t) ==> t.wf(),
            r matches Err(e) ==> e is InitializationError,
    {
        let template_engine = match TemplateEngine::new() {
            Ok(e) => e,
            Err(msg) => { return Err(SqlRedisError::InitializationError(msg)) },
        };
        let rules = create_rules();
        Ok(SqlToRedisTransformer { rules, template_engine })
    }

    /// Transform one parsed statement: try every rule in registry order and
    /// render the first that matches and builds a context; fall back to the
    /// direct command generator; else report no match with the original
    /// input text.
    pub fn transform_statement(&self, stmt: &SqlStatement, sql: &str) -> (r: Result<
        String,
        SqlRedisError,
    >)
        requires
            self.wf(),
        ensures
            spec_transform_post(*stmt, sql@, r),
    {
        let ghost kinds = spec_rule_kinds();
        proof {
            assert(self.rules@.map_values(|x: Rule| x.kind).len() == self.rules@.len());
            assert(kinds.skip(0) =~= kinds);
        }
        let mut i: usize = 0;
        while i < self.rules.len()
            invariant
                self.wf(),
                kinds == spec_rule_kinds(),
                self.rules@.len() == kinds.len(),
                i <= kinds.len(),
                spec_first_match(kinds, *stmt) == spec_first_match(kinds.skip(i as int), *stmt),
            decreases kinds.len() - i,
        {
            let rule = &self.rules[i];
            proof {
                assert(self.rules@.map_values(|x: Rule| x.kind)[i as int] == rule.kind);
                assert(rule.kind == kinds[i as int]);
                assert(kinds.skip(i as int)[0] == kinds[i as int]);
                assert(kinds.skip(i as int).drop_first() =~= kinds.skip(i as int + 1));
                assert(spec_rule_wf(self.rules@[i as int]));
            }
            if rule.matches(stmt) {
                match rule.get_context(stmt) {
                    Some(context) => {
                        proof {
                            assert(spec_applies(kinds[i as int], *stmt));
                            assert(spec_first_match(kinds.skip(i as int), *stmt) == Some(
                                kinds[i as int],
                            ));
                        }
                        let template_name = rule.get_template_name();
                        match self.template_engine.render(template_name, &context) {
                            Ok(s) => { return Ok(s) },
                            Err(m) => { return Err(SqlRedisError::TemplateError(m)) },
                        }
                    },
                    None => {
                        proof {
                            assert(!spec_applies(kinds[i as int], *stmt));
                        }
                    },
                }
            } else {
                proof {
                    assert(!spec_applies(kinds[i as int], *stmt));
                }
            }
            i += 1;
        }
        proof {
            assert(kinds.skip(kinds.len() as int) =~= Seq::<crate::rules::RuleKind>::empty());
        }
        match crate::commands::generate_command(stmt) {
            Some(cmd) => Ok(cmd.to_string()),
            None => Err(SqlRedisError::NoMatchingPattern(sql.to_owned())),
        }
    }

    /// Parse one SQL text and transform its first statement.
    pub fn transform(&self, sql: &str) -> (r: Result<String, SqlRedisError>)
        requires
            self.wf(),
        ensures
            match spec_parse_sql(sql@) {
                Ok(stmt) => spec_transform_post(stmt, sql@, r),
                Err(m) => r matches Err(SqlRedisError::SqlParseError(e)) && e@ == m@,
            },
    {
        match crate::parse::parse_statement(sql) {
            Ok(stmt) => self.transform_statement(&stmt, sql),
            Err(e) => Err(SqlRedisError::SqlParseError(e)),
        }
    }

    /// Every rule's metadata, in registry order: one entry per rule, each
    /// carrying its rule kind's template identifier, predicate name and
    /// example shapes.
    pub fn get_pattern_details(&self) -> (r: Vec<PatternDetail>)
        requires
            self.wf(),
        ensures
            r@.len() == spec_rule_kinds().len(),
            forall|i: int|
                0 <= i < r@.len() ==> #[trigger] r@[i].name@ == spec_template_name(
                    spec_rule_kinds()[i],
                ) && r@[i].matcher@ == crate::rules::spec_matcher_name(spec_rule_kinds()[i])
                    && r@[i].sql_pattern@ == crate::rules::spec_sql_pattern(spec_rule_kinds()[i])
                    && r@[i].redis_pattern@ == crate::rules::spec_redis_pattern(
                    spec_rule_kinds()[i],
                ),
    {
        let ghost kinds = spec_rule_kinds();
        proof {
            assert(self.rules@.map_values(|x: Rule| x.kind).len() == self.rules@.len());
        }
        let mut out: Vec<PatternDetail> = Vec::new();
        let mut i: usize = 0;
        while i < self.rules.len()
            invariant
                self.wf(),
                kinds == spec_rule_kinds(),
                self.rules@.len() == kinds.len(),
                i <= kinds.len(),
                out@.len() == i,
                forall|j: int|
                    0 <= j < i ==> #[trigger] out@[j].name@ == spec_template_name(kinds[j])
                        && out@[j].matcher@ == crate::rules::spec_matcher_name(kinds[j])
                        && out@[j].sql_pattern@ == crate::rules::spec_sql_pattern(kinds[j])
                        && out@[j].redis_pattern@ == crate::rules::spec_redis_pattern(kinds[j]),
            decreases kinds.len() - i,
        {
            let rule = &self.rules[i];
            proof {
                assert(self.rules@.map_values(|x: Rule| x.kind)[i as int] == rule.kind);
                assert(rule.kind == kinds[i as int]);
                assert(spec_rule_wf(self.rules@[i as int]));
            }
            out.push(
                PatternDetail {
                    name: rule.template_name.clone(),
                    matcher: rule.matcher_name.clone(),
                    sql_pattern: rule.sql_pattern.clone(),
                    redis_pattern: rule.redis_pattern.clone(),
                },
            );
            i += 1;
        }
        out
    }
}

} // verus!
