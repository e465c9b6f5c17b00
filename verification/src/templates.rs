// The template engine: a fixed set of named command templates, registered
// once at construction, and a render operation that fills one of them from
// a flat variable map. The rendering mechanism itself is the outside
// template library; the engine pins down exactly which templates it holds,
// and the rendering outcome is named, not restated.

pub mod delete;
pub mod insert;
pub mod select;
pub mod update;

pub use delete::{register_delete_templates, with_delete_templates};
pub use insert::{register_insert_templates, with_insert_templates};
pub use select::{register_select_templates, with_select_templates};
pub use update::{register_update_templates, with_update_templates};

use vstd::prelude::*;

use crate::context::{TemplateContext, spec_ctx_map};

verus! {

#[verifier::external_type_specification]
#[verifier::external_body]
pub struct ExTera(tera::Tera);

/// The template sources an engine holds, by template name.
pub uninterp spec fn templates_of(t: tera::Tera) -> Map<Seq<char>, Seq<char>>;

/// What rendering a named template of the fixed command set with a given
/// variable map produces: some text, or nothing when the name is unknown or
/// a needed variable is absent.
pub uninterp spec fn spec_rendered(name: Seq<char>, ctx: Map<Seq<char>, Seq<char>>) -> Option<
    Seq<char>,
>;

/// No templates at all: what a fresh engine holds.
pub open spec fn empty_templates() -> Map<Seq<char>, Seq<char>> {
    Map::empty()
}

/// Relies on tera::Tera::default: a fresh engine holds no templates.
#[verifier::external_body]
fn tera_default() -> (r: tera::Tera)
    ensures
        templates_of(r) == empty_templates(),
{
    tera::Tera::default()
}

/// Relies on tera::Tera::add_raw_template: on success the source text is
/// registered under the name, replacing any previous entry.
#[verifier::external_body]
pub fn tera_add_raw_template(t: &mut tera::Tera, name: &str, content: &str) -> (r: Result<
    (),
    String,
>)
    ensures
        r is Ok ==> templates_of(*final(t)) == templates_of(*old(t)).insert(name@, content@),
{
    t.add_raw_template(name, content).map_err(|e| e.to_string())
}

/// Relies on tera::Tera::render with tera::Context::insert: for the fixed
/// command templates (plain text and variable substitutions only), the
/// outcome is a function of the template name and the variable map alone.
#[verifier::external_body]
fn tera_render(t: &tera::Tera, name: &str, context: &TemplateContext) -> (r: Result<String, String>)
    requires
        templates_of(*t) == base_templates(),
    ensures
        match r {
            Ok(s) => spec_rendered(name@, spec_ctx_map(context.deep_view())) == Some(s@),
            Err(_) => spec_rendered(name@, spec_ctx_map(context.deep_view())) is None,
        },
{
    let mut c = tera::Context::new();
    for (k, v) in context.iter() {
        c.insert(k.as_str(), v.as_str());
    }
    t.render(name, &c).map_err(|e| e.to_string())
}

/// Every command template the engine holds once constructed.
pub open spec fn base_templates() -> Map<Seq<char>, Seq<char>> {
    with_delete_templates(
        with_update_templates(
            with_insert_templates(with_select_templates(Map::empty())),
        ),
    )
}

/// Renders the fixed command templates.
pub struct TemplateEngine {
    tera: tera::Tera,
}

impl TemplateEngine {
    /// The engine holds exactly the fixed command templates.
    pub closed spec fn wf(&self) -> bool {
        templates_of(self.tera) == base_templates()
    }

    /// Build an engine and register every command template. The fixed
    /// sources are all plain substitutions, so registration cannot fail
    /// and construction always succeeds.
    pub fn new() -> (r: Result<TemplateEngine, String>)
        ensures
            r is Ok,
            r matches Ok(e) ==> e.wf(),
    {
        let mut t = tera_default();
        match register_select_templates(&mut t) {
            Ok(()) => (),
            Err(e) => { return Err(e) },
        }
        match register_insert_templates(&mut t) {
            Ok(()) => (),
            Err(e) => { return Err(e) },
        }
        match register_update_templates(&mut t) {
            Ok(()) => (),
            Err(e) => { return Err(e) },
        }
        match register_delete_templates(&mut t) {
            Ok(()) => (),
            Err(e) => { return Err(e) },
        }
        Ok(TemplateEngine { tera: t })
    }

    /// Render a template with the given context.
    pub fn render(&self, template_name: &str, context: &TemplateContext) -> (r: Result<
        String,
        String,
    >)
        requires
            self.wf(),
        ensures
            match r {
                Ok(s) => spec_rendered(template_name@, spec_ctx_map(context.deep_view())) == Some(
                    s@,
                ),
                Err(_) => spec_rendered(
                    template_name@,
                    spec_ctx_map(context.deep_view()),
                ) is None,
            },
    {
        tera_render(&self.tera, template_name, context)
    }
}

} // verus!
