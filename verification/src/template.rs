use vstd::prelude::*;
use vstd::string::StringExecFns;
use crate::config::{Variant, VariantView};
use crate::errors::ToolError;

verus! {

/// The fixed set of three template texts, one per logical file name, read
/// once per run and reused for every variant.
pub struct TemplateSet {
    pub makefile: String,
    pub descr: String,
    pub plist: String,
}

/// The mathematical content of a `TemplateSet`.
pub ghost struct TemplateSetView {
    pub makefile: Seq<char>,
    pub descr: Seq<char>,
    pub plist: Seq<char>,
}

impl View for TemplateSet {
    type V = TemplateSetView;

    open spec fn view(&self) -> TemplateSetView {
        TemplateSetView { makefile: self.makefile@, descr: self.descr@, plist: self.plist@ }
    }
}

/// The three logical template names, in the fixed processing order: build
/// recipe, package description, packing list.
pub fn template_names() -> (r: Vec<String>)
    ensures
        r@.len() == 3,
        r@[0]@ == "Makefile"@,
        r@[1]@ == "DESCR"@,
        r@[2]@ == "PLIST"@,
{
    let mut names: Vec<String> = Vec::new();
    names.push(String::from_str("Makefile"));
    names.push(String::from_str("DESCR"));
    names.push(String::from_str("PLIST"));
    names
}

/// Whether the template engine accepts a template's text: a function of the
/// text alone.
pub uninterp spec fn hb_template_ok(tpl: Seq<char>) -> bool;

/// What the template engine renders from a template and one variant record's
/// four fields, or `None` when the engine rejects the render: a function of
/// the template text and the field values alone. A field the template names
/// but the record lacks follows the engine's own substitution-miss rule; the
/// result is still whatever the engine answers for these five arguments.
pub uninterp spec fn hb_render(
    tpl: Seq<char>,
    variant: Seq<char>,
    name: Seq<char>,
    number: Option<Seq<char>>,
    description: Seq<char>,
) -> Option<Seq<char>>;

/// The engine's answer for a whole record.
pub open spec fn rendered(tpl: Seq<char>, v: VariantView) -> Option<Seq<char>> {
    hb_render(tpl, v.variant, v.name, v.number, v.description)
}

/// Relies on `handlebars::Template::compile`: whether a template parses is a
/// function of its text alone.
#[verifier::external_body]
pub(crate) fn template_compiles(tpl: &str) -> (r: bool)
    ensures
        r == hb_template_ok(tpl@),
{
    handlebars::Template::compile(tpl).is_ok()
}

/// Relies on `handlebars::Handlebars::render_template` on a fresh registry
/// (no helpers, default settings): the rendered text is a function of the
/// template text and the supplied fields alone.
#[verifier::external_body]
pub(crate) fn render_template_raw(tpl: &str, v: &Variant) -> (r: Option<String>)
    ensures
        r is Some <==> hb_render(tpl@, v@.variant, v@.name, v@.number, v@.description) is Some,
        r is Some ==> r->Some_0@ == hb_render(
            tpl@,
            v@.variant,
            v@.name,
            v@.number,
            v@.description,
        )->Some_0,
{
    let mut m = std::collections::BTreeMap::new();
    m.insert("variant", v.variant.as_str());
    m.insert("name", v.name.as_str());
    if let Some(n) = &v.number {
        m.insert("number", n.as_str());
    }
    m.insert("description", v.description.as_str());
    handlebars::Handlebars::new().render_template(tpl, &m).ok()
}

/// Check all three templates against the engine, in the fixed order, before
/// anything is rendered: the first rejected one names the whole run's error.
pub fn check_templates(ts: &TemplateSet) -> (r: Result<(), ToolError>)
    ensures
        r is Ok <==> (hb_template_ok(ts@.makefile) && hb_template_ok(ts@.descr)
            && hb_template_ok(ts@.plist)),
        r is Err ==> (r->Err_0 matches ToolError::TemplateSyntax(n) && ({
            ||| (!hb_template_ok(ts@.makefile) && n@ == "Makefile"@)
            ||| (hb_template_ok(ts@.makefile) && !hb_template_ok(ts@.descr) && n@ == "DESCR"@)
            ||| (hb_template_ok(ts@.makefile) && hb_template_ok(ts@.descr) && !hb_template_ok(
                ts@.plist,
            ) && n@ == "PLIST"@)
        })),
{
    if !template_compiles(ts.makefile.as_str()) {
        Err(ToolError::TemplateSyntax(String::from_str("Makefile")))
    } else if !template_compiles(ts.descr.as_str()) {
        Err(ToolError::TemplateSyntax(String::from_str("DESCR")))
    } else if !template_compiles(ts.plist.as_str()) {
        Err(ToolError::TemplateSyntax(String::from_str("PLIST")))
    } else {
        Ok(())
    }
}

} // verus!
