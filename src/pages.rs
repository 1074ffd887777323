use std::collections::HashMap;

use rocket_dyn_templates::Template;
use vstd::prelude::*;

verus! {

#[verifier::external_type_specification]
#[verifier::external_body]
pub struct ExTemplate(Template);

/// What a page asks of the template engine: the name of a template, and the
/// key-value context to render it with.
pub struct RenderRequest {
    pub name: String,
    pub context: HashMap<String, String>,
}

impl View for RenderRequest {
    type V = (Seq<char>, Map<String, String>);

    open spec fn view(&self) -> Self::V {
        (self.name@, self.context@)
    }
}

/// The root page's request: the template named `index`, with an empty context.
pub open spec fn spec_index_request() -> (Seq<char>, Map<String, String>) {
    ("index"@, Map::empty())
}

/// Builds the root page's request, with a context made fresh for this call.
pub fn index_request() -> (r: RenderRequest)
    ensures
        r@ == spec_index_request(),
{
    RenderRequest { name: "index".to_owned(), context: HashMap::new() }
}

/// Any two requests built for the root page are the same request, and each
/// has an empty context: nothing from one call reaches the next.
pub proof fn lemma_index_requests_agree(a: RenderRequest, b: RenderRequest)
    requires
        a@ == spec_index_request(),
        b@ == spec_index_request(),
    ensures
        a@ == b@,
        a.context@ == Map::<String, String>::empty(),
        b.context@ == Map::<String, String>::empty(),
{
}

/// The template that `Template::render` gives for a name and a context.
pub uninterp spec fn rendered_template(name: Seq<char>, context: Map<String, String>) -> Template;

/// Relies on `rocket_dyn_templates::Template::render`: it records the
/// template's name and the serialized context (a sorted map, whatever order
/// the `HashMap` walks in), so its result depends on the two alone; the
/// template itself is looked up and rendered when the response is written.
#[verifier::external_body]
fn render_template(request: RenderRequest) -> (r: Template)
    ensures
        r == rendered_template(request@.0, request@.1),
{
    Template::render(request.name, &request.context)
}

/// The root page: the `index` template rendered with an empty context.
pub fn index() -> (r: Template)
    ensures
        r == rendered_template("index"@, Map::<String, String>::empty()),
{
    render_template(index_request())
}

/// Any two root pages are the same page: the `index` template with an empty
/// context, whatever was served before.
pub proof fn lemma_index_pages_agree(a: Template, b: Template)
    requires
        a == rendered_template("index"@, Map::<String, String>::empty()),
        b == rendered_template("index"@, Map::<String, String>::empty()),
    ensures
        a == b,
        a == rendered_template(spec_index_request().0, spec_index_request().1),
{
}

} // verus!
