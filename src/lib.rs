//! The pages that the site serves, and what each one asks the template
//! engine to render.

mod pages;

pub use pages::{
    index, index_request, lemma_index_pages_agree, lemma_index_requests_agree, rendered_template,
    spec_index_request, RenderRequest,
};
