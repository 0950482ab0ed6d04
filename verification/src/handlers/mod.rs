//! What each endpoint answers, given what the request held and what the outside world said.

pub mod get_api_username;
pub mod get_debug_headers;
pub mod get_debug_set_token;
pub mod get_debug_validate_token;
pub mod get_display;
pub mod get_edit;
pub mod get_health;
pub mod get_seed_status;
pub mod get_static;
pub mod health;
pub mod post_api_username;
pub mod update_username;
pub mod username;

use vstd::prelude::*;

pub use crate::database::{lookup_view, update_view};
use crate::errors::{AppError, AppErrorView};

verus! {

/// The page to render: the name of the template and the values it is filled with.
#[derive(Debug)]
pub struct TemplatePage {
    pub template: String,
    pub context: Vec<(String, String)>,
}

/// The mathematical content of a [`TemplatePage`].
pub struct TemplatePageView {
    pub template: Seq<char>,
    pub context: Seq<(Seq<char>, Seq<char>)>,
}

/// The contents of a list of named values.
pub open spec fn context_view(context: Seq<(String, String)>) -> Seq<(Seq<char>, Seq<char>)> {
    Seq::new(context.len(), |i: int| (context[i].0@, context[i].1@))
}

impl View for TemplatePage {
    type V = TemplatePageView;

    open spec fn view(&self) -> TemplatePageView {
        TemplatePageView { template: self.template@, context: context_view(self.context@) }
    }
}

/// The content of a page or the error in its place.
pub open spec fn page_result_view(r: Result<TemplatePage, AppError>) -> Result<
    TemplatePageView,
    AppErrorView,
> {
    match r {
        Ok(page) => Ok(page@),
        Err(e) => Err(e@),
    }
}

} // verus!
