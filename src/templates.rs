use crate::types::Profile;
use vstd::prelude::*;

verus! {

/// Data of the landing page: it has no slots.
pub struct IndexTemplate {}

/// Data of the profile page: the profile shown in its slot.
pub struct ProfileTemplate {
    pub profile: Profile,
}

/// Which page to render, with the data that page needs.
pub enum RenderInput {
    Home,
    Profile(Profile),
}

/// A template chosen by page and bound to its data, ready to expand.
pub enum Template {
    Index(IndexTemplate),
    Profile(ProfileTemplate),
}

/// Mathematical model of a page request and of a bound template alike: the
/// page, and the profile name where the page has one.
pub enum PageModel {
    Home,
    Profile(Seq<char>),
}

impl View for RenderInput {
    type V = PageModel;

    open spec fn view(&self) -> PageModel {
        match self {
            RenderInput::Home => PageModel::Home,
            RenderInput::Profile(p) => PageModel::Profile(p@),
        }
    }
}

impl View for Template {
    type V = PageModel;

    open spec fn view(&self) -> PageModel {
        match self {
            Template::Index(_) => PageModel::Home,
            Template::Profile(t) => PageModel::Profile(t.profile@),
        }
    }
}

/// How the page is named in log messages.
pub open spec fn page_label(page: PageModel) -> Seq<char> {
    match page {
        PageModel::Home => "index.html"@,
        PageModel::Profile(_) => "profile"@,
    }
}

impl Template {
    /// How this template's page is named in log messages.
    pub fn label(&self) -> (r: &'static str)
        ensures
            r@ == page_label(self@),
    {
        match self {
            Template::Index(_) => "index.html",
            Template::Profile(_) => "profile",
        }
    }
}

/// Selects the template for the input's page and binds the input's data into
/// its slots: the landing page gets none, the profile page gets the profile.
pub fn select_template(input: RenderInput) -> (t: Template)
    ensures
        t@ == input@,
{
    match input {
        RenderInput::Home => Template::Index(IndexTemplate {}),
        RenderInput::Profile(profile) => Template::Profile(ProfileTemplate { profile }),
    }
}

} // verus!
