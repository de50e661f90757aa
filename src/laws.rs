use crate::handlers::{
    home_plan, outcome_event, outcome_response, profile_plan, PlanModel,
};
use crate::templates::PageModel;
use crate::types::{requested_name, Level, ResponseModel};
use vstd::prelude::*;

verus! {

/// The response a profile request ends with, given what rendering its page
/// would yield: the short-circuit response, or the mapped render outcome.
pub open spec fn profile_response(name: Seq<char>, outcome: Result<Seq<char>, Seq<char>>) -> ResponseModel {
    match profile_plan(name) {
        PlanModel::Respond(r) => r,
        PlanModel::Render(_) => outcome_response(outcome),
    }
}

/// A non-empty name has the profile page rendered with exactly that name in
/// its slot, and a successful render is sent as it is with status 200.
pub proof fn lemma_profile_page_for_name(name: Seq<char>, rendered: Seq<char>)
    requires
        name.len() > 0,
    ensures
        profile_plan(name) == PlanModel::Render(PageModel::Profile(name)),
        profile_response(name, Ok(rendered)) == (ResponseModel { status: 200, body: rendered }),
{
}

/// A missing or empty name is answered with an empty 200 response, whatever
/// rendering would have yielded: no page is rendered for it.
pub proof fn lemma_empty_name_short_circuits(
    name: Option<Seq<char>>,
    outcome: Result<Seq<char>, Seq<char>>,
)
    requires
        name is None || name == Some(Seq::<char>::empty()),
    ensures
        profile_plan(requested_name(name)) is Respond,
        profile_response(requested_name(name), outcome) == (ResponseModel {
            status: 200,
            body: Seq::empty(),
        }),
{
}

/// The landing page is rendered with no data, and a successful render is sent
/// as it is with status 200.
pub proof fn lemma_home_serves_landing_page(rendered: Seq<char>)
    ensures
        home_plan() == PlanModel::Render(PageModel::Home),
        outcome_response(Ok(rendered)) == (ResponseModel { status: 200, body: rendered }),
{
}

/// A failed render of any page gives status 400 with the generic body, and an
/// error event whose message ends with the engine's detail.
pub proof fn lemma_render_failure_is_bad_request(page: PageModel, detail: Seq<char>)
    ensures
        outcome_response(Err(detail)).status == 400,
        outcome_event(page, Err(detail)).level == Level::Error,
        ({
            let m = outcome_event(page, Err(detail)).message;
            &&& m.len() >= detail.len()
            &&& m.subrange(m.len() - detail.len(), m.len() as int) == detail
        }),
{
    let m = outcome_event(page, Err(detail)).message;
    assert(m.subrange(m.len() - detail.len(), m.len() as int) =~= detail);
}

/// Requests for two different names render two different pages, each bound
/// to its own name only.
pub proof fn lemma_profile_requests_independent(a: Seq<char>, b: Seq<char>)
    requires
        a.len() > 0,
        b.len() > 0,
        a != b,
    ensures
        profile_plan(a) == PlanModel::Render(PageModel::Profile(a)),
        profile_plan(b) == PlanModel::Render(PageModel::Profile(b)),
        profile_plan(a) != profile_plan(b),
{
}

/// Repeating a profile request gives the same response every time the page
/// renders to the same text, and only then: the body is the rendered text.
pub proof fn lemma_profile_repeatable(name: Seq<char>, first: Seq<char>, second: Seq<char>)
    requires
        name.len() > 0,
    ensures
        (profile_response(name, Ok(first)) == profile_response(name, Ok(second))) <==> (first
            == second),
{
    if profile_response(name, Ok(first)) == profile_response(name, Ok(second)) {
        assert(profile_response(name, Ok(first)).body == first);
    }
}

} // verus!
