use crate::templates::{page_label, PageModel, RenderInput, Template};
use crate::types::{
    bad_request_body, EventModel, Level, LogEvent, Profile, RenderError, Response, ResponseModel,
};
use vstd::prelude::*;
use vstd::string::*;

verus! {

/// What a handler asks for next: send a finished response, or render a page
/// and pass the outcome to [`finish`].
pub enum Plan {
    Respond(Response),
    Render(RenderInput),
}

/// Mathematical model of a [`Plan`].
pub enum PlanModel {
    Respond(ResponseModel),
    Render(PageModel),
}

impl View for Plan {
    type V = PlanModel;

    open spec fn view(&self) -> PlanModel {
        match self {
            Plan::Respond(r) => PlanModel::Respond(r@),
            Plan::Render(i) => PlanModel::Render(i@),
        }
    }
}

/// The landing page is always rendered, with no data.
pub open spec fn home_plan() -> PlanModel {
    PlanModel::Render(PageModel::Home)
}

/// An empty name is answered at once with an empty 200 response; any other
/// name has the profile page rendered for it. No trimming takes place.
pub open spec fn profile_plan(name: Seq<char>) -> PlanModel {
    if name.len() == 0 {
        PlanModel::Respond(ResponseModel { status: 200, body: Seq::empty() })
    } else {
        PlanModel::Render(PageModel::Profile(name))
    }
}

/// The response for a render outcome: the rendered text with 200, or the
/// generic body with 400.
pub open spec fn outcome_response(outcome: Result<Seq<char>, Seq<char>>) -> ResponseModel {
    match outcome {
        Ok(text) => ResponseModel { status: 200, body: text },
        Err(_) => ResponseModel { status: 400, body: bad_request_body() },
    }
}

/// The event logged for a render outcome: a debug note that the page is
/// served, or an error that carries the engine's detail.
pub open spec fn outcome_event(page: PageModel, outcome: Result<Seq<char>, Seq<char>>) -> EventModel {
    match outcome {
        Ok(_) => EventModel { level: Level::Debug, message: "Serving "@ + page_label(page) },
        Err(detail) => EventModel {
            level: Level::Error,
            message: "Failed to render "@ + page_label(page) + " with following error: "@
                + detail,
        },
    }
}

/// The event logged when a profile request arrives.
pub open spec fn received_message(name: Seq<char>) -> Seq<char> {
    "Fetching profile: "@ + name
}

/// Model of a render outcome handed to [`finish`].
pub open spec fn outcome_model(outcome: Result<String, RenderError>) -> Result<Seq<char>, Seq<char>> {
    match outcome {
        Ok(text) => Ok(text@),
        Err(e) => Err(e.detail@),
    }
}

/// A response together with the event to log for it.
pub struct Handled {
    pub response: Response,
    pub event: LogEvent,
}

/// Handler of `GET /`.
pub fn home() -> (p: Plan)
    ensures
        p@ == home_plan(),
{
    Plan::Render(RenderInput::Home)
}

/// Handler of `GET /profile`, given the profile the query string names.
pub fn profile(query: Profile) -> (p: Plan)
    ensures
        p@ == profile_plan(query@),
{
    if query.name.as_str().is_empty() {
        Plan::Respond(Response::empty())
    } else {
        Plan::Render(RenderInput::Profile(query))
    }
}

/// The debug event that records a profile request as it arrives.
pub fn received_event(query: &Profile) -> (e: LogEvent)
    ensures
        e@ == (EventModel { level: Level::Debug, message: received_message(query@) }),
{
    let message = String::from_str("Fetching profile: ").concat(query.name.as_str());
    LogEvent { level: Level::Debug, message }
}

/// Maps the outcome of expanding `page` to the response and the event to log.
pub fn finish(page: &Template, outcome: Result<String, RenderError>) -> (h: Handled)
    ensures
        h.response@ == outcome_response(outcome_model(outcome)),
        h.event@ == outcome_event(page@, outcome_model(outcome)),
{
    match outcome {
        Ok(text) => {
            let message = String::from_str("Serving ").concat(page.label());
            Handled { response: Response::ok(text), event: LogEvent { level: Level::Debug, message } }
        },
        Err(e) => {
            let message = String::from_str("Failed to render ").concat(page.label()).concat(
                " with following error: ",
            ).concat(e.detail.as_str());
            Handled {
                response: Response::bad_request(),
                event: LogEvent { level: Level::Error, message },
            }
        },
    }
}

} // verus!
