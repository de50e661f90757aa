use vstd::prelude::*;
use vstd::string::*;

verus! {

/// HTTP status of a successful response.
pub const STATUS_OK: u16 = 200;

/// HTTP status of a response whose page could not be rendered.
pub const STATUS_BAD_REQUEST: u16 = 400;

/// The profile named in a `/profile` request.
pub struct Profile {
    pub name: String,
}

impl View for Profile {
    type V = Seq<char>;

    open spec fn view(&self) -> Seq<char> {
        self.name@
    }
}

/// The name a request asked for: an absent parameter counts as the empty name.
pub open spec fn requested_name(name: Option<Seq<char>>) -> Seq<char> {
    match name {
        Some(n) => n,
        None => Seq::empty(),
    }
}

impl Profile {
    /// Builds the profile from the `name` query parameter, if one was given.
    pub fn from_query(name: Option<String>) -> (p: Profile)
        ensures
            p@ == requested_name(
                match name {
                    Some(n) => Some(n@),
                    None => None,
                },
            ),
    {
        match name {
            Some(n) => Profile { name: n },
            None => Profile { name: String::new() },
        }
    }
}

/// Why template expansion failed, as the template engine described it.
pub struct RenderError {
    pub detail: String,
}

/// A finished HTTP response: a status and a body.
pub struct Response {
    pub status: u16,
    pub body: String,
}

/// Mathematical model of a [`Response`].
pub struct ResponseModel {
    pub status: u16,
    pub body: Seq<char>,
}

impl View for Response {
    type V = ResponseModel;

    open spec fn view(&self) -> ResponseModel {
        ResponseModel { status: self.status, body: self.body@ }
    }
}

/// The body sent with a failed render: a generic text, never the engine's detail.
pub open spec fn bad_request_body() -> Seq<char> {
    "400 Bad Request"@
}

impl Response {
    /// A 200 response carrying `body`.
    pub fn ok(body: String) -> (r: Response)
        ensures
            r@ == (ResponseModel { status: 200, body: body@ }),
    {
        Response { status: STATUS_OK, body }
    }

    /// A 200 response with an empty body.
    pub fn empty() -> (r: Response)
        ensures
            r@ == (ResponseModel { status: 200, body: Seq::empty() }),
    {
        Response { status: STATUS_OK, body: String::new() }
    }

    /// A 400 response with the generic body.
    pub fn bad_request() -> (r: Response)
        ensures
            r@ == (ResponseModel { status: 400, body: bad_request_body() }),
    {
        Response { status: STATUS_BAD_REQUEST, body: String::from_str("400 Bad Request") }
    }
}

/// Severity of a log event.
#[derive(Clone, Copy, Debug, PartialEq, Eq, Structural)]
pub enum Level {
    Debug,
    Error,
}

/// A log event for the caller to emit.
pub struct LogEvent {
    pub level: Level,
    pub message: String,
}

/// Mathematical model of a [`LogEvent`].
pub struct EventModel {
    pub level: Level,
    pub message: Seq<char>,
}

impl View for LogEvent {
    type V = EventModel;

    open spec fn view(&self) -> EventModel {
        EventModel { level: self.level, message: self.message@ }
    }
}

} // verus!
