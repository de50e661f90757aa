//! Request-to-response pipeline of a two-page site: route dispatch, query
//! extraction, template selection and binding, and the mapping of a render
//! outcome to an HTTP status, a body and a log event.
//!
//! Template expansion itself is left to the caller: the handlers return a
//! plan that either is a finished response or names the bound template to
//! expand, and `finish` turns the expansion's outcome into the response.

pub mod handlers;
pub mod laws;
pub mod router;
pub mod templates;
pub mod types;
