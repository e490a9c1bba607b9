//! A small HTTP client facade: every verb goes through one shared routine
//! that builds a request, attaches headers and a payload, and classifies
//! what the transport hands back.
//!
//! `request` describes a call as plain values, `client` turns it into a
//! transport request on the one handle a client owns, and `call` decides,
//! event by event, how a call that is in flight ends.
use vstd::prelude::*;

pub mod call;
pub mod client;
pub mod error;
pub mod request;

pub use call::{Event, Phase, Step, step, status_is_success};
pub use client::{HttpClient, Outgoing, Stage, REQUEST_TIMEOUT_SECS};
pub use error::HttpClientError;
pub use request::{
    is_header_name, is_header_value, token_char, Form, Headers, Method, Payload, Query, Request,
    MAX_HEADERS,
};

verus! {

} // verus!
