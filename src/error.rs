use vstd::prelude::*;

verus! {

#[verifier::external_type_specification]
#[verifier::external_body]
pub struct ExTransportError(reqwest::Error);

#[verifier::external_type_specification]
#[verifier::external_body]
pub struct ExResponse(reqwest::blocking::Response);

/// Why a call did not produce a response body.
pub enum HttpClientError {
    /// The request could not be completed: connection, DNS, TLS, timeout,
    /// or the payload could not be encoded.
    Client(reqwest::Error),
    /// The exchange completed, but the server answered with a status
    /// outside 2xx. The whole response is kept so the caller can read it.
    StatusCode(reqwest::blocking::Response),
}

impl HttpClientError {
    pub open spec fn is_transport(&self) -> bool {
        self is Client
    }

    pub open spec fn is_status(&self) -> bool {
        self is StatusCode
    }

    /// Whether the request failed below the HTTP response boundary.
    pub fn is_transport_error(&self) -> (r: bool)
        ensures
            r == self.is_transport(),
    {
        match self {
            HttpClientError::Client(_) => true,
            HttpClientError::StatusCode(_) => false,
        }
    }

    /// Whether the server answered with an unsuccessful status.
    pub fn is_status_error(&self) -> (r: bool)
        ensures
            r == self.is_status(),
    {
        match self {
            HttpClientError::Client(_) => false,
            HttpClientError::StatusCode(_) => true,
        }
    }
}

} // verus!
