use vstd::prelude::*;

use crate::error::HttpClientError;

verus! {

/// A status code in the 2xx range.
pub open spec fn is_success(status: u16) -> bool {
    200 <= status && status < 300
}

/// Whether `status` is in the 2xx range.
pub fn status_is_success(status: u16) -> (r: bool)
    ensures
        r == is_success(status),
{
    200 <= status && status < 300
}

/// Where one call stands once its request has been handed to the transport.
pub enum Phase {
    /// The request is on its way; no response yet.
    InFlight,
    /// A 2xx response arrived and its body is being read.
    ReadingBody,
    /// The call has its outcome.
    Finished,
}

/// What the transport reports back to the call.
pub enum Event {
    /// A response arrived, with the status code it carries.
    Responded { status: u16, response: reqwest::blocking::Response },
    /// The transport failed: no response, or no body.
    TransportFailed(reqwest::Error),
    /// The body of a successful response, read as text.
    BodyText(String),
}

/// What the caller is to do next.
pub enum Step {
    /// Read the body of this response as text, and report it back.
    ReadBody(reqwest::blocking::Response),
    /// The call is over, with this outcome.
    Done(Result<String, HttpClientError>),
}

/// Whether `event` can happen while a call is in `phase`.
pub open spec fn accepts(phase: Phase, event: Event) -> bool {
    match phase {
        Phase::InFlight => !(event is BodyText),
        Phase::ReadingBody => !(event is Responded),
        Phase::Finished => false,
    }
}

/// The phase and the step that follow `event` in `phase`.
pub open spec fn step_spec(phase: Phase, event: Event) -> (Phase, Step) {
    match event {
        Event::Responded { status, response } => if is_success(status) {
            (Phase::ReadingBody, Step::ReadBody(response))
        } else {
            (Phase::Finished, Step::Done(Err(HttpClientError::StatusCode(response))))
        },
        Event::TransportFailed(e) => (Phase::Finished, Step::Done(Err(HttpClientError::Client(e)))),
        Event::BodyText(text) => (Phase::Finished, Step::Done(Ok(text))),
    }
}

/// How many more events a call in `phase` can take at most.
pub open spec fn events_left(phase: Phase) -> nat {
    match phase {
        Phase::InFlight => 2,
        Phase::ReadingBody => 1,
        Phase::Finished => 0,
    }
}

/// Advances a call by one event: a 2xx response leads to reading its body,
/// any other status ends the call with the whole response as the error, a
/// transport failure ends it with that failure, and the body text ends it
/// with that text, unchanged.
pub fn step(phase: Phase, event: Event) -> (r: (Phase, Step))
    requires
        accepts(phase, event),
    ensures
        r == step_spec(phase, event),
{
    match event {
        Event::Responded { status, response } => {
            if status_is_success(status) {
                (Phase::ReadingBody, Step::ReadBody(response))
            } else {
                (Phase::Finished, Step::Done(Err(HttpClientError::StatusCode(response))))
            }
        },
        Event::TransportFailed(e) => (Phase::Finished, Step::Done(Err(HttpClientError::Client(e)))),
        Event::BodyText(text) => (Phase::Finished, Step::Done(Ok(text))),
    }
}

/// Every accepted event moves a call strictly closer to its end, and the
/// call ends exactly when the step carries an outcome; a finished call
/// takes no further event. So each call ends after at most two events, in
/// exactly one outcome: body text, a transport error or a status error.
pub proof fn lemma_one_outcome(phase: Phase, event: Event)
    requires
        accepts(phase, event),
    ensures
        events_left(step_spec(phase, event).0) < events_left(phase),
        (step_spec(phase, event).0 is Finished) <==> (step_spec(phase, event).1 is Done),
        forall|e: Event| !accepts(Phase::Finished, e),
{
}

/// The only way a call succeeds is with the body text of a response, handed
/// back unchanged.
pub proof fn lemma_success_is_body_text(phase: Phase, event: Event)
    requires
        accepts(phase, event),
    ensures
        step_spec(phase, event).1 matches Step::Done(Ok(text)) ==> event == Event::BodyText(
            text,
        ),
        event matches Event::BodyText(text) ==> step_spec(phase, event) == (
            Phase::Finished,
            Step::Done(Ok(text)),
        ),
{
}

/// A transport failure, before a response or while its body is read, ends
/// the call with a transport error that carries that failure, never with a
/// status error.
pub proof fn lemma_transport_failure_kept(phase: Phase, e: reqwest::Error)
    requires
        !(phase is Finished),
    ensures
        accepts(phase, Event::TransportFailed(e)),
        step_spec(phase, Event::TransportFailed(e)) == (
            Phase::Finished,
            Step::Done(Err(HttpClientError::Client(e))),
        ),
{
}

/// A response with any status outside 2xx ends the call with a status error
/// that carries that very response; the body is never read. A 2xx response
/// never ends the call with an error.
pub proof fn lemma_status_classified(status: u16, response: reqwest::blocking::Response)
    ensures
        !is_success(status) ==> step_spec(
            Phase::InFlight,
            Event::Responded { status, response },
        ) == (Phase::Finished, Step::Done(Err(HttpClientError::StatusCode(response)))),
        is_success(status) ==> step_spec(Phase::InFlight, Event::Responded { status, response })
            == (Phase::ReadingBody, Step::ReadBody(response)),
{
}

} // verus!
