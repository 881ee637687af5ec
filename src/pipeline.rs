//! The fetch of the feed as a state machine: whoever performs the request
//! reports what happened, and [`step`] says what to do next. The first
//! failure ends the fetch; nothing is retried.
use vstd::prelude::*;
use vstd::utf8::{decode_utf8, valid_utf8};

use crate::fetch::{
    body_text, check_status, decoded_areas, payload_error, payload_view, status_view,
    success_status, transport_error, transport_view, utf8_error_text, valid_status,
    canonical_reason_of, PayloadFailure, TransportFailure,
};
use crate::finnkino::{titled, Error, TheatreArea, TheatreAreas};

verus! {

/// Where a fetch stands.
#[derive(Clone, Copy, Debug, PartialEq, Eq, Structural)]
pub enum Stage {
    /// The request is out; its response head is awaited.
    AwaitingHead,
    /// The head was a success; the body is being read.
    AwaitingBody,
    /// The body was text; the feed's XML is being decoded.
    AwaitingParse,
    /// The fetch is over.
    Finished,
}

/// What the party performing the fetch observed.
pub enum Event {
    SendFailed(TransportFailure),
    /// The response head arrived with this status code.
    Head(u16),
    BodyFailed(PayloadFailure),
    Body(Vec<u8>),
    /// The feed's text was decoded (see [`crate::xml::decode_feed`]): its
    /// envelope, or why the text is not a feed.
    Parsed(Result<TheatreAreas, String>),
}

/// What to do next.
pub enum Action {
    ReadBody,
    /// Decode this text as the feed.
    Parse(String),
    /// Hand this outcome to the caller; the fetch is over.
    Finish(Result<Vec<TheatreArea>, Error>),
}

/// Which events a stage takes.
pub open spec fn takes(stage: Stage, event: Event) -> bool {
    match stage {
        Stage::AwaitingHead => event is SendFailed || (event matches Event::Head(c) && valid_status(c)),
        Stage::AwaitingBody => event is BodyFailed || event is Body,
        Stage::AwaitingParse => event is Parsed,
        Stage::Finished => false,
    }
}

/// A finished fetch takes no further event: the first failure is final and
/// nothing is retried.
pub proof fn finished_takes_nothing(event: Event)
    ensures
        !takes(Stage::Finished, event),
{
}

/// Whether `stage` takes `event`.
pub fn accepts(stage: Stage, event: &Event) -> (r: bool)
    ensures
        r == takes(stage, *event),
{
    match stage {
        Stage::AwaitingHead => match event {
            Event::SendFailed(_) => true,
            Event::Head(c) => 100 <= *c && *c <= 999,
            _ => false,
        },
        Stage::AwaitingBody => match event {
            Event::BodyFailed(_) | Event::Body(_) => true,
            _ => false,
        },
        Stage::AwaitingParse => match event {
            Event::Parsed(_) => true,
            _ => false,
        },
        Stage::Finished => false,
    }
}

/// The action ends the fetch with this error.
pub open spec fn fails_with(a: Action, e: crate::finnkino::ErrorView) -> bool {
    a matches Action::Finish(Err(x)) && x@ == e
}

/// Advances a fetch by one observed event.
pub fn step(stage: Stage, event: Event) -> (r: (Stage, Action))
    requires
        takes(stage, event),
    ensures
        r.1 is Finish <==> r.0 == Stage::Finished,
        event matches Event::SendFailed(f) ==> fails_with(r.1, transport_view(f)),
        event matches Event::Head(c) ==> (if success_status(c) {
            r.0 == Stage::AwaitingBody && r.1 is ReadBody
        } else {
            fails_with(r.1, status_view(c, canonical_reason_of(c)))
        }),
        event matches Event::BodyFailed(f) ==> fails_with(r.1, payload_view(f)),
        event matches Event::Body(b) ==> (if valid_utf8(b@) {
            r.0 == Stage::AwaitingParse && (r.1 matches Action::Parse(t) && t@ == decode_utf8(b@))
        } else {
            fails_with(r.1, titled("Failed to parse XML"@, utf8_error_text(b@)))
        }),
        event matches Event::Parsed(Ok(a)) ==> r.1 matches Action::Finish(Ok(v)) && v@
            == a.theatre_areas@,
        event matches Event::Parsed(Err(d)) ==> fails_with(
            r.1,
            titled("Failed to serialize XML"@, d@),
        ),
{
    match event {
        Event::SendFailed(f) => (Stage::Finished, Action::Finish(Err(transport_error(f)))),
        Event::Head(code) => match check_status(code) {
            None => (Stage::AwaitingBody, Action::ReadBody),
            Some(e) => (Stage::Finished, Action::Finish(Err(e))),
        },
        Event::BodyFailed(f) => (Stage::Finished, Action::Finish(Err(payload_error(f)))),
        Event::Body(b) => match body_text(b) {
            Ok(text) => (Stage::AwaitingParse, Action::Parse(text)),
            Err(e) => (Stage::Finished, Action::Finish(Err(e))),
        },
        Event::Parsed(parsed) => (Stage::Finished, Action::Finish(decoded_areas(parsed))),
    }
}

} // verus!
