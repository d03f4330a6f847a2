//! Server-Sent Events: one event of the application is forwarded per connection.

use axum::response::sse::Event;
use vstd::prelude::*;
use vstd::string::*;

verus! {

/// How often an idle connection is kept alive, in seconds.
pub const KEEP_ALIVE_SECS: u64 = 15;

/// The comment that keeps a connection alive.
pub const KEEP_ALIVE_TEXT: &'static str = "keepalive";

/// Declares `axum::response::sse::Event`.
#[verifier::external_type_specification]
#[verifier::external_body]
pub struct ExEvent(axum::response::sse::Event);

/// The data that an event carries.
pub uninterp spec fn event_data(event: Event) -> Seq<char>;

/// `Event::data` on a new event: the event carries the given text.
#[verifier::external_body]
fn data_event(payload: &str) -> (res: Event)
    ensures
        event_data(res) == payload@,
{
    Event::default().data(payload)
}

/// The next event of a stream, from what the application sent: its payload, or nothing once the
/// application has stopped sending, which ends the stream.
pub fn next_event(received: Option<String>) -> (res: Option<Event>)
    ensures
        match received {
            Some(payload) => res matches Some(event) && event_data(event) == payload@,
            None => res is None,
        },
{
    match received {
        Some(payload) => Some(data_event(payload.as_str())),
        None => None,
    }
}

/// Every payload that the application sends reaches the stream as it is, and the stream goes on
/// exactly as long as the application sends. In between, a comment keeps it alive every 15 seconds.
pub proof fn law_payloads_are_forwarded(received: Option<String>, res: Option<Event>)
    requires
        call_ensures(next_event, (received,), res),
    ensures
        res is Some <==> received is Some,
        res is Some ==> event_data(res->0) == received->0@,
        KEEP_ALIVE_SECS == 15,
        KEEP_ALIVE_TEXT@ == "keepalive"@,
{
}

} // verus!
