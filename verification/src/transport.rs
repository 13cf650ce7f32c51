//! The framing of messages on the two transports: lines on the standard
//! streams, and events on an HTTP event stream.

use vstd::prelude::*;
use vstd::string::*;
use crate::text::{join, join3};

verus! {

/// Where a client posts its messages.
pub const MESSAGE_PATH: &'static str = "/api/message";

/// Where a client opens the event stream.
pub const EVENTS_PATH: &'static str = "/api/events";

/// How many outgoing messages are kept for a listener that falls behind.
pub const CHANNEL_CAPACITY: usize = 100;

/// After how many seconds of silence an event stream gets a keep-alive
/// comment.
pub const KEEP_ALIVE_SECONDS: u64 = 15;

/// One event of an event stream.
#[derive(Debug, Clone, PartialEq)]
pub struct SseEvent {
    pub event: String,
    pub data: String,
}

/// What a [`SseEvent`] holds.
pub struct SseEventView {
    pub event: Seq<char>,
    pub data: Seq<char>,
}

impl View for SseEvent {
    type V = SseEventView;

    open spec fn view(&self) -> SseEventView {
        SseEventView { event: self.event@, data: self.data@ }
    }
}

/// The text of an event on the stream.
pub open spec fn event_text(e: SseEventView) -> Seq<char> {
    "event: "@ + e.event + "\ndata: "@ + e.data + "\n\n"@
}

impl SseEvent {
    /// The event that opens every stream: it tells the client where to
    /// post its messages.
    pub fn endpoint() -> (r: SseEvent)
        ensures
            r@ == (SseEventView { event: "endpoint"@, data: "/api/message"@ }),
    {
        SseEvent { event: "endpoint".to_owned(), data: "/api/message".to_owned() }
    }

    /// The event that carries one outgoing message, written as JSON.
    pub fn message(data: String) -> (r: SseEvent)
        ensures
            r@ == (SseEventView { event: "message"@, data: data@ }),
    {
        SseEvent { event: "message".to_owned(), data }
    }

    /// The event as it is written on the stream.
    pub fn to_text(&self) -> (r: String)
        ensures
            r@ == event_text(self@),
    {
        let mut out = join3("event: ", self.event.as_str(), "\ndata: ");
        out.append(self.data.as_str());
        out.append("\n\n");
        out
    }
}

/// A message on the standard streams: its JSON text and a line feed.
pub fn frame_line(message: &str) -> (r: String)
    ensures
        r@ == message@ + "\n"@,
{
    join(message, "\n")
}

} // verus!
