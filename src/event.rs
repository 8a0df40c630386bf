use vstd::prelude::*;

verus! {

/// An event announced by the remote end.
#[derive(Debug, Clone, PartialEq, Eq)]
pub enum ProtocolEvent {
    /// The remote end accepted authentication as the given user id.
    Authenticated(String),
    /// A broadcast from a sender id, with its text.
    Shout(String, String),
}

/// Everything the consumer loop can receive.
#[derive(Debug, Clone, PartialEq, Eq)]
pub enum Message {
    ProtocolEvent(ProtocolEvent),
    /// A line of local input that has not been sent yet.
    Line(String),
}

/// The mathematical content of a protocol event.
pub enum EventView {
    Authenticated(Seq<char>),
    Shout(Seq<char>, Seq<char>),
}

impl ProtocolEvent {
    pub open spec fn view(&self) -> EventView {
        match self {
            ProtocolEvent::Authenticated(id) => EventView::Authenticated(id@),
            ProtocolEvent::Shout(id, text) => EventView::Shout(id@, text@),
        }
    }
}

} // verus!
