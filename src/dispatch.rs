use vstd::prelude::*;

use crate::encode::{encode_message, plaintalk_frame, shout_fields, shout_request};
use crate::error::SessionError;
use crate::event::{Message, ProtocolEvent};

verus! {

/// What the consumer does with one received message.
#[derive(Debug, Clone, PartialEq, Eq)]
pub enum Action {
    /// Show the event to the user; nothing is sent.
    Report(ProtocolEvent),
    /// Send these bytes to the remote end.
    Transmit(Vec<u8>),
}

/// The consumer's reaction to one message: protocol events are reported,
/// a local line becomes one framed outgoing shout.
pub fn dispatch(msg: Message) -> (r: Result<Action, SessionError>)
    ensures
        match msg {
            Message::ProtocolEvent(e) => r == Ok::<Action, SessionError>(Action::Report(e)),
            Message::Line(line) => match r {
                Ok(Action::Transmit(b)) => b@ == plaintalk_frame(shout_fields(line@)),
                Ok(Action::Report(_)) => false,
                Err(e) => e is PushGenerator,
            },
        },
{
    match msg {
        Message::ProtocolEvent(e) => Ok(Action::Report(e)),
        Message::Line(line) => {
            let fields = shout_request(line.as_str());
            match encode_message(&fields) {
                Ok(b) => Ok(Action::Transmit(b)),
                Err(e) => Err(e),
            }
        },
    }
}

/// The process status of a finished session: zero exactly when both
/// producers ended without error.
pub fn exit_status(network: &Result<(), SessionError>, input: &Result<(), SessionError>) -> (r: i32)
    ensures
        r == 0 <==> (network is Ok && input is Ok),
{
    match (network, input) {
        (Ok(()), Ok(())) => 0,
        _ => 1,
    }
}

} // verus!
