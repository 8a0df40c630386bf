use vstd::prelude::*;

use crate::error::SessionError;
use crate::event::{EventView, ProtocolEvent};
use crate::expect::{bytes_equal, expect, expect_end, expect_field};
use crate::wire::{text_of, WireMessage};

verus! {

/// Message id of an event originated by the server: `*`.
pub open spec fn server_event_id() -> Seq<u8> {
    seq![42u8]
}

/// Message id of a reply to one of our requests: `-`.
pub open spec fn reply_id() -> Seq<u8> {
    seq![45u8]
}

/// Event name of a broadcast: `shout`.
pub open spec fn shout_name() -> Seq<u8> {
    seq![115u8, 104u8, 111u8, 117u8, 116u8]
}

/// Status of a successful reply: `ok`.
pub open spec fn ok_status() -> Seq<u8> {
    seq![111u8, 107u8]
}

/// What one wire message amounts to.
#[derive(Debug, Clone, PartialEq, Eq)]
pub enum Step {
    /// The message carried this event.
    Event(ProtocolEvent),
    /// The message is of a kind this client ignores.
    Skip,
    /// The remote end closed the session: an empty id and nothing else.
    Stop,
}

/// The outcome of classifying one message, over plain values.
pub enum StepView {
    Event(EventView),
    Skip,
    Stop,
    /// The message had no field at all.
    NoFields,
    /// A text field was not valid UTF-8.
    BadText,
    /// The message did not have the required shape.
    Mismatch,
}

/// The outcome of the text field at `i`, followed by `then` when it is text.
pub open spec fn with_text(fields: Seq<Seq<u8>>, i: int, then: spec_fn(Seq<char>) -> StepView) -> StepView {
    if fields.len() <= i {
        StepView::Mismatch
    } else {
        match text_of(fields[i]) {
            Some(t) => then(t),
            None => StepView::BadText,
        }
    }
}

/// How a message with the given fields is classified.
///
/// A shout must end after its text; a successful reply may carry further
/// fields after the user id, which are dropped.
pub open spec fn classify(fields: Seq<Seq<u8>>) -> StepView {
    if fields.len() == 0 {
        StepView::NoFields
    } else if fields[0] == Seq::<u8>::empty() && fields.len() == 1 {
        StepView::Stop
    } else if fields[0] == server_event_id() {
        if fields.len() < 2 {
            StepView::Mismatch
        } else if fields[1] == shout_name() {
            with_text(
                fields,
                2,
                |sender: Seq<char>|
                    with_text(
                        fields,
                        3,
                        |text: Seq<char>|
                            if fields.len() > 4 {
                                StepView::Mismatch
                            } else {
                                StepView::Event(EventView::Shout(sender, text))
                            },
                    ),
            )
        } else {
            StepView::Skip
        }
    } else if fields[0] == reply_id() {
        if fields.len() < 2 || fields[1] != ok_status() {
            StepView::Mismatch
        } else {
            with_text(fields, 2, |id: Seq<char>| StepView::Event(EventView::Authenticated(id)))
        }
    } else {
        StepView::Skip
    }
}

/// Whether `r` is the executable form of the outcome `v`.
pub open spec fn step_is(r: Result<Step, SessionError>, v: StepView) -> bool {
    match v {
        StepView::Event(e) => r matches Ok(Step::Event(ev)) && ev@ == e,
        StepView::Skip => r matches Ok(Step::Skip),
        StepView::Stop => r matches Ok(Step::Stop),
        StepView::NoFields => r matches Err(SessionError::PlainTalk(_)),
        StepView::BadText => r matches Err(SessionError::InvalidText),
        StepView::Mismatch => r matches Err(SessionError::ExpectationFailed),
    }
}

/// Classifies one wire message into at most one protocol event.
pub fn decode_message(message: WireMessage) -> (r: Result<Step, SessionError>)
    requires
        message.wf(),
    ensures
        step_is(r, classify(message@)),
{
    let mut message = message;
    let msg_id = match message.read_field() {
        Some(f) => f,
        None => {
            return Err(SessionError::PlainTalk("message without fields"));
        },
    };
    if msg_id.len() == 0 && message.at_end() {
        assert(msg_id@ =~= Seq::<u8>::empty());
        return Ok(Step::Stop);
    }
    // `*`, `-` and `shout`
    let star = [42u8];
    let dash = [45u8];
    let shout = [115u8, 104u8, 111u8, 117u8, 116u8];
    assert(star@ =~= server_event_id());
    assert(dash@ =~= reply_id());
    assert(shout@ =~= shout_name());
    if bytes_equal(msg_id.as_slice(), &star) {
        let event = match expect(Ok(message.read_field())) {
            Ok(name) => name,
            Err(e) => return Err(e),
        };
        if bytes_equal(event.as_slice(), &shout) {
            let id = match expect(message.read_field_as_string()) {
                Ok(id) => id,
                Err(e) => return Err(e),
            };
            let text = match expect(message.read_field_as_string()) {
                Ok(text) => text,
                Err(e) => return Err(e),
            };
            match expect_end(&message) {
                Ok(()) => {},
                Err(e) => return Err(e),
            }
            Ok(Step::Event(ProtocolEvent::Shout(id, text)))
        } else {
            message.ignore_rest();
            Ok(Step::Skip)
        }
    } else if bytes_equal(msg_id.as_slice(), &dash) {
        // `ok`
        let ok = [111u8, 107u8];
        assert(ok@ =~= ok_status());
        match expect_field(&mut message, &ok) {
            Ok(()) => {},
            Err(e) => return Err(e),
        }
        let id = match expect(message.read_field_as_string()) {
            Ok(id) => id,
            Err(e) => return Err(e),
        };
        message.ignore_rest();
        Ok(Step::Event(ProtocolEvent::Authenticated(id)))
    } else {
        message.ignore_rest();
        Ok(Step::Skip)
    }
}

/// The events of a stream of messages, in order, up to the first message
/// that ends the session.
pub open spec fn session_events(msgs: Seq<Seq<Seq<u8>>>) -> Seq<EventView>
    decreases msgs.len(),
{
    if msgs.len() == 0 {
        Seq::empty()
    } else {
        match classify(msgs[0]) {
            StepView::Event(e) => seq![e] + session_events(msgs.drop_first()),
            StepView::Skip => session_events(msgs.drop_first()),
            _ => Seq::empty(),
        }
    }
}

/// How a stream of messages ends: `Stop` when it ends gracefully (a
/// closing message, or no message left), else the failure that ends it.
pub open spec fn session_end(msgs: Seq<Seq<Seq<u8>>>) -> StepView
    decreases msgs.len(),
{
    if msgs.len() == 0 {
        StepView::Stop
    } else {
        match classify(msgs[0]) {
            StepView::Event(_) => session_end(msgs.drop_first()),
            StepView::Skip => session_end(msgs.drop_first()),
            v => v,
        }
    }
}

/// Whether `r` is the executable form of the way a session ended.
pub open spec fn end_is(r: Result<(), SessionError>, v: StepView) -> bool {
    match v {
        StepView::Stop => r is Ok,
        StepView::NoFields => r matches Err(SessionError::PlainTalk(_)),
        StepView::BadText => r matches Err(SessionError::InvalidText),
        StepView::Mismatch => r matches Err(SessionError::ExpectationFailed),
        _ => false,
    }
}

pub open spec fn event_views(events: Seq<ProtocolEvent>) -> Seq<EventView> {
    events.map_values(|e: ProtocolEvent| e@)
}

/// Runs the decoder over a stream of framed messages: every event is
/// delivered in order, and decoding stops at the closing message or at the
/// first failure, which is returned.
pub fn connection(messages: &Vec<Vec<Vec<u8>>>) -> (r: (Vec<ProtocolEvent>, Result<(), SessionError>))
    ensures
        event_views(r.0@) == session_events(messages.deep_view()),
        end_is(r.1, session_end(messages.deep_view())),
{
    let ghost msgs = messages.deep_view();
    let mut events: Vec<ProtocolEvent> = Vec::new();
    let mut i: usize = 0;
    assert(msgs.subrange(0, msgs.len() as int) =~= msgs);
    assert(event_views(events@) =~= Seq::<EventView>::empty());
    while i < messages.len()
        invariant
            msgs == messages.deep_view(),
            0 <= i <= msgs.len(),
            event_views(events@) + session_events(msgs.subrange(i as int, msgs.len() as int))
                == session_events(msgs),
            session_end(msgs.subrange(i as int, msgs.len() as int)) == session_end(msgs),
        decreases msgs.len() - i,
    {
        let ghost rest = msgs.subrange(i as int, msgs.len() as int);
        assert(rest.drop_first() =~= msgs.subrange(i + 1, msgs.len() as int));
        let fields = messages[i].clone();
        assert(fields.deep_view() =~= msgs[i as int]);
        let message = WireMessage::new(fields);
        match decode_message(message) {
            Ok(Step::Event(e)) => {
                let ghost before = events@;
                events.push(e);
                assert(event_views(events@) =~= event_views(before) + seq![e@]);
            },
            Ok(Step::Skip) => {},
            Ok(Step::Stop) => {
                assert(event_views(events@) =~= session_events(msgs));
                return (events, Ok(()));
            },
            Err(err) => {
                assert(event_views(events@) =~= session_events(msgs));
                return (events, Err(err));
            },
        }
        i = i + 1;
    }
    assert(msgs.subrange(i as int, msgs.len() as int) =~= Seq::<Seq<Seq<u8>>>::empty());
    assert(event_views(events@) =~= session_events(msgs));
    (events, Ok(()))
}

} // verus!
