use chattalk::decode::{connection, decode_message, Step};
use chattalk::dispatch::{dispatch, exit_status, Action};
use chattalk::encode::{auth_request, encode_message, shout_request};
use chattalk::error::SessionError;
use chattalk::event::{Message, ProtocolEvent};
use chattalk::wire::WireMessage;
use plaintalk::pullparser::PullParser;
use plaintalk::pushgenerator::PushGenerator;

fn framed(messages: &[&[&[u8]]]) -> Vec<u8> {
    let mut out: Vec<u8> = Vec::new();
    {
        let mut generator = PushGenerator::new(&mut out);
        for m in messages {
            generator.write_message(m).unwrap();
        }
    }
    out
}

fn parsed(bytes: &[u8]) -> Vec<Vec<Vec<u8>>> {
    let mut parser = PullParser::new(bytes);
    let mut messages = Vec::new();
    while let Some(m) = parser.read_message().unwrap() {
        messages.push(m);
    }
    messages
}

fn fields(items: &[&[u8]]) -> Vec<Vec<u8>> {
    items.iter().map(|f| f.to_vec()).collect()
}

fn decode(items: &[&[u8]]) -> Result<Step, SessionError> {
    decode_message(WireMessage::new(fields(items)))
}

#[test]
fn auth_then_shout_then_close() {
    let bytes = framed(&[&[b"-", b"ok", b"alice"], &[b"*", b"shout", b"bob", b"hello"], &[b""]]);
    let messages = parsed(&bytes);
    let (events, end) = connection(&messages);
    assert_eq!(
        events,
        vec![
            ProtocolEvent::Authenticated("alice".to_string()),
            ProtocolEvent::Shout("bob".to_string(), "hello".to_string()),
        ]
    );
    assert!(end.is_ok());
    assert_eq!(exit_status(&end, &Ok(())), 0);
}

#[test]
fn failed_reply_ends_session_with_error() {
    let bytes = framed(&[&[b"-", b"fail", b"alice"]]);
    let messages = parsed(&bytes);
    let (events, end) = connection(&messages);
    assert!(events.is_empty());
    assert!(matches!(end, Err(SessionError::ExpectationFailed)));
    assert_ne!(exit_status(&end, &Ok(())), 0);
}

#[test]
fn shout_decodes_to_event() {
    let r = decode(&[b"*", b"shout", b"carol", b"good morning"]).unwrap();
    assert_eq!(r, Step::Event(ProtocolEvent::Shout("carol".to_string(), "good morning".to_string())));
}

#[test]
fn shout_with_trailing_field_fails() {
    let r = decode(&[b"*", b"shout", b"carol", b"hi", b"extra"]);
    assert!(matches!(r, Err(SessionError::ExpectationFailed)));
}

#[test]
fn shout_missing_text_fails() {
    let r = decode(&[b"*", b"shout", b"carol"]);
    assert!(matches!(r, Err(SessionError::ExpectationFailed)));
}

#[test]
fn server_event_without_name_fails() {
    let r = decode(&[b"*"]);
    assert!(matches!(r, Err(SessionError::ExpectationFailed)));
}

#[test]
fn shout_with_invalid_text_fails() {
    let r = decode(&[b"*", b"shout", &[0xff, 0xfe], b"hi"]);
    assert!(matches!(r, Err(SessionError::InvalidText)));
}

#[test]
fn other_server_events_are_skipped() {
    assert_eq!(decode(&[b"*", b"join", b"dave", b"x", b"y"]).unwrap(), Step::Skip);
    assert_eq!(decode(&[b"*", b"shouts"]).unwrap(), Step::Skip);
}

#[test]
fn reply_ok_authenticates() {
    let r = decode(&[b"-", b"ok", b"alice"]).unwrap();
    assert_eq!(r, Step::Event(ProtocolEvent::Authenticated("alice".to_string())));
}

#[test]
fn reply_ok_tolerates_trailing_fields() {
    let r = decode(&[b"-", b"ok", b"alice", b"more", b"fields"]).unwrap();
    assert_eq!(r, Step::Event(ProtocolEvent::Authenticated("alice".to_string())));
}

#[test]
fn reply_not_ok_fails() {
    assert!(matches!(decode(&[b"-", b"fail", b"alice"]), Err(SessionError::ExpectationFailed)));
    assert!(matches!(decode(&[b"-", b"okay", b"alice"]), Err(SessionError::ExpectationFailed)));
    assert!(matches!(decode(&[b"-", b"o"]), Err(SessionError::ExpectationFailed)));
    assert!(matches!(decode(&[b"-"]), Err(SessionError::ExpectationFailed)));
}

#[test]
fn reply_ok_without_id_fails() {
    assert!(matches!(decode(&[b"-", b"ok"]), Err(SessionError::ExpectationFailed)));
}

#[test]
fn empty_id_alone_stops() {
    assert_eq!(decode(&[b""]).unwrap(), Step::Stop);
}

#[test]
fn empty_id_with_fields_is_skipped() {
    assert_eq!(decode(&[b"", b"x"]).unwrap(), Step::Skip);
}

#[test]
fn unknown_id_is_skipped() {
    assert_eq!(decode(&[b"+", b"ok", b"alice"]).unwrap(), Step::Skip);
    assert_eq!(decode(&[b"a-very-long-message-id"]).unwrap(), Step::Skip);
}

#[test]
fn message_without_fields_is_fatal() {
    assert!(matches!(decode(&[]), Err(SessionError::PlainTalk(_))));
}

#[test]
fn close_stops_before_later_messages() {
    let messages = vec![
        fields(&[b"*", b"shout", b"bob", b"one"]),
        fields(&[b""]),
        fields(&[b"*", b"shout", b"bob", b"two"]),
    ];
    let (events, end) = connection(&messages);
    assert_eq!(events, vec![ProtocolEvent::Shout("bob".to_string(), "one".to_string())]);
    assert!(end.is_ok());
}

#[test]
fn events_before_failure_are_kept() {
    let messages = vec![
        fields(&[b"-", b"ok", b"alice"]),
        fields(&[b"*", b"ping"]),
        fields(&[b"*", b"shout", b"bob"]),
        fields(&[b"*", b"shout", b"bob", b"late"]),
    ];
    let (events, end) = connection(&messages);
    assert_eq!(events, vec![ProtocolEvent::Authenticated("alice".to_string())]);
    assert!(matches!(end, Err(SessionError::ExpectationFailed)));
}

#[test]
fn stream_end_without_close_is_graceful() {
    let messages = vec![fields(&[b"*", b"shout", b"bob", b"x"])];
    let (events, end) = connection(&messages);
    assert_eq!(events.len(), 1);
    assert!(end.is_ok());
    let (none, end) = connection(&Vec::new());
    assert!(none.is_empty());
    assert!(end.is_ok());
}

#[test]
fn shout_round_trips_through_the_codec() {
    let line = "hello {world}\r\n again".to_string();
    let action = dispatch(Message::Line(line.clone())).unwrap();
    let bytes = match action {
        Action::Transmit(b) => b,
        Action::Report(_) => panic!("a line must be transmitted"),
    };
    let messages = parsed(&bytes);
    assert_eq!(messages[0], vec![b"!".to_vec(), b"shout".to_vec(), line.into_bytes()]);
}

#[test]
fn shout_is_framed_as_plaintalk() {
    let bytes = encode_message(&shout_request("hi")).unwrap();
    assert_eq!(bytes, b"! shout hi\n".to_vec());
}

#[test]
fn auth_request_is_framed_as_plaintalk() {
    assert_eq!(auth_request(), vec![b"-".to_vec(), b"auth".to_vec(), b"unix".to_vec()]);
    let bytes = encode_message(&auth_request()).unwrap();
    assert_eq!(bytes, b"- auth unix\n".to_vec());
}

#[test]
fn protocol_events_are_reported() {
    let e = ProtocolEvent::Shout("bob".to_string(), "hi".to_string());
    let r = dispatch(Message::ProtocolEvent(e.clone())).unwrap();
    assert_eq!(r, Action::Report(e));
}

#[test]
fn exit_status_fails_on_any_error() {
    assert_eq!(exit_status(&Ok(()), &Ok(())), 0);
    assert_ne!(exit_status(&Err(SessionError::ExpectationFailed), &Ok(())), 0);
    assert_ne!(exit_status(&Ok(()), &Err(SessionError::InvalidText)), 0);
}

#[test]
fn channel_keeps_each_producer_in_order() {
    let (tx, rx) = std::sync::mpsc::channel();
    let tx_net = tx.clone();
    let tx_in = tx;
    let events = vec![
        ProtocolEvent::Authenticated("alice".to_string()),
        ProtocolEvent::Shout("bob".to_string(), "one".to_string()),
        ProtocolEvent::Shout("bob".to_string(), "two".to_string()),
    ];
    let lines = vec!["a".to_string(), "b".to_string()];
    tx_in.send(Message::Line(lines[0].clone())).unwrap();
    tx_net.send(Message::ProtocolEvent(events[0].clone())).unwrap();
    tx_net.send(Message::ProtocolEvent(events[1].clone())).unwrap();
    tx_in.send(Message::Line(lines[1].clone())).unwrap();
    tx_net.send(Message::ProtocolEvent(events[2].clone())).unwrap();
    drop(tx_net);
    drop(tx_in);
    let mut got_events = Vec::new();
    let mut got_lines = Vec::new();
    while let Ok(m) = rx.recv() {
        match m {
            Message::ProtocolEvent(e) => got_events.push(e),
            Message::Line(l) => got_lines.push(l),
        }
    }
    assert_eq!(got_events, events);
    assert_eq!(got_lines, lines);
}
