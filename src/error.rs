use vstd::prelude::*;

use crate::event::Message;

verus! {

#[verifier::external_type_specification]
#[verifier::external_body]
pub struct ExPullParserError(plaintalk::pullparser::Error);

#[verifier::external_type_specification]
#[verifier::external_body]
pub struct ExPushGeneratorError(plaintalk::pushgenerator::Error);

/// Every way a session can fail.
#[derive(Debug)]
pub enum SessionError {
    /// The framing layer broke its own contract (for instance a message
    /// without any field).
    PlainTalk(&'static str),
    /// Reading the inbound stream failed.
    PullParser(plaintalk::pullparser::Error),
    /// Writing an outgoing message failed.
    PushGenerator(plaintalk::pushgenerator::Error),
    /// A field that must be text is not valid UTF-8.
    InvalidText,
    /// A message did not have the shape its handler requires.
    ExpectationFailed,
    /// The consumer stopped receiving; carries the undelivered message.
    Sender(Message),
}

} // verus!
