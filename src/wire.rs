use vstd::prelude::*;
use vstd::utf8::{decode_utf8, valid_utf8};

use crate::error::SessionError;

verus! {

/// The text that a field holds, if its bytes are valid UTF-8.
pub open spec fn text_of(bytes: Seq<u8>) -> Option<Seq<char>> {
    if valid_utf8(bytes) {
        Some(decode_utf8(bytes))
    } else {
        None
    }
}

/// Relies on `String::from_utf8`: it accepts exactly the valid UTF-8 byte
/// sequences and then holds the characters they encode.
#[verifier::external_body]
fn string_from_utf8(bytes: Vec<u8>) -> (r: Option<String>)
    ensures
        r is Some <==> valid_utf8(bytes@),
        r matches Some(s) ==> s@ == decode_utf8(bytes@),
{
    String::from_utf8(bytes).ok()
}

/// One framed wire message whose fields are consumed strictly in order.
///
/// Fields of any length are held whole: a long field is compared like any
/// other, never cut short or refused for its size.
pub struct WireMessage {
    fields: Vec<Vec<u8>>,
    next: usize,
}

impl WireMessage {
    /// The fields that have not been consumed yet.
    pub closed spec fn view(&self) -> Seq<Seq<u8>> {
        self.fields.deep_view().subrange(self.next as int, self.fields.len() as int)
    }

    pub closed spec fn wf(&self) -> bool {
        self.next <= self.fields.len()
    }

    /// A message holding the given fields, none consumed.
    pub fn new(fields: Vec<Vec<u8>>) -> (r: WireMessage)
        ensures
            r.wf(),
            r@ == fields.deep_view(),
    {
        let r = WireMessage { fields, next: 0 };
        assert(r@ =~= r.fields.deep_view());
        r
    }

    /// Whether every field has been consumed.
    pub fn at_end(&self) -> (r: bool)
        requires
            self.wf(),
        ensures
            r == (self@.len() == 0),
    {
        self.next == self.fields.len()
    }

    /// Consumes and returns the next field, or `None` when none is left.
    pub fn read_field(&mut self) -> (r: Option<Vec<u8>>)
        requires
            old(self).wf(),
        ensures
            final(self).wf(),
            old(self)@.len() == 0 ==> (r is None && final(self)@ == old(self)@),
            old(self)@.len() > 0 ==> (r matches Some(f) && f@ == old(self)@[0]
                && final(self)@ == old(self)@.drop_first()),
    {
        if self.next == self.fields.len() {
            None
        } else {
            let f = self.fields[self.next].clone();
            self.next = self.next + 1;
            proof {
                assert(self@ =~= old(self)@.drop_first());
            }
            Some(f)
        }
    }

    /// Consumes the next field as text.
    pub fn read_field_as_string(&mut self) -> (r: Result<Option<String>, SessionError>)
        requires
            old(self).wf(),
        ensures
            final(self).wf(),
            old(self)@.len() == 0 ==> (r matches Ok(None) && final(self)@ == old(self)@),
            old(self)@.len() > 0 ==> final(self)@ == old(self)@.drop_first() && match text_of(
                old(self)@[0],
            ) {
                Some(t) => r matches Ok(Some(s)) && s@ == t,
                None => r matches Err(SessionError::InvalidText),
            },
    {
        match self.read_field() {
            None => Ok(None),
            Some(f) => match string_from_utf8(f) {
                Some(s) => Ok(Some(s)),
                None => Err(SessionError::InvalidText),
            },
        }
    }

    /// Consumes every remaining field.
    pub fn ignore_rest(&mut self)
        requires
            old(self).wf(),
        ensures
            final(self).wf(),
            final(self)@ == Seq::<Seq<u8>>::empty(),
    {
        self.next = self.fields.len();
        assert(self@ =~= Seq::<Seq<u8>>::empty());
    }
}

} // verus!
