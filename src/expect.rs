use vstd::prelude::*;

use crate::error::SessionError;
use crate::wire::WireMessage;

verus! {

/// Turns an absent value into an expectation failure; a failure of the
/// read itself is passed on untouched.
pub fn expect<T>(field: Result<Option<T>, SessionError>) -> (r: Result<T, SessionError>)
    ensures
        match field {
            Ok(Some(v)) => r == Ok::<T, SessionError>(v),
            Ok(None) => r == Err::<T, SessionError>(SessionError::ExpectationFailed),
            Err(e) => r == Err::<T, SessionError>(e),
        },
{
    match field {
        Ok(Some(v)) => Ok(v),
        Ok(None) => Err(SessionError::ExpectationFailed),
        Err(e) => Err(e),
    }
}

/// Succeeds exactly when the message has no field left.
pub fn expect_end(message: &WireMessage) -> (r: Result<(), SessionError>)
    requires
        message.wf(),
    ensures
        message@.len() == 0 ==> r is Ok,
        message@.len() != 0 ==> r matches Err(SessionError::ExpectationFailed),
{
    if message.at_end() {
        Ok(())
    } else {
        Err(SessionError::ExpectationFailed)
    }
}

/// Whether two byte sequences are equal.
pub(crate) fn bytes_equal(a: &[u8], b: &[u8]) -> (r: bool)
    ensures
        r == (a@ == b@),
{
    if a.len() != b.len() {
        return false;
    }
    let mut i: usize = 0;
    while i < a.len()
        invariant
            a@.len() == b@.len(),
            0 <= i <= a@.len(),
            a@.subrange(0, i as int) == b@.subrange(0, i as int),
        decreases a@.len() - i,
    {
        if a[i] != b[i] {
            assert(a@[i as int] != b@[i as int]);
            return false;
        }
        assert(a@.subrange(0, i + 1) =~= a@.subrange(0, i as int).push(a@[i as int]));
        assert(b@.subrange(0, i + 1) =~= b@.subrange(0, i as int).push(b@[i as int]));
        i = i + 1;
    }
    assert(a@ =~= a@.subrange(0, i as int));
    assert(b@ =~= b@.subrange(0, i as int));
    true
}

/// Consumes one field and succeeds exactly when it equals `expected`; an
/// absent or different field is an expectation failure.
pub fn expect_field(message: &mut WireMessage, expected: &[u8]) -> (r: Result<(), SessionError>)
    requires
        old(message).wf(),
    ensures
        final(message).wf(),
        old(message)@.len() == 0 ==> final(message)@ == old(message)@,
        old(message)@.len() > 0 ==> final(message)@ == old(message)@.drop_first(),
        r is Ok <==> (old(message)@.len() > 0 && old(message)@[0] == expected@),
        r is Err ==> r matches Err(SessionError::ExpectationFailed),
{
    match message.read_field() {
        Some(f) => {
            if bytes_equal(f.as_slice(), expected) {
                Ok(())
            } else {
                Err(SessionError::ExpectationFailed)
            }
        },
        None => Err(SessionError::ExpectationFailed),
    }
}

} // verus!
