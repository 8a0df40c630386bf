use vstd::prelude::*;
use vstd::slice::slice_to_vec;
use vstd::string::StringSliceAdditionalSpecFns;
use vstd::utf8::encode_utf8;

use crate::decode::shout_name;
use crate::error::SessionError;

verus! {

/// The bytes that plaintalk writes for one message with the given fields,
/// newline included.
pub uninterp spec fn plaintalk_frame(fields: Seq<Seq<u8>>) -> Seq<u8>;

/// Relies on plaintalk's `PushGenerator::new` over an in-memory buffer and
/// its `write_message`: what is written depends on the fields alone.
#[verifier::external_body]
fn frame_message(fields: &Vec<Vec<u8>>) -> (r: Result<Vec<u8>, plaintalk::pushgenerator::Error>)
    ensures
        r matches Ok(b) ==> b@ == plaintalk_frame(fields.deep_view()),
{
    let refs: Vec<&[u8]> = fields.iter().map(|f| f.as_slice()).collect();
    let mut out: Vec<u8> = Vec::new();
    plaintalk::pushgenerator::PushGenerator::new(&mut out).write_message(&refs)?;
    Ok(out)
}

/// The fields of the authentication request: `- auth unix`.
pub open spec fn auth_fields() -> Seq<Seq<u8>> {
    seq![seq![45u8], seq![97u8, 117u8, 116u8, 104u8], seq![117u8, 110u8, 105u8, 120u8]]
}

/// Message id of a request that expects no reply: `!`.
pub open spec fn notice_id() -> Seq<u8> {
    seq![33u8]
}

/// The fields of an outgoing shout of `line`: `! shout <line>`.
pub open spec fn shout_fields(line: Seq<char>) -> Seq<Seq<u8>> {
    seq![notice_id(), shout_name(), encode_utf8(line)]
}

/// The authentication request sent once when a session starts.
pub fn auth_request() -> (r: Vec<Vec<u8>>)
    ensures
        r.deep_view() == auth_fields(),
{
    let id = vec![45u8];
    let verb = vec![97u8, 117u8, 116u8, 104u8];
    let method = vec![117u8, 110u8, 105u8, 120u8];
    assert(id@ =~= auth_fields()[0]);
    assert(verb@ =~= auth_fields()[1]);
    assert(method@ =~= auth_fields()[2]);
    let mut r: Vec<Vec<u8>> = Vec::new();
    r.push(id);
    r.push(verb);
    r.push(method);
    assert(r.deep_view()[0] =~= auth_fields()[0]);
    assert(r.deep_view()[1] =~= auth_fields()[1]);
    assert(r.deep_view()[2] =~= auth_fields()[2]);
    assert(r.deep_view() =~= auth_fields());
    r
}

/// The request that broadcasts one line of local input.
pub fn shout_request(line: &str) -> (r: Vec<Vec<u8>>)
    ensures
        r.deep_view() == shout_fields(line@),
{
    let text = slice_to_vec(line.as_bytes());
    let id = vec![33u8];
    let name = vec![115u8, 104u8, 111u8, 117u8, 116u8];
    assert(id@ =~= notice_id());
    assert(name@ =~= shout_name());
    let mut r: Vec<Vec<u8>> = Vec::new();
    r.push(id);
    r.push(name);
    r.push(text);
    assert(r.deep_view()[0] =~= shout_fields(line@)[0]);
    assert(r.deep_view()[1] =~= shout_fields(line@)[1]);
    assert(r.deep_view()[2] =~= shout_fields(line@)[2]);
    assert(r.deep_view() =~= shout_fields(line@));
    r
}

/// Frames one message for the wire; a failure of the generator is
/// reported as such.
pub fn encode_message(fields: &Vec<Vec<u8>>) -> (r: Result<Vec<u8>, SessionError>)
    ensures
        match r {
            Ok(b) => b@ == plaintalk_frame(fields.deep_view()),
            Err(e) => e is PushGenerator,
        },
{
    match frame_message(fields) {
        Ok(b) => Ok(b),
        Err(e) => Err(SessionError::PushGenerator(e)),
    }
}

} // verus!
