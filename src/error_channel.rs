//! The boundary's error channel: no error is signalled by a null return,
//! an error by a returned buffer holding its message.

use crate::buffer::{error_buffer, error_buffer_bytes, fits_boundary, MAX_BUFFER_LEN};
use vstd::prelude::*;
use vstd::utf8::*;

verus! {

/// Message reported when the host signals an error whose text is not UTF-8.
pub const UNKNOWN_ERROR: &'static str = "Unknown error";

/// Message reported when the host is asked for an error text it never gave.
pub const NO_ERROR: &'static str = "No error";

/// Relies on `String::from_utf8`: it succeeds exactly on valid UTF-8, and the
/// string then holds the characters that the bytes encode.
#[verifier::external_body]
fn utf8_to_string(bytes: Vec<u8>) -> (r: Option<String>)
    ensures
        r is Some <==> valid_utf8(bytes@),
        r is Some ==> r.unwrap()@ == decode_utf8(bytes@),
{
    String::from_utf8(bytes).ok()
}

/// The text that an error buffer from the host reports: `None` stands for a
/// null buffer, `Some(b)` for the bytes of a buffer before its NUL.
pub open spec fn host_error_text(err: Option<Seq<u8>>) -> Seq<char> {
    match err {
        None => NO_ERROR@,
        Some(b) => if valid_utf8(b) {
            decode_utf8(b)
        } else {
            UNKNOWN_ERROR@
        },
    }
}

/// Builds the value that a boundary function returns on the error channel:
/// `None` (null) for success, or a buffer holding the message.
pub fn create_wilton_error(error_opt: Option<String>) -> (r: Option<Vec<u8>>)
    ensures
        error_opt is None <==> r is None,
        error_opt is Some ==> r.unwrap()@ == error_buffer_bytes(error_opt.unwrap()@),
        r is Some ==> r.unwrap()@.len() <= MAX_BUFFER_LEN,
{
    match error_opt {
        Some(msg) => Some(error_buffer(msg.as_str())),
        None => None,
    }
}

/// Reads the message of an error buffer that the host returned; `err` holds
/// the bytes before its NUL, or is `None` for a null buffer.
pub fn convert_wilton_error(err: Option<Vec<u8>>) -> (r: String)
    ensures
        r@ == host_error_text(match err {
            Some(b) => Some(b@),
            None => None,
        }),
{
    match err {
        Some(bytes) => match utf8_to_string(bytes) {
            Some(text) => text,
            None => UNKNOWN_ERROR.to_string(),
        },
        None => NO_ERROR.to_string(),
    }
}

/// An error message that the host returns, such as its conflict message for
/// a duplicate call name, is read back verbatim.
pub proof fn lemma_host_message_verbatim(msg: Seq<char>)
    ensures
        host_error_text(Some(encode_utf8(msg))) == msg,
{
    encode_utf8_valid_utf8(msg);
    encode_utf8_decode_utf8(msg);
}

/// A message handed to the host on the error channel reads back, up to its
/// NUL, as the same message.
pub proof fn lemma_error_buffer_round_trip(msg: Seq<char>)
    requires
        fits_boundary(msg),
    ensures
        host_error_text(Some(error_buffer_bytes(msg).drop_last())) == msg,
{
    assert(error_buffer_bytes(msg).drop_last() == encode_utf8(msg));
    lemma_host_message_verbatim(msg);
}

} // verus!
