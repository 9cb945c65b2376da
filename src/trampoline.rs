//! The one entry point through which the host invokes every registered call:
//! it picks the payload, runs the erased handler and turns its outcome into
//! either an output buffer or an error buffer, never both.

use crate::buffer::{
    copy_to_wilton_bufer, error_buffer, error_buffer_bytes, fits_boundary,
    lemma_oversized_message_fits, nul_terminated, MAX_BUFFER_LEN, OVERSIZED_MESSAGE,
};
use crate::panic_message::{panic_text, panicmsg, PanicPayload};
use vstd::prelude::*;
use vstd::slice::slice_to_vec;
use vstd::utf8::*;

verus! {

/// The payload used when the host passes no input: an empty JSON object.
pub const EMPTY_JSON_INPUT: &'static str = "{}";

/// The bytes of `{}`.
pub open spec fn empty_object_bytes() -> Seq<u8> {
    seq![123u8, 125u8]
}

/// The input as the host passed it: `None` for a null pointer.
pub open spec fn input_view(json_in: Option<&[u8]>) -> Option<Seq<u8>> {
    match json_in {
        Some(b) => Some(b@),
        None => None,
    }
}

/// The payload that a call receives: absent or empty input counts as `{}`.
pub open spec fn payload_of(json_in: Option<Seq<u8>>) -> Seq<u8> {
    match json_in {
        Some(b) => if b.len() > 0 {
            b
        } else {
            empty_object_bytes()
        },
        None => empty_object_bytes(),
    }
}

/// The constant payload is the two bytes of `{}`.
proof fn lemma_empty_json_input_bytes()
    ensures
        encode_utf8(EMPTY_JSON_INPUT@) == empty_object_bytes(),
{
    reveal_strlit("{}");
    assert(is_ascii_chars(EMPTY_JSON_INPUT@));
    is_ascii_chars_encode_utf8(EMPTY_JSON_INPUT@);
    assert(encode_utf8(EMPTY_JSON_INPUT@) =~= empty_object_bytes());
}

/// How many input bytes the host passed, from whether its pointer is non-null
/// and its signed length; `None` where there is no input to read.
pub fn input_length(present: bool, len: i32) -> (r: Option<usize>)
    ensures
        r == (if present && len > 0 {
            Some(len as usize)
        } else {
            None
        }),
{
    if present && len > 0 {
        Some(len as usize)
    } else {
        None
    }
}

/// The payload to decode: the input bytes, or `{}` where there are none.
pub fn select_input(json_in: Option<&[u8]>) -> (r: Vec<u8>)
    ensures
        r@ == payload_of(input_view(json_in)),
{
    proof {
        lemma_empty_json_input_bytes();
    }
    match json_in {
        Some(b) => if b.len() > 0 {
            slice_to_vec(b)
        } else {
            slice_to_vec(EMPTY_JSON_INPUT.as_bytes())
        },
        None => slice_to_vec(EMPTY_JSON_INPUT.as_bytes()),
    }
}

/// What a call hands back to the host: on success the output buffer and the
/// length of its text, on failure the error buffer.
pub enum BoundaryResult {
    Success { output: Vec<u8>, len: i32 },
    Failure { error: Vec<u8> },
}

impl View for BoundaryResult {
    type V = Result<(Seq<u8>, i32), Seq<u8>>;

    open spec fn view(&self) -> Self::V {
        match self {
            BoundaryResult::Success { output, len } => Ok((output@, *len)),
            BoundaryResult::Failure { error } => Err(error@),
        }
    }
}

impl BoundaryResult {
    /// Every buffer fits the host's allocator, and a reported length is that
    /// of the output before its NUL.
    pub open spec fn wf(&self) -> bool {
        match self {
            BoundaryResult::Success { output, len } => output@.len() <= MAX_BUFFER_LEN
                && output@.len() == *len + 1,
            BoundaryResult::Failure { error } => error@.len() <= MAX_BUFFER_LEN,
        }
    }
}

/// The outcome of an erased handler, as texts.
pub open spec fn outcome_text(out: Result<String, String>) -> Result<Seq<char>, Seq<char>> {
    match out {
        Ok(s) => Ok(s@),
        Err(e) => Err(e@),
    }
}

/// What the host receives for a handler outcome: the output text as a
/// buffer with its length, or the error text as an error buffer.
pub open spec fn completion(out: Result<Seq<char>, Seq<char>>) -> Result<(Seq<u8>, i32), Seq<u8>> {
    match out {
        Ok(s) => if fits_boundary(s) {
            Ok((nul_terminated(s), encode_utf8(s).len() as i32))
        } else {
            Err(nul_terminated(OVERSIZED_MESSAGE@))
        },
        Err(e) => Err(error_buffer_bytes(e)),
    }
}

/// Turns the outcome of an erased handler into what the host receives.
pub fn complete_call(out: Result<String, String>) -> (r: BoundaryResult)
    ensures
        r@ == completion(outcome_text(out)),
        r.wf(),
{
    match out {
        Ok(res) => {
            let n = res.as_str().as_bytes().len();
            if n < MAX_BUFFER_LEN {
                BoundaryResult::Success { output: copy_to_wilton_bufer(res.as_str()), len: n as i32 }
            } else {
                proof {
                    lemma_oversized_message_fits();
                }
                BoundaryResult::Failure { error: error_buffer(OVERSIZED_MESSAGE) }
            }
        },
        Err(e) => BoundaryResult::Failure { error: error_buffer(e.as_str()) },
    }
}

/// What the host receives when a call faulted: an error buffer with the
/// fault's diagnostic text.
pub fn fault_result(e: &PanicPayload) -> (r: BoundaryResult)
    ensures
        r@ == Err::<(Seq<u8>, i32), Seq<u8>>(error_buffer_bytes(panic_text(*e))),
        r.wf(),
{
    BoundaryResult::Failure { error: error_buffer(panicmsg(e)) }
}

/// Runs an erased handler on the payload of a host invocation and turns its
/// outcome into what the host receives.
pub fn dispatch<F>(handler: &F, json_in: Option<&[u8]>) -> (r: BoundaryResult) where
    F: Fn(&[u8]) -> Result<String, String>,

    requires
        forall|b: &[u8]| handler.requires((b,)),
    ensures
        exists|b: &[u8], out: Result<String, String>|
            b@ == payload_of(input_view(json_in)) && handler.ensures((b,), out) && r@
                == completion(outcome_text(out)),
        r.wf(),
{
    let payload = select_input(json_in);
    let b = payload.as_slice();
    let out = handler(b);
    let r = complete_call(out);
    assert(b@ == payload_of(input_view(json_in)) && handler.ensures((b,), out) && r@ == completion(
        outcome_text(out),
    ));
    r
}

/// A null input and an empty input give a call the same payload as the
/// input `{}`.
pub proof fn lemma_absent_input_is_empty_object(empty: Seq<u8>)
    requires
        empty.len() == 0,
    ensures
        payload_of(None) == empty_object_bytes(),
        payload_of(Some(empty)) == empty_object_bytes(),
        payload_of(Some(empty_object_bytes())) == empty_object_bytes(),
{
}

} // verus!
