//! Erasure of a typed handler into the uniform shape that the trampoline
//! calls: raw payload in, encoded output or error text out.

use crate::buffer::{error_buffer_bytes, fits_boundary, nul_terminated};
use crate::trampoline::{completion, outcome_text};
use vstd::prelude::*;
use vstd::utf8::*;

verus! {

/// Whether `out` is an outcome of erasing `handler` between `decode` and
/// `encode` on `input`: a decode failure is reported as it came and the
/// handler is never run; otherwise the handler's output is encoded.
pub open spec fn erased_outcome<I, O, D, H, E>(
    decode: D,
    handler: H,
    encode: E,
    input: &[u8],
    out: Result<String, String>,
) -> bool where
    D: Fn(&[u8]) -> Result<I, String>,
    H: Fn(I) -> O,
    E: Fn(&O) -> Result<String, String>,
 {
    exists|decoded: Result<I, String>|
        decode.ensures((input,), decoded) && match decoded {
            Ok(obj_in) => exists|obj_out: O|
                handler.ensures((obj_in,), obj_out) && encode.ensures((&obj_out,), out),
            Err(e) => out == Err::<String, String>(e),
        }
}

/// Runs one erased call: decodes `input`, hands the value to `handler` and
/// encodes what it returns; a decode or encode failure becomes the error text.
pub fn call_erased<I, O, D, H, E>(decode: &D, handler: &H, encode: &E, input: &[u8]) -> (r: Result<
    String,
    String,
>) where
    D: Fn(&[u8]) -> Result<I, String>,
    H: Fn(I) -> O,
    E: Fn(&O) -> Result<String, String>,

    requires
        decode.requires((input,)),
        forall|obj_in: I| handler.requires((obj_in,)),
        forall|obj_out: &O| encode.requires((obj_out,)),
    ensures
        erased_outcome(*decode, *handler, *encode, input, r),
{
    let decoded = decode(input);
    match decoded {
        Ok(obj_in) => {
            let ghost v = obj_in;
            let obj_out = handler(obj_in);
            let r = encode(&obj_out);
            assert(handler.ensures((v,), obj_out) && encode.ensures((&obj_out,), r));
            r
        },
        Err(e) => Err(e),
    }
}

/// A call whose input decodes to `obj_in`, whose handler maps it to
/// `obj_out` and whose output encodes to `text` hands the host exactly that
/// text, with its length, and no error.
pub proof fn lemma_typed_call_succeeds<I, O, D, H, E>(
    decode: D,
    handler: H,
    encode: E,
    input: &[u8],
    obj_in: I,
    obj_out: O,
    text: String,
    out: Result<String, String>,
) where
    D: Fn(&[u8]) -> Result<I, String>,
    H: Fn(I) -> O,
    E: Fn(&O) -> Result<String, String>,

    requires
        erased_outcome(decode, handler, encode, input, out),
        forall|d: Result<I, String>| decode.ensures((input,), d) ==> d == Ok::<I, String>(obj_in),
        forall|o: O| handler.ensures((obj_in,), o) ==> o == obj_out,
        forall|s: Result<String, String>|
            encode.ensures((&obj_out,), s) ==> s == Ok::<String, String>(text),
        fits_boundary(text@),
    ensures
        completion(outcome_text(out)) == Ok::<(Seq<u8>, i32), Seq<u8>>(
            (nul_terminated(text@), encode_utf8(text@).len() as i32),
        ),
{
}

/// A payload that fails to decode never reaches the handler's output: the
/// host receives an error buffer with the decoder's message.
pub proof fn lemma_decode_failure_is_reported<I, O, D, H, E>(
    decode: D,
    handler: H,
    encode: E,
    input: &[u8],
    out: Result<String, String>,
) where
    D: Fn(&[u8]) -> Result<I, String>,
    H: Fn(I) -> O,
    E: Fn(&O) -> Result<String, String>,

    requires
        erased_outcome(decode, handler, encode, input, out),
        forall|d: Result<I, String>| decode.ensures((input,), d) ==> d is Err,
    ensures
        exists|e: String|
            decode.ensures((input,), Err::<I, String>(e)) && completion(outcome_text(out))
                == Err::<(Seq<u8>, i32), Seq<u8>>(error_buffer_bytes(e@)),
{
    let decoded = choose|decoded: Result<I, String>|
        decode.ensures((input,), decoded) && match decoded {
            Ok(obj_in) => exists|obj_out: O|
                handler.ensures((obj_in,), obj_out) && encode.ensures((&obj_out,), out),
            Err(e) => out == Err::<String, String>(e),
        };
    assert(decoded is Err);
    let e = decoded->Err_0;
    assert(out == Err::<String, String>(e));
    assert(decode.ensures((input,), Err::<I, String>(e)) && completion(outcome_text(out))
        == Err::<(Seq<u8>, i32), Seq<u8>>(error_buffer_bytes(e@)));
}

} // verus!
