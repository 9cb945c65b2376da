//! Buffers that cross the boundary: UTF-8 text followed by a NUL byte.

use vstd::prelude::*;
use vstd::utf8::*;

verus! {

/// Largest size, in bytes, of a buffer handed to the host: the host's
/// allocator and length parameters are C `int`s.
pub const MAX_BUFFER_LEN: usize = 2147483647;

/// The bytes of a boundary buffer holding `text`: its UTF-8 encoding, then a NUL.
pub open spec fn nul_terminated(text: Seq<char>) -> Seq<u8> {
    encode_utf8(text).push(0u8)
}

/// Whether a buffer holding `text` and its terminating NUL fits the boundary.
pub open spec fn fits_boundary(text: Seq<char>) -> bool {
    encode_utf8(text).len() < MAX_BUFFER_LEN
}

/// Copies the bytes of `data` into a new buffer and terminates it with a NUL,
/// so that the host may read it either by length or up to the NUL.
pub fn copy_to_wilton_bufer(data: &str) -> (r: Vec<u8>)
    ensures
        r@ == nul_terminated(data@),
{
    let bytes = data.as_bytes();
    let mut r: Vec<u8> = Vec::new();
    let mut i: usize = 0;
    while i < bytes.len()
        invariant
            i <= bytes@.len(),
            bytes@ == encode_utf8(data@),
            r@ == bytes@.subrange(0, i as int),
        decreases bytes@.len() - i,
    {
        r.push(bytes[i]);
        i = i + 1;
    }
    r.push(0u8);
    assert(bytes@.subrange(0, bytes@.len() as int) == bytes@);
    r
}

} // verus!

verus! {

/// Text placed in an error buffer in place of a message too long for the boundary.
pub const OVERSIZED_MESSAGE: &'static str = "message exceeds the boundary buffer limit";

/// The bytes of the error buffer that reports `text`.
pub open spec fn error_buffer_bytes(text: Seq<char>) -> Seq<u8> {
    if fits_boundary(text) {
        nul_terminated(text)
    } else {
        nul_terminated(OVERSIZED_MESSAGE@)
    }
}

/// The fallback message for oversized texts itself fits a boundary buffer.
pub proof fn lemma_oversized_message_fits()
    ensures
        fits_boundary(OVERSIZED_MESSAGE@),
{
    reveal_strlit("message exceeds the boundary buffer limit");
    assert(is_ascii_chars(OVERSIZED_MESSAGE@));
    is_ascii_chars_encode_utf8(OVERSIZED_MESSAGE@);
}

/// Builds the error buffer that reports `text`; a text too long for the
/// boundary is reported as `OVERSIZED_MESSAGE`.
pub fn error_buffer(text: &str) -> (r: Vec<u8>)
    ensures
        r@ == error_buffer_bytes(text@),
        r@.len() <= MAX_BUFFER_LEN,
{
    if text.as_bytes().len() < MAX_BUFFER_LEN {
        copy_to_wilton_bufer(text)
    } else {
        proof {
            lemma_oversized_message_fits();
        }
        copy_to_wilton_bufer(OVERSIZED_MESSAGE)
    }
}

} // verus!
