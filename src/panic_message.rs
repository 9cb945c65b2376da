//! Diagnostic text of a fault intercepted at the boundary.

use vstd::prelude::*;

verus! {

/// Text reported for a fault whose payload carries no string.
pub const PANIC_PLACEHOLDER: &'static str = "()";

/// What an intercepted fault carried, as far as its message goes.
pub enum PanicPayload {
    /// A string slice payload, as `panic!("literal")` gives.
    Str(&'static str),
    /// An owned string payload, as a formatted `panic!` gives.
    Owned(String),
    /// A payload of any other type.
    Opaque,
}

/// The diagnostic text of a fault: its string payload, or the placeholder.
pub open spec fn panic_text(payload: PanicPayload) -> Seq<char> {
    match payload {
        PanicPayload::Str(s) => s@,
        PanicPayload::Owned(s) => s@,
        PanicPayload::Opaque => PANIC_PLACEHOLDER@,
    }
}

/// Extracts the diagnostic text of a fault, preferring a string payload and
/// falling back to a fixed placeholder.
pub fn panicmsg<'a>(e: &'a PanicPayload) -> (r: &'a str)
    ensures
        r@ == panic_text(*e),
{
    match e {
        PanicPayload::Str(st) => st,
        PanicPayload::Owned(stw) => stw.as_str(),
        PanicPayload::Opaque => PANIC_PLACEHOLDER,
    }
}

} // verus!
