//! What the native side decides around the host's registration primitive.

use crate::error_channel::{convert_wilton_error, host_error_text};
use vstd::prelude::*;
use vstd::utf8::encode_utf8;

verus! {

/// Error reported for a call name whose length the host cannot take.
pub const NAME_TOO_LONG: &'static str = "call name is too long";

/// The length of a call name as the host's registration primitive takes it,
/// a C `int`, or an error for a name too long to pass.
pub fn call_name_length(name: &str) -> (r: Result<i32, String>)
    ensures
        r is Ok <==> encode_utf8(name@).len() <= i32::MAX,
        r is Ok ==> r->Ok_0 as int == encode_utf8(name@).len(),
        r is Err ==> r->Err_0@ == NAME_TOO_LONG@,
{
    let n = name.as_bytes().len();
    if n <= 2147483647 {
        Ok(n as i32)
    } else {
        Err(NAME_TOO_LONG.to_string())
    }
}

/// The outcome of a registration, from the error buffer that the host's
/// registration primitive returned (`None` for null).
pub fn registration_result(err: Option<Vec<u8>>) -> (r: Result<(), String>)
    ensures
        err is None <==> r is Ok,
        r is Err ==> r->Err_0@ == host_error_text(Some(err.unwrap()@)),
{
    match err {
        None => Ok(()),
        Some(bytes) => Err(convert_wilton_error(Some(bytes))),
    }
}

} // verus!
