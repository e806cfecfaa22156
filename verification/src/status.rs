//! Integer statuses: how a transport code becomes the signed number that a
//! caller is given.

use vstd::prelude::*;

verus! {

/// The status of a URL that cannot be read as text: the transport's code for a
/// malformed URL.
pub const URL_MALFORMAT: i32 = 3;

/// The status of text that holds a NUL character: the transport's code for
/// text that it cannot turn into a C string.
pub const CONVERSION_FAILED: i32 = 75;

/// An unsigned 32-bit code as a signed status: the same 32 bits, so every code
/// below 2^31 is kept as it is.
pub open spec fn as_signed(code: u32) -> i32 {
    if code <= 0x7fff_ffff {
        code as i32
    } else {
        (code - 0x1_0000_0000) as i32
    }
}

/// The signed status that holds the bits of `code`.
pub fn to_signed(code: u32) -> (status: i32)
    ensures
        status == as_signed(code),
{
    assert(code as i32 == as_signed(code)) by (bit_vector);
    code as i32
}

/// The status that stands for the transport's answer to a configuration call.
pub open spec fn status_spec(outcome: Result<(), u32>) -> i32 {
    match outcome {
        Ok(_) => 0,
        Err(code) => as_signed(code),
    }
}

/// The status of a configuration call, given what the transport answered: `0`
/// if it accepted, its error code if it did not.
pub fn status_of(outcome: Result<(), u32>) -> (status: i32)
    ensures
        status == status_spec(outcome),
{
    match outcome {
        Ok(_) => 0,
        Err(code) => to_signed(code),
    }
}

/// Where the transport makes errors only of codes other than zero, the status
/// is `0` exactly when it accepted.
pub proof fn status_is_zero_on_success_only(outcome: Result<(), u32>)
    requires
        outcome matches Err(code) ==> code != 0,
    ensures
        status_spec(outcome) == 0 <==> outcome is Ok,
{
}

} // verus!
