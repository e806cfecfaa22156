//! Decoding of bytes as text.

use vstd::prelude::*;
use vstd::utf8::{decode_utf8, valid_utf8};

verus! {

/// Reads `bytes` as UTF-8 text, if they are well-formed UTF-8.
///
/// Trusted: this is `core::str::from_utf8`. The standard library documents that it
/// succeeds exactly on well-formed UTF-8 and that the text it returns is made of
/// the very bytes it was given; neither is proved here.
#[verifier::external_body]
pub(crate) fn from_utf8(bytes: &[u8]) -> (text: Option<&str>)
    ensures
        text is Some <==> valid_utf8(bytes@),
        text matches Some(s) ==> s@ == decode_utf8(bytes@),
{
    core::str::from_utf8(bytes).ok()
}

} // verus!
