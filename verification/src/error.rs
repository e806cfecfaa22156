//! The error descriptor that a failed transfer's completion notification gets.

use vstd::prelude::*;
use vstd::utf8::encode_utf8;

verus! {

/// Why a transfer failed, in the transport's words, where it had any. The
/// text is borrowed: it lives as long as the notification that hands it out.
#[derive(Debug)]
pub struct Error<'a> {
    desc: Option<&'a str>,
}

impl<'a> View for Error<'a> {
    type V = Option<Seq<char>>;

    closed spec fn view(&self) -> Option<Seq<char>> {
        match self.desc {
            Some(text) => Some(text@),
            None => None,
        }
    }
}

/// The bytes that an error hands out: its description in UTF-8, and nothing
/// where it has none.
pub open spec fn extra_of(description: Option<Seq<char>>) -> Seq<u8> {
    match description {
        Some(text) => encode_utf8(text),
        None => Seq::empty(),
    }
}

impl<'a> Error<'a> {
    /// An error with this description, or with none.
    pub fn new(desc: Option<&'a str>) -> (error: Error<'a>)
        ensures
            error@ == match desc {
                Some(text) => Some(text@),
                None => None,
            },
    {
        Error { desc }
    }
}

/// The description of an error as bytes; empty where it has none.
pub fn liberty_error_extra<'a>(error: &Error<'a>) -> (extra: &'a [u8])
    ensures
        extra@ == extra_of(error@),
{
    match error.desc {
        Some(text) => text.as_bytes(),
        None => {
            proof {
                reveal_strlit("");
            }
            assert(""@ =~= Seq::<char>::empty());
            "".as_bytes()
        },
    }
}

/// The number of bytes in the description of an error; `0` where it has none.
pub fn liberty_error_extra_size(error: &Error) -> (size: usize)
    ensures
        size == extra_of(error@).len(),
{
    liberty_error_extra(error).len()
}

} // verus!
