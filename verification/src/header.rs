//! Response headers: how a chunk of header bytes is split into a name and a
//! value.

use vstd::prelude::*;
use vstd::slice::{slice_subrange, slice_to_vec};
use vstd::utf8::{decode_utf8, valid_utf8};

use crate::text::from_utf8;

verus! {

/// The byte that parts a header's name from its value.
pub const COLON: u8 = 0x3a;

/// One response header: the name as text, the value as the raw bytes that
/// followed the colon.
#[derive(Debug)]
pub struct Header {
    pub name: String,
    pub value: Vec<u8>,
}

/// What a [`Header`] holds.
pub struct HeaderView {
    pub name: Seq<char>,
    pub value: Seq<u8>,
}

impl View for Header {
    type V = HeaderView;

    open spec fn view(&self) -> HeaderView {
        HeaderView { name: self.name@, value: self.value@ }
    }
}

/// `at` is the place of the first colon in `chunk`.
pub open spec fn first_colon(chunk: Seq<u8>, at: int) -> bool {
    &&& 0 <= at < chunk.len()
    &&& chunk[at] == COLON
    &&& forall|j: int| 0 <= j < at ==> chunk[j] != COLON
}

/// The header that a chunk of header bytes holds: the bytes before the first
/// colon, read as UTF-8, are its name; every byte after that colon is its
/// value. A chunk without a colon, or whose name is not UTF-8, holds none.
pub open spec fn header_in(chunk: Seq<u8>) -> Option<HeaderView> {
    if exists|at: int| first_colon(chunk, at) {
        let at = choose|at: int| first_colon(chunk, at);
        let name = chunk.subrange(0, at);
        if valid_utf8(name) {
            Some(HeaderView { name: decode_utf8(name), value: chunk.subrange(at + 1, chunk.len() as int) })
        } else {
            None
        }
    } else {
        None
    }
}

/// The place of the first colon in `chunk`, or the chunk's length if it has none.
fn find_colon(chunk: &[u8]) -> (at: usize)
    ensures
        at <= chunk@.len(),
        at < chunk@.len() ==> first_colon(chunk@, at as int),
        at == chunk@.len() ==> !chunk@.contains(COLON),
{
    let mut at: usize = 0;
    while at < chunk.len() && chunk[at] != COLON
        invariant
            at <= chunk@.len(),
            forall|j: int| 0 <= j < at ==> chunk@[j] != COLON,
        decreases chunk@.len() - at,
    {
        at += 1;
    }
    at
}

/// Splits a chunk of header bytes at its first colon into name and value.
pub fn parse_header(chunk: &[u8]) -> (header: Option<Header>)
    ensures
        header is Some <==> header_in(chunk@) is Some,
        header matches Some(h) ==> Some(h@) == header_in(chunk@),
{
    let at = find_colon(chunk);
    if at == chunk.len() {
        return None;
    }
    assert(first_colon(chunk@, at as int));
    assert(forall|k: int| first_colon(chunk@, k) ==> k == at);
    match from_utf8(slice_subrange(chunk, 0, at)) {
        Some(name) => Some(
            Header { name: name.to_owned(), value: slice_to_vec(slice_subrange(chunk, at + 1, chunk.len())) },
        ),
        None => None,
    }
}

} // verus!
