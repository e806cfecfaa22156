//! The response accumulator: status line, headers and body of one transfer,
//! collected chunk by chunk as the transport delivers them.

use vstd::prelude::*;
use vstd::utf8::{decode_utf8, valid_utf8};

use crate::header::{header_in, parse_header, Header, HeaderView};
use crate::status::{as_signed, to_signed};
use crate::text::from_utf8;

verus! {

/// The accumulator of one transfer: what its callbacks have collected so far.
///
/// The first chunk of header bytes is the status line; every later one is a
/// header. Body bytes are kept in the order in which they came.
pub struct Response {
    started: bool,
    code: u32,
    status: String,
    headers: Vec<Header>,
    body: Vec<u8>,
}

/// What a [`Response`] holds.
pub struct ResponseView {
    /// Whether the status line has been received.
    pub started: bool,
    pub code: u32,
    pub status: Seq<char>,
    pub headers: Seq<HeaderView>,
    pub body: Seq<u8>,
}

impl ResponseView {
    /// The accumulator of a transfer of which nothing has arrived yet.
    pub open spec fn empty() -> ResponseView {
        ResponseView { started: false, code: 0, status: Seq::empty(), headers: Seq::empty(), body: Seq::empty() }
    }

    /// Before the status line has come, nothing else is held.
    pub open spec fn wf(self) -> bool {
        !self.started ==> self.status.len() == 0 && self.headers.len() == 0
    }

    /// Whether the transfer goes on after this chunk of header bytes: only a
    /// status line that is not UTF-8 stops it.
    pub open spec fn accepts(self, chunk: Seq<u8>) -> bool {
        self.started || valid_utf8(chunk)
    }

    /// The accumulator after one more chunk of header bytes.
    pub open spec fn receive_header(self, chunk: Seq<u8>) -> ResponseView {
        if !self.started {
            if valid_utf8(chunk) {
                ResponseView { started: true, status: decode_utf8(chunk), ..self }
            } else {
                self
            }
        } else {
            match header_in(chunk) {
                Some(header) => ResponseView { headers: self.headers.push(header), ..self },
                None => self,
            }
        }
    }

    /// The accumulator after one more chunk of body bytes.
    pub open spec fn receive_body(self, chunk: Seq<u8>) -> ResponseView {
        ResponseView { body: self.body + chunk, ..self }
    }

    /// The accumulator after the transfer has ended with this status code, or
    /// with none to be had.
    pub open spec fn complete(self, code: Option<u32>) -> ResponseView {
        ResponseView {
            code: match code {
                Some(code) => code,
                None => 0,
            },
            ..self
        }
    }
}

impl View for Response {
    type V = ResponseView;

    closed spec fn view(&self) -> ResponseView {
        ResponseView {
            started: self.started,
            code: self.code,
            status: self.status@,
            headers: self.headers@.map_values(|h: Header| h@),
            body: self.body@,
        }
    }
}

impl Response {
    /// An accumulator for a transfer that is about to start.
    pub fn new() -> (response: Response)
        ensures
            response@ == ResponseView::empty(),
    {
        let response = Response {
            started: false,
            code: 0,
            status: String::new(),
            headers: Vec::new(),
            body: Vec::new(),
        };
        assert(response@.headers =~= Seq::empty());
        response
    }

    /// Takes one chunk of header bytes from the transport. The result says
    /// whether the transfer is to go on.
    pub fn receive_header(&mut self, chunk: &[u8]) -> (proceed: bool)
        ensures
            final(self)@ == old(self)@.receive_header(chunk@),
            proceed == old(self)@.accepts(chunk@),
    {
        if !self.started {
            match from_utf8(chunk) {
                Some(status) => {
                    self.started = true;
                    self.status = status.to_owned();
                    true
                },
                None => false,
            }
        } else {
            match parse_header(chunk) {
                Some(header) => {
                    self.headers.push(header);
                    assert(self@.headers =~= old(self)@.headers.push(header@));
                },
                None => {},
            }
            true
        }
    }

    /// Takes one chunk of body bytes from the transport. The result is the
    /// number of bytes consumed: always the whole chunk.
    pub fn receive_body(&mut self, chunk: &[u8]) -> (consumed: usize)
        ensures
            final(self)@ == old(self)@.receive_body(chunk@),
            consumed == chunk@.len(),
    {
        self.body.extend_from_slice(chunk);
        assert(self@.body =~= old(self)@.body + chunk@);
        chunk.len()
    }

    /// Records the status code with which the transfer ended; `0` where the
    /// transport has none to give.
    pub fn complete(&mut self, code: Option<u32>)
        ensures
            final(self)@ == old(self)@.complete(code),
    {
        self.code = match code {
            Some(code) => code,
            None => 0,
        };
    }

    /// The status line, as it came; empty until it has come.
    pub fn status(&self) -> (status: &str)
        ensures
            status@ == self@.status,
    {
        self.status.as_str()
    }

    /// The headers collected so far, in the order of arrival.
    pub fn headers(&self) -> (headers: &[Header])
        ensures
            headers@.map_values(|h: Header| h@) == self@.headers,
    {
        self.headers.as_slice()
    }
}

/// The status code of a finished response, as a signed number.
pub fn liberty_http_response_code(response: &Response) -> (code: i32)
    ensures
        code == as_signed(response@.code),
{
    to_signed(response.code)
}

/// The body of a response: every byte received, in the order of arrival.
pub fn liberty_http_response_body(response: &Response) -> (body: &[u8])
    ensures
        body@ == response@.body,
{
    response.body.as_slice()
}

/// The number of bytes in the body of a response.
pub fn liberty_http_response_body_size(response: &Response) -> (size: usize)
    ensures
        size == response@.body.len(),
{
    response.body.len()
}

} // verus!
