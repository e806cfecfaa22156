//! A request: a transport handle being configured, and the completion that is to
//! hear of the transfer's end.

use curl::easy::Easy;
use vstd::prelude::*;
use vstd::utf8::{decode_utf8, valid_utf8};

use crate::status::{status_of, CONVERSION_FAILED, URL_MALFORMAT};
use crate::text::from_utf8;
use crate::transport::{new_handle, set_get, set_post, set_post_fields, set_url};

verus! {

/// One HTTP request. `C` is whatever the caller wants handed back when the
/// transfer ends; a request without one is performed and its result dropped.
pub struct Request<C> {
    handle: Easy,
    complete: Option<C>,
}

impl<C> Request<C> {
    /// The transport handle that the request configures.
    pub closed spec fn handle(self) -> Easy {
        self.handle
    }

    /// The completion registered on the request, if any.
    pub closed spec fn completion(self) -> Option<C> {
        self.complete
    }

    /// Takes the request apart into its transport handle and its completion.
    pub fn into_parts(self) -> (parts: (Easy, Option<C>))
        ensures
            parts.0 == self.handle(),
            parts.1 == self.completion(),
    {
        (self.handle, self.complete)
    }
}

/// A new request with the transport's defaults and no completion.
pub fn liberty_http_request_make<C>() -> (request: Request<C>)
    ensures
        request.completion() is None,
{
    Request { handle: new_handle(), complete: None }
}

/// Asks for the method `GET`. Returns `0`, or the transport's error code.
pub fn liberty_http_request_get<C>(request: &mut Request<C>) -> (status: i32)
    ensures
        final(request).completion() == old(request).completion(),
{
    status_of(set_get(&mut request.handle))
}

/// Asks for the method `POST`. Returns `0`, or the transport's error code.
pub fn liberty_http_request_post<C>(request: &mut Request<C>) -> (status: i32)
    ensures
        final(request).completion() == old(request).completion(),
{
    status_of(set_post(&mut request.handle))
}

/// Sets the target URL, given as bytes. Returns `0`, or the transport's error
/// code.
///
/// Bytes that are not UTF-8 never reach the transport: the request stays as it
/// was and the status is [`URL_MALFORMAT`]. Text that holds a NUL character is
/// refused by the transport with [`CONVERSION_FAILED`]. So the status is `0`
/// only for text without a NUL; whether it is `0` for such text is the
/// transport's to say.
pub fn liberty_http_request_url<C>(request: &mut Request<C>, data: &[u8]) -> (status: i32)
    ensures
        final(request).completion() == old(request).completion(),
        !valid_utf8(data@) ==> status == URL_MALFORMAT && *final(request) == *old(request),
        valid_utf8(data@) && decode_utf8(data@).contains('\0') ==> status == CONVERSION_FAILED,
        status == 0 ==> valid_utf8(data@) && !decode_utf8(data@).contains('\0'),
{
    match from_utf8(data) {
        Some(url) => status_of(set_url(&mut request.handle, url)),
        None => URL_MALFORMAT,
    }
}

/// Sets the body of a `POST`, which the transport copies. Returns `0`, or the
/// transport's error code.
pub fn liberty_http_request_data<C>(request: &mut Request<C>, data: &[u8]) -> (status: i32)
    ensures
        final(request).completion() == old(request).completion(),
{
    status_of(set_post_fields(&mut request.handle, data))
}

/// Registers the completion that is to hear of the transfer's end, in place of
/// any registered before. The transport handle is not touched.
pub fn liberty_http_request_complete_callback<C>(request: &mut Request<C>, callback: C)
    ensures
        final(request).completion() == Some(callback),
        final(request).handle() == old(request).handle(),
{
    request.complete = Some(callback);
}

} // verus!
