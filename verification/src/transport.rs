//! The transport: libcurl's easy handle as the `curl` crate gives it, the
//! failure of a transfer as `tokio-curl` reports it, and the standard library's
//! lock behind which a transfer's accumulator is shared.
//!
//! Nothing in this file is proved. Each function makes one call and states of
//! it what the source or the documentation of the callee shows, and no more;
//! most state nothing.

use std::sync::{Arc, Mutex};

use curl::easy::Easy;
use tokio_curl::PerformError;
use vstd::prelude::*;

use crate::response::Response;
use crate::status::CONVERSION_FAILED;

verus! {

/// `curl::easy::Easy`, one configured transfer. Opaque here.
#[verifier::external_type_specification]
#[verifier::external_body]
pub struct ExEasy(curl::easy::Easy);

/// `tokio_curl::PerformError`, why a transfer failed. Opaque here.
#[verifier::external_type_specification]
#[verifier::external_body]
pub struct ExPerformError(tokio_curl::PerformError);

/// `std::sync::Mutex`. Opaque here: what it guards is reached only by the
/// callbacks that [`watch_headers`] and [`watch_body`] install.
#[verifier::external_type_specification]
#[verifier::external_body]
#[verifier::reject_recursive_types(T)]
pub struct ExMutex<T: ?Sized>(std::sync::Mutex<T>);

/// `Easy::new`: a handle with libcurl's defaults. It takes nothing and fails
/// only where libcurl cannot allocate.
#[verifier::external_body]
pub(crate) fn new_handle() -> Easy {
    Easy::new()
}

/// `Easy::get(true)`: asks for the method `GET`. The transport answers with
/// `Ok` or with the code of its error.
#[verifier::external_body]
pub(crate) fn set_get(handle: &mut Easy) -> (outcome: Result<(), u32>) {
    match handle.get(true) {
        Ok(()) => Ok(()),
        Err(error) => Err(error.code()),
    }
}

/// `Easy::post(true)`: asks for the method `POST`. The transport answers with
/// `Ok` or with the code of its error.
#[verifier::external_body]
pub(crate) fn set_post(handle: &mut Easy) -> (outcome: Result<(), u32>) {
    match handle.post(true) {
        Ok(()) => Ok(()),
        Err(error) => Err(error.code()),
    }
}

/// `Easy::url`: sets the target. The transport answers with `Ok` or with the
/// code of its error. Its source shows two things of that answer. It first
/// turns the text into a C string, and where the text holds a NUL character it
/// answers [`CONVERSION_FAILED`] without going further. And it makes an error
/// only of a code other than zero: libcurl's code for success is zero.
#[verifier::external_body]
pub(crate) fn set_url(handle: &mut Easy, url: &str) -> (outcome: Result<(), u32>)
    ensures
        outcome matches Err(code) ==> code != 0,
        url@.contains('\0') ==> outcome is Err && outcome->Err_0 == CONVERSION_FAILED,
{
    match handle.url(url) {
        Ok(()) => Ok(()),
        Err(error) => Err(error.code()),
    }
}

/// `Easy::post_fields_copy`: sets the body of a `POST`, which the transport
/// copies. The transport answers with `Ok` or with the code of its error.
#[verifier::external_body]
pub(crate) fn set_post_fields(handle: &mut Easy, data: &[u8]) -> (outcome: Result<(), u32>) {
    match handle.post_fields_copy(data) {
        Ok(()) => Ok(()),
        Err(error) => Err(error.code()),
    }
}

/// `Easy::response_code`: the status code of the last response, if the
/// transport can tell it.
#[verifier::external_body]
pub(crate) fn response_code(handle: &Easy) -> Option<u32> {
    handle.response_code().ok()
}

/// `PerformError::into_error`, written out as text: the transport's own words
/// for why the transfer failed.
#[verifier::external_body]
pub(crate) fn describe(error: PerformError) -> String {
    error.into_error().to_string()
}

/// `Mutex::new`: puts an accumulator behind a lock, so that a transfer's
/// callbacks and whoever reports the transfer's end can share it.
#[verifier::external_body]
pub(crate) fn guard(response: Response) -> Mutex<Response> {
    Mutex::new(response)
}

/// `Easy::header_function`: has the transport hand every chunk of header bytes
/// to [`Response::receive_header`] on the shared accumulator, and go on with
/// the transfer only if that says so. The transport's source shows that
/// installing a callback cannot fail.
#[verifier::external_body]
pub(crate) fn watch_headers(handle: &mut Easy, shared: &Arc<Mutex<Response>>) {
    let shared = Arc::clone(shared);
    handle.header_function(
        move |chunk| shared.lock().expect("lock must be healthy").receive_header(chunk),
    ).unwrap();
}

/// `Easy::write_function`: has the transport hand every chunk of body bytes to
/// [`Response::receive_body`] on the shared accumulator, and take its result as
/// the number of bytes consumed. The transport's source shows that installing
/// a callback cannot fail.
#[verifier::external_body]
pub(crate) fn watch_body(handle: &mut Easy, shared: &Arc<Mutex<Response>>) {
    let shared = Arc::clone(shared);
    handle.write_function(
        move |chunk| Ok(shared.lock().expect("lock must be healthy").receive_body(chunk)),
    ).unwrap();
}

} // verus!
