//! The dispatch engine's decisions: what the worker does with each event that
//! it takes from its queue, and what it reports when a transfer has settled.
//! The worker itself (its thread, its reactor, its queue) is the caller's.

use std::sync::{Arc, Mutex};

use curl::easy::Easy;
use tokio_curl::PerformError;
use vstd::prelude::*;

use crate::error::Error;
use crate::request::Request;
use crate::response::Response;
use crate::transport::{describe, guard, response_code, watch_body, watch_headers};

verus! {

/// What the worker takes from its queue.
pub enum Event<C> {
    /// A request to perform.
    Perform(Request<C>),
    /// No more work: stop taking events.
    Shutdown,
}

/// The two ends of a watched transfer: the completion to notify, and the
/// accumulator that the transfer's callbacks fill.
pub struct Watch<C> {
    pub callback: C,
    pub response: Arc<Mutex<Response>>,
}

/// A transfer that is ready to start.
pub struct Transfer<C> {
    pub handle: Easy,
    /// `None` for a request without a completion: it is performed all the
    /// same, and its result is dropped.
    pub watch: Option<Watch<C>>,
}

/// What the worker is to do next.
pub enum Step<C> {
    /// Start this transfer, and go on taking events without waiting for it.
    Launch(Transfer<C>),
    /// Stop taking events.
    Halt,
}

/// Decides what the worker does with one event.
///
/// A request is always launched. If it has a completion, a new accumulator is
/// made for this transfer alone and the handle's header and body callbacks are
/// set to fill it; if it has none, the handle goes on as it came. Only
/// `Shutdown` halts the worker.
pub fn dispatch<C>(event: Event<C>) -> (step: Step<C>)
    ensures
        match event {
            Event::Shutdown => step is Halt,
            Event::Perform(request) => step matches Step::Launch(transfer) && match request.completion() {
                Some(callback) => transfer.watch matches Some(watch) && watch.callback == callback,
                None => transfer.watch is None && transfer.handle == request.handle(),
            },
        },
{
    match event {
        Event::Perform(request) => {
            let (mut handle, complete) = request.into_parts();
            match complete {
                Some(callback) => {
                    let response = Arc::new(guard(Response::new()));
                    watch_headers(&mut handle, &response);
                    watch_body(&mut handle, &response);
                    Step::Launch(Transfer { handle, watch: Some(Watch { callback, response }) })
                },
                None => Step::Launch(Transfer { handle, watch: None }),
            }
        },
        Event::Shutdown => Step::Halt,
    }
}

/// Closes a watched transfer's accumulator once the transfer has settled, and
/// says what its completion is to be told: `None` for a finished response, to
/// be read from the accumulator, or the description of the failure.
///
/// A transfer that succeeded has its final status code recorded, `0` where the
/// transport has none; everything else in the accumulator stays. A transfer that
/// failed leaves the accumulator as it was.
pub fn settle(response: &mut Response, result: Result<Easy, PerformError>) -> (failure: Option<String>)
    ensures
        failure is Some <==> result is Err,
        result is Err ==> final(response)@ == old(response)@,
        result is Ok ==> exists|code: Option<u32>| final(response)@ == old(response)@.complete(code),
{
    match result {
        Ok(handle) => {
            let code = response_code(&handle);
            response.complete(code);
            None
        },
        Err(error) => Some(describe(error)),
    }
}

/// What a completion is told: a finished response or an error, never both.
pub enum Notification<'a> {
    Response(&'a Response),
    Error(Error<'a>),
}

/// The notification for a settled transfer, from its accumulator and from what
/// [`settle`] said of it: the accumulator where nothing failed, else an error
/// that carries the failure's description.
pub fn notification<'a>(response: &'a Response, failure: &'a Option<String>) -> (told: Notification<'a>)
    ensures
        match *failure {
            Some(description) => told matches Notification::Error(error) && error@ == Some(description@),
            None => told == Notification::Response(response),
        },
{
    match failure {
        Some(description) => Notification::Error(Error::new(Some(description.as_str()))),
        None => Notification::Response(response),
    }
}

} // verus!
