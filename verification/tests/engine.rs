use curl::easy::Easy;
use liberty_http::{
    dispatch, liberty_error_extra, liberty_error_extra_size, liberty_http_request_complete_callback,
    liberty_http_request_make, liberty_http_request_url, liberty_http_response_body,
    liberty_http_response_code, notification, settle, Event, Notification, Request, Response,
    Step,
};

#[test]
fn shutdown_halts_the_worker() {
    assert!(matches!(dispatch(Event::<u32>::Shutdown), Step::Halt));
}

#[test]
fn request_without_completion_is_launched_unwatched() {
    let mut request: Request<u32> = liberty_http_request_make();
    assert_eq!(liberty_http_request_url(&mut request, b"http://example.com/"), 0);
    match dispatch(Event::Perform(request)) {
        Step::Launch(transfer) => assert!(transfer.watch.is_none()),
        Step::Halt => panic!("a request must be launched"),
    }
}

#[test]
fn request_with_completion_gets_an_empty_accumulator() {
    let mut request: Request<u32> = liberty_http_request_make();
    liberty_http_request_complete_callback(&mut request, 42);
    match dispatch(Event::Perform(request)) {
        Step::Launch(transfer) => {
            let watch = transfer.watch.expect("a completion must be watched");
            assert_eq!(watch.callback, 42);
            let response = watch.response.lock().unwrap();
            assert_eq!(liberty_http_response_code(&response), 0);
            assert_eq!(response.status(), "");
            assert!(response.headers().is_empty());
            assert!(liberty_http_response_body(&response).is_empty());
        }
        Step::Halt => panic!("a request must be launched"),
    }
}

#[test]
fn every_request_gets_an_accumulator_of_its_own() {
    let mut first: Request<u32> = liberty_http_request_make();
    liberty_http_request_complete_callback(&mut first, 1);
    let mut second: Request<u32> = liberty_http_request_make();
    liberty_http_request_complete_callback(&mut second, 2);
    let first = match dispatch(Event::Perform(first)) {
        Step::Launch(transfer) => transfer.watch.unwrap(),
        Step::Halt => panic!("a request must be launched"),
    };
    let second = match dispatch(Event::Perform(second)) {
        Step::Launch(transfer) => transfer.watch.unwrap(),
        Step::Halt => panic!("a request must be launched"),
    };
    first.response.lock().unwrap().receive_body(b"one");
    second.response.lock().unwrap().receive_body(b"two");
    assert_eq!((first.callback, second.callback), (1, 2));
    assert_eq!(liberty_http_response_body(&first.response.lock().unwrap()), b"one");
    assert_eq!(liberty_http_response_body(&second.response.lock().unwrap()), b"two");
}

#[test]
fn settled_transfer_without_a_response_has_code_zero() {
    let mut response = Response::new();
    assert!(response.receive_header(b"HTTP/1.1 200 OK\r\n"));
    assert!(response.receive_header(b"A:b"));
    assert_eq!(response.receive_body(b"body"), 4);
    response.complete(Some(500));
    // A handle that has performed nothing reports the code 0.
    let failure = settle(&mut response, Ok(Easy::new()));
    assert!(failure.is_none());
    assert_eq!(liberty_http_response_code(&response), 0);
    assert_eq!(response.status(), "HTTP/1.1 200 OK\r\n");
    assert_eq!(response.headers().len(), 1);
    assert_eq!(liberty_http_response_body(&response), b"body");
}

#[test]
fn notification_of_a_finished_response() {
    let mut response = Response::new();
    response.receive_body(b"hello");
    response.complete(Some(200));
    let failure = None;
    match notification(&response, &failure) {
        Notification::Response(finished) => {
            assert_eq!(liberty_http_response_code(finished), 200);
            assert_eq!(liberty_http_response_body(finished), b"hello");
        }
        Notification::Error(_) => panic!("nothing failed"),
    }
}

#[test]
fn notification_of_a_failure() {
    let response = Response::new();
    let failure = Some(String::from("[6] Couldn't resolve host name"));
    match notification(&response, &failure) {
        Notification::Response(_) => panic!("the transfer failed"),
        Notification::Error(error) => {
            assert_eq!(liberty_error_extra(&error), b"[6] Couldn't resolve host name");
            assert_eq!(liberty_error_extra_size(&error), 30);
        }
    }
}

#[test]
fn notification_of_a_failure_without_words() {
    let response = Response::new();
    let failure = Some(String::new());
    match notification(&response, &failure) {
        Notification::Response(_) => panic!("the transfer failed"),
        Notification::Error(error) => assert_eq!(liberty_error_extra_size(&error), 0),
    }
}
