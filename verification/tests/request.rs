use liberty_http::{
    dispatch, liberty_http_request_complete_callback, liberty_http_request_data,
    liberty_http_request_get, liberty_http_request_make, liberty_http_request_post,
    liberty_http_request_url, Event, Request, Step, CONVERSION_FAILED, URL_MALFORMAT,
};

#[test]
fn valid_configuration_returns_zero() {
    let mut request: Request<u32> = liberty_http_request_make();
    assert_eq!(liberty_http_request_get(&mut request), 0);
    assert_eq!(liberty_http_request_url(&mut request, b"http://example.com/index.html"), 0);
    assert_eq!(liberty_http_request_post(&mut request), 0);
    assert_eq!(liberty_http_request_data(&mut request, b"key=value&other=1"), 0);
    assert_eq!(liberty_http_request_data(&mut request, b""), 0);
    assert_eq!(liberty_http_request_data(&mut request, &[0x00, 0xff, 0x80]), 0);
    assert!(matches!(dispatch(Event::Perform(request)), Step::Launch(_)));
}

#[test]
fn url_that_is_not_utf8_is_malformed() {
    let mut request: Request<u32> = liberty_http_request_make();
    assert_eq!(liberty_http_request_url(&mut request, &[b'h', b't', b't', b'p', 0xff]), URL_MALFORMAT);
    assert_eq!(liberty_http_request_url(&mut request, &[0xc0, 0x80]), 3);
    // The request can still be configured and submitted.
    assert_eq!(liberty_http_request_url(&mut request, b"http://example.com/"), 0);
    assert!(matches!(dispatch(Event::Perform(request)), Step::Launch(_)));
}

#[test]
fn url_with_a_nul_is_refused_by_the_transport() {
    let mut request: Request<u32> = liberty_http_request_make();
    assert_eq!(liberty_http_request_url(&mut request, b"http://exa\0mple.com/"), 75);
    assert_eq!(liberty_http_request_url(&mut request, b"\0"), CONVERSION_FAILED);
    assert_eq!(liberty_http_request_url(&mut request, b"http://example.com/"), 0);
}

#[test]
fn url_may_hold_text_beyond_ascii() {
    let mut request: Request<u32> = liberty_http_request_make();
    assert_eq!(liberty_http_request_url(&mut request, "http://example.com/caf\u{e9}".as_bytes()), 0);
}

#[test]
fn completion_is_kept_through_configuration() {
    let mut request: Request<&'static str> = liberty_http_request_make();
    liberty_http_request_complete_callback(&mut request, "first");
    liberty_http_request_complete_callback(&mut request, "second");
    assert_eq!(liberty_http_request_get(&mut request), 0);
    assert_eq!(liberty_http_request_url(&mut request, &[0xff]), URL_MALFORMAT);
    assert_eq!(liberty_http_request_url(&mut request, b"http://example.com/"), 0);
    match dispatch(Event::Perform(request)) {
        Step::Launch(transfer) => assert_eq!(transfer.watch.unwrap().callback, "second"),
        Step::Halt => panic!("a request must be launched"),
    }
}
