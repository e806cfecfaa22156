//! Asynchronous HTTP dispatch: the rules by which a transfer's response is
//! accumulated, a submitted request is dispatched, and a settled transfer is
//! reported, stated as contracts and proved.

pub mod engine;
pub mod error;
pub mod header;
pub mod request;
pub mod response;
pub mod status;
pub mod text;
pub mod transcript;
pub mod transport;

pub use engine::{dispatch, notification, settle, Event, Notification, Step, Transfer, Watch};
pub use error::{liberty_error_extra, liberty_error_extra_size, Error};
pub use request::{
    liberty_http_request_complete_callback, liberty_http_request_data, liberty_http_request_get,
    liberty_http_request_make, liberty_http_request_post, liberty_http_request_url, Request,
};
pub use header::{parse_header, Header, HeaderView};
pub use response::{
    liberty_http_response_body, liberty_http_response_body_size, liberty_http_response_code,
    Response, ResponseView,
};
pub use status::{status_of, to_signed, CONVERSION_FAILED, URL_MALFORMAT};
