//! Trusted boundary to the HTTP backend and the URL parser: each round-trip
//! call of the executors goes through exactly one wrapper here.

use vstd::prelude::*;
use crate::errors::TransportFault;
use crate::headers::{valid_header_name, valid_header_value};

verus! {

#[verifier::external_type_specification]
#[verifier::external_body]
pub struct ExRequestBuilder(reqwest::blocking::RequestBuilder);

#[verifier::external_type_specification]
#[verifier::external_body]
pub struct ExResponse(reqwest::blocking::Response);

/// Whether `url::Url::parse` accepts the text as an absolute URL; parsing is
/// a pure function of the text.
pub uninterp spec fn url_parse_ok(s: Seq<char>) -> bool;

/// The host of the URL the text parses to, as text, empty when the URL has
/// no host; a pure function of the text.
pub uninterp spec fn url_host_of(s: Seq<char>) -> Seq<char>;

/// Relies on url::Url::parse and url::Url::host_str: parse accepts exactly
/// the well-formed absolute URLs, and host_str hands the parsed host out as
/// text (None for host-less URLs). The error case carries parse's rendered
/// error.
#[verifier::external_body]
pub(crate) fn parse_url_host(s: &str) -> (r: Result<String, String>)
    ensures
        r is Ok <==> url_parse_ok(s@),
        r matches Ok(h) ==> h@ == url_host_of(s@),
{
    match url::Url::parse(s) {
        Ok(u) => Ok(u.host_str().unwrap_or("").to_string()),
        Err(e) => Err(format!("{e}")),
    }
}

/// Relies on reqwest::blocking::Client::get: builds a GET request for the
/// URL.
#[verifier::external_body]
pub(crate) fn client_get(client: &reqwest::blocking::Client, url: &str) -> (rb: reqwest::blocking::RequestBuilder) {
    client.get(url)
}

/// Relies on reqwest::blocking::Client::post: builds a POST request for the
/// URL.
#[verifier::external_body]
pub(crate) fn client_post(client: &reqwest::blocking::Client, url: &str) -> (rb: reqwest::blocking::RequestBuilder) {
    client.post(url)
}

/// Relies on reqwest::blocking::Client::put: builds a PUT request for the
/// URL.
#[verifier::external_body]
pub(crate) fn client_put(client: &reqwest::blocking::Client, url: &str) -> (rb: reqwest::blocking::RequestBuilder) {
    client.put(url)
}

/// Relies on reqwest::blocking::Client::delete: builds a DELETE request for
/// the URL.
#[verifier::external_body]
pub(crate) fn client_delete(client: &reqwest::blocking::Client, url: &str) -> (rb: reqwest::blocking::RequestBuilder) {
    client.delete(url)
}

/// Relies on reqwest::blocking::Client::patch: builds a PATCH request for
/// the URL.
#[verifier::external_body]
pub(crate) fn client_patch(client: &reqwest::blocking::Client, url: &str) -> (rb: reqwest::blocking::RequestBuilder) {
    client.patch(url)
}

/// Relies on reqwest::blocking::RequestBuilder::header: records the header
/// pair on the pending request.
#[verifier::external_body]
pub(crate) fn builder_header(rb: reqwest::blocking::RequestBuilder, name: &str, value: &str) -> (r: reqwest::blocking::RequestBuilder) {
    rb.header(name, value)
}

/// Relies on reqwest::blocking::RequestBuilder::body: sets the raw request
/// payload, with no content-type inference.
#[verifier::external_body]
pub(crate) fn builder_body(rb: reqwest::blocking::RequestBuilder, body: String) -> (r: reqwest::blocking::RequestBuilder) {
    rb.body(body)
}

/// Relies on reqwest::blocking::RequestBuilder::send, and on
/// reqwest::Error's is_connect, is_timeout and is_request: exactly one
/// request is attempted, and a failure is sorted by the backend's own
/// classification, probed in this order, into the closed fault shapes.
#[verifier::external_body]
pub(crate) fn send_request(rb: reqwest::blocking::RequestBuilder) -> (r: Result<
    reqwest::blocking::Response,
    TransportFault,
>) {
    match rb.send() {
        Ok(resp) => Ok(resp),
        Err(e) => Err(
            if e.is_connect() {
                TransportFault::Connect(format!("{e}"))
            } else if e.is_timeout() {
                TransportFault::Timeout(format!("{e}"))
            } else if e.is_request() {
                TransportFault::Request(format!("{e}"))
            } else {
                TransportFault::Other(format!("{e}"))
            },
        ),
    }
}

/// Relies on reqwest::blocking::Response::status and StatusCode::as_u16: a
/// status code parsed from the wire is always in 100..=999.
#[verifier::external_body]
pub(crate) fn response_status(resp: &reqwest::blocking::Response) -> (r: u16)
    ensures
        100 <= r <= 999,
{
    resp.status().as_u16()
}

/// Relies on reqwest::blocking::Response::headers, HeaderName::as_str and
/// HeaderValue::to_str: every key of a header map is a valid (lowercased)
/// header name, and to_str succeeds exactly on visible-ASCII-or-tab values,
/// which are valid header values; a value that is not such text is handed
/// out as the empty string rather than failing the call.
#[verifier::external_body]
pub(crate) fn response_header_pairs(resp: &reqwest::blocking::Response) -> (r: Vec<
    (String, String),
>)
    ensures
        forall|i: int|
            0 <= i < r@.len() ==> valid_header_name(r@[i].0@) && valid_header_value(r@[i].1@),
{
    resp.headers().iter().map(
        |(k, v)| (k.as_str().to_string(), v.to_str().unwrap_or("").to_string()),
    ).collect()
}

/// Relies on reqwest::blocking::Response::text: reads and decodes the full
/// body; a read or decode failure is rendered as text.
#[verifier::external_body]
pub(crate) fn response_text(resp: reqwest::blocking::Response) -> (r: Result<String, String>) {
    resp.text().map_err(|e| format!("{e}"))
}

} // verus!
