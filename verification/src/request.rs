//! The generic request path: arbitrary method, caller-driven headers,
//! optional raw body; the response is returned whatever its status code.

use vstd::prelude::*;
use vstd::string::*;
use crate::client::{client_build_prefix, manager_reused, ClientManager};
use crate::errors::{
    body_read_prefix, classify_transport_fault, connect_prefix, other_prefix, request_prefix,
    timeout_prefix, ClassifiedError,
};
use crate::headers::{
    check_header_name, check_header_value, valid_header_name, valid_header_value,
    with_default_user_agent,
};
use crate::text::{eq_ascii_case, eq_ignore_ascii_case, starts_with};
use crate::transport::{
    builder_body, builder_header, client_delete, client_get, client_patch, client_post,
    client_put, response_header_pairs, response_status, response_text, send_request,
};

verus! {

/// The five verbs the generic path supports.
#[derive(Clone, Copy, Debug, PartialEq, Eq, Structural)]
pub enum HttpMethod {
    Get,
    Post,
    Put,
    Delete,
    Patch,
}

/// The verb a method string names, matched case-insensitively; None for an
/// unsupported verb.
pub open spec fn spec_method_of(s: Seq<char>) -> Option<HttpMethod> {
    if eq_ascii_case(s, "GET"@) {
        Some(HttpMethod::Get)
    } else if eq_ascii_case(s, "POST"@) {
        Some(HttpMethod::Post)
    } else if eq_ascii_case(s, "PUT"@) {
        Some(HttpMethod::Put)
    } else if eq_ascii_case(s, "DELETE"@) {
        Some(HttpMethod::Delete)
    } else if eq_ascii_case(s, "PATCH"@) {
        Some(HttpMethod::Patch)
    } else {
        None
    }
}

/// Parses a method string, case-insensitively, into a supported verb.
pub fn parse_method(m: &str) -> (r: Option<HttpMethod>)
    ensures
        r == spec_method_of(m@),
{
    if eq_ignore_ascii_case(m, "GET") {
        Some(HttpMethod::Get)
    } else if eq_ignore_ascii_case(m, "POST") {
        Some(HttpMethod::Post)
    } else if eq_ignore_ascii_case(m, "PUT") {
        Some(HttpMethod::Put)
    } else if eq_ignore_ascii_case(m, "DELETE") {
        Some(HttpMethod::Delete)
    } else if eq_ignore_ascii_case(m, "PATCH") {
        Some(HttpMethod::Patch)
    } else {
        None
    }
}

/// What str::to_uppercase returns: the Unicode uppercase mapping, a pure
/// function of the characters alone, independent of any locale.
pub uninterp spec fn upper_of(s: Seq<char>) -> Seq<char>;

/// Relies on str::to_uppercase: the result depends on the characters alone.
/// Used only to render the rejected verb the way the boundary reports it.
#[verifier::external_body]
fn to_uppercase_string(s: &str) -> (r: String)
    ensures
        r@ == upper_of(s@),
{
    s.to_uppercase()
}

/// Law: method parsing cannot tell two strings apart that are equal up to
/// ASCII case, so the generic path treats them identically.
pub proof fn lemma_method_case_insensitive(a: Seq<char>, b: Seq<char>)
    requires
        eq_ascii_case(a, b),
    ensures
        spec_method_of(a) == spec_method_of(b),
{
    crate::text::lemma_eq_ascii_case_congruence(a, b, "GET"@);
    crate::text::lemma_eq_ascii_case_congruence(a, b, "POST"@);
    crate::text::lemma_eq_ascii_case_congruence(a, b, "PUT"@);
    crate::text::lemma_eq_ascii_case_congruence(a, b, "DELETE"@);
    crate::text::lemma_eq_ascii_case_congruence(a, b, "PATCH"@);
}

/// One header pair is well-formed for the wire.
pub open spec fn spec_header_ok(h: (String, String)) -> bool {
    valid_header_name(h.0@) && valid_header_value(h.1@)
}

/// Every header of the list is well-formed for the wire.
pub open spec fn spec_headers_ok(hs: Seq<(String, String)>) -> bool {
    forall|i: int| 0 <= i < hs.len() ==> spec_header_ok(hs[i])
}

/// The message rejecting a malformed header, naming the offending key; an
/// invalid name is reported ahead of an invalid value.
pub open spec fn spec_invalid_header_message(h: (String, String)) -> Seq<char> {
    if !valid_header_name(h.0@) {
        "Invalid header name '"@ + h.0@ + "': invalid HTTP header name"@
    } else {
        "Invalid header value for '"@ + h.0@ + "': failed to parse header value"@
    }
}

/// The generic path accepts the inputs: supported verb, well-formed headers.
pub open spec fn spec_request_input_ok(method: Seq<char>, hs: Seq<(String, String)>) -> bool {
    spec_method_of(method) is Some && spec_headers_ok(hs)
}

/// The structured result of the generic path: the numeric status code as
/// the server gave it, the response headers decoded to text, and the body.
#[derive(Debug)]
pub struct HttpResponseData {
    pub status: u16,
    pub body: String,
    pub headers: Vec<(String, String)>,
}

/// Law: the header map of a returned response is always fit to be re-applied
/// as the header list of a subsequent request with any supported verb; a
/// round trip through the generic path can never be rejected as invalid
/// input on account of the headers.
pub proof fn lemma_response_headers_reapplicable(
    resp: HttpResponseData,
    method: Seq<char>,
)
    requires
        spec_headers_ok(resp.headers@),
        spec_method_of(method) is Some,
    ensures
        spec_request_input_ok(method, resp.headers@),
{
}

/// The generic path's judgement of a received response, for every status
/// and every outcome of the body read: any status code at all is a success
/// carrying the structured triple, the deliberate difference from the
/// content-fetch path; only a failed body read fails, and the response was
/// already received when it does.
pub fn response_outcome(
    status: u16,
    headers: Vec<(String, String)>,
    read: Result<String, String>,
) -> (r: Result<HttpResponseData, ClassifiedError>)
    ensures
        read matches Ok(b) ==> (r matches Ok(d) && d.status == status && d.body == b && d.headers
            == headers),
        read matches Err(m) ==> (r matches Err(ClassifiedError::BodyReadFailed(d)) && d@
            == body_read_prefix() + m@ && starts_with(d@, body_read_prefix())),
{
    match read {
        Ok(text) => Ok(HttpResponseData { status, body: text, headers }),
        Err(raw) => {
            let mut d = "Failed to read response body: ".to_owned();
            d.append(raw.as_str());
            proof {
                assert(d@.subrange(0, body_read_prefix().len() as int) =~= body_read_prefix());
            }
            Err(ClassifiedError::BodyReadFailed(d))
        },
    }
}

/// Executes one round trip with the given verb, headers and optional raw
/// body. An unsupported verb or a malformed header is rejected as invalid
/// input, naming the offending key, before any network I/O; headers are
/// applied verbatim, with the default browser User-Agent injected when the
/// caller supplied none; any response, whatever its status code, is a
/// success carrying the code, the text-decoded headers and the body.
pub fn http_request(
    mgr: &mut ClientManager,
    method: &str,
    url: &str,
    headers: Vec<(String, String)>,
    body: Option<String>,
) -> (r: Result<HttpResponseData, ClassifiedError>)
    ensures
        (r matches Err(e) && e is InvalidInput) <==> !spec_request_input_ok(method@, headers@),
        spec_method_of(method@) is None ==> (r matches Err(ClassifiedError::InvalidInput(m)) && m@
            == "Unsupported HTTP method: "@ + upper_of(method@)),
        spec_method_of(method@) is Some && !spec_headers_ok(headers@) ==> (r matches Err(
            ClassifiedError::InvalidInput(m),
        ) && exists|i: int|
            0 <= i < headers@.len() && (forall|k: int| 0 <= k < i ==> spec_header_ok(headers@[k]))
                && !spec_header_ok(#[trigger] headers@[i]) && m@ == spec_invalid_header_message(
                headers@[i],
            )),
        !(r matches Err(e) && e is HttpStatusFailure),
        r matches Err(ClassifiedError::ConnectFailed(m)) ==> starts_with(m@, connect_prefix()),
        r matches Err(ClassifiedError::TimedOut(m)) ==> starts_with(m@, timeout_prefix()),
        r matches Err(ClassifiedError::TransportOrTLSFailed(m)) ==> starts_with(
            m@,
            request_prefix(),
        ),
        r matches Err(ClassifiedError::Other(m)) ==> starts_with(m@, other_prefix())
            || starts_with(m@, client_build_prefix()),
        r matches Err(ClassifiedError::BodyReadFailed(m)) ==> starts_with(m@, body_read_prefix()),
        r matches Ok(d) ==> 100 <= d.status <= 999 && spec_headers_ok(d.headers@),
        manager_reused(*old(mgr), *final(mgr)),
{
    let verb = match parse_method(method) {
        Some(v) => v,
        None => {
            let mut m = "Unsupported HTTP method: ".to_owned();
            m.append(to_uppercase_string(method).as_str());
            return Err(ClassifiedError::InvalidInput(m));
        },
    };

    let n = headers.len();
    let mut i: usize = 0;
    while i < n
        invariant
            n == headers@.len(),
            0 <= i <= n,
            spec_method_of(method@) is Some,
            forall|k: int| 0 <= k < i ==> spec_header_ok(#[trigger] headers@[k]),
        decreases n - i,
    {
        if !check_header_name(headers[i].0.as_str()) {
            let mut m = "Invalid header name '".to_owned();
            m.append(headers[i].0.as_str());
            m.append("': invalid HTTP header name");
            proof {
                assert(!spec_header_ok(headers@[i as int]));
                assert(m@ =~= spec_invalid_header_message(headers@[i as int]));
            }
            return Err(ClassifiedError::InvalidInput(m));
        }
        if !check_header_value(headers[i].1.as_str()) {
            let mut m = "Invalid header value for '".to_owned();
            m.append(headers[i].0.as_str());
            m.append("': failed to parse header value");
            proof {
                assert(!spec_header_ok(headers@[i as int]));
                assert(m@ =~= spec_invalid_header_message(headers@[i as int]));
            }
            return Err(ClassifiedError::InvalidInput(m));
        }
        i += 1;
    }

    let client = match mgr.get_or_init_client() {
        Ok(c) => c,
        Err(e) => {
            return Err(e);
        },
    };

    let mut rb = match verb {
        HttpMethod::Get => client_get(&client, url),
        HttpMethod::Post => client_post(&client, url),
        HttpMethod::Put => client_put(&client, url),
        HttpMethod::Delete => client_delete(&client, url),
        HttpMethod::Patch => client_patch(&client, url),
    };

    let to_send = with_default_user_agent(headers);
    let m = to_send.len();
    let mut j: usize = 0;
    while j < m
        invariant
            m == to_send@.len(),
            0 <= j <= m,
        decreases m - j,
    {
        rb = builder_header(rb, to_send[j].0.as_str(), to_send[j].1.as_str());
        j += 1;
    }

    if let Some(payload) = body {
        rb = builder_body(rb, payload);
    }

    let resp = match send_request(rb) {
        Ok(resp) => resp,
        Err(f) => {
            return Err(classify_transport_fault(&f));
        },
    };

    let status = response_status(&resp);
    let resp_headers = response_header_pairs(&resp);
    response_outcome(status, resp_headers, response_text(resp))
}

} // verus!
