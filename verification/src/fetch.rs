//! The content-fetch path: GET with host-adaptive policy headers, success
//! text extraction, non-2xx treated as failure.

use vstd::prelude::*;
use vstd::string::*;
use crate::client::{client_build_prefix, manager_reused, ClientManager};
use crate::errors::{
    body_read_prefix, classify_transport_fault, connect_prefix, other_prefix, request_prefix,
    timeout_prefix, ClassifiedError,
};
use crate::policy::headers_for_host;
use crate::text::{spec_dec, starts_with, u16_to_dec_string};
use crate::transport::{
    builder_header, client_get, parse_url_host, response_status, response_text, send_request,
    url_parse_ok,
};

verus! {

/// The fetch path's judgement of a response status, for every status the
/// wire can carry: a success status (200..=299) passes; any other is a
/// failure carrying that code and the rendered "HTTP <code>" detail.
pub fn fetch_status_gate(status: u16) -> (r: Result<(), ClassifiedError>)
    ensures
        r is Ok <==> 200 <= status <= 299,
        r matches Err(e) ==> (e matches ClassifiedError::HttpStatusFailure(code, m) && code
            == status && m@ == "HTTP "@ + spec_dec(status as int)),
{
    if status < 200 || status > 299 {
        let mut m = "HTTP ".to_owned();
        m.append(u16_to_dec_string(status).as_str());
        Err(ClassifiedError::HttpStatusFailure(status, m))
    } else {
        Ok(())
    }
}

/// The fetch path's judgement of the body read that follows a success
/// status, for every outcome of the read: the decoded text is the result;
/// a read failure becomes BodyReadFailed, its cause behind the body-read
/// prefix.
pub fn fetch_body_outcome(read: Result<String, String>) -> (r: Result<String, ClassifiedError>)
    ensures
        read matches Ok(b) ==> r == Ok::<String, ClassifiedError>(b),
        read matches Err(m) ==> (r matches Err(ClassifiedError::BodyReadFailed(d)) && d@
            == body_read_prefix() + m@ && starts_with(d@, body_read_prefix())),
{
    match read {
        Ok(body) => Ok(body),
        Err(raw) => {
            let mut d = "Failed to read response body: ".to_owned();
            d.append(raw.as_str());
            proof {
                assert(d@.subrange(0, body_read_prefix().len() as int) =~= body_read_prefix());
            }
            Err(ClassifiedError::BodyReadFailed(d))
        },
    }
}

/// Fetches the URL's content as text. The URL must parse as an absolute
/// URL, or the call is rejected as invalid input with no network I/O; the
/// request carries the headers the policy resolves for the URL's host; a
/// response status outside 200..=299 is a failure carrying that code; on a
/// success status the decoded body text is returned. Exactly one request is
/// sent per invocation, and none at all for invalid input.
pub fn fetch(mgr: &mut ClientManager, target_url: &str) -> (r: Result<String, ClassifiedError>)
    ensures
        (r matches Err(e) && e is InvalidInput) <==> !url_parse_ok(target_url@),
        !url_parse_ok(target_url@) ==> (r matches Err(ClassifiedError::InvalidInput(m))
            && starts_with(m@, "Invalid URL: "@)),
        r matches Err(ClassifiedError::HttpStatusFailure(code, m)) ==> !(200 <= code <= 299) && 100
            <= code <= 999 && m@ == "HTTP "@ + spec_dec(code as int),
        r matches Err(ClassifiedError::ConnectFailed(m)) ==> starts_with(m@, connect_prefix()),
        r matches Err(ClassifiedError::TimedOut(m)) ==> starts_with(m@, timeout_prefix()),
        r matches Err(ClassifiedError::TransportOrTLSFailed(m)) ==> starts_with(
            m@,
            request_prefix(),
        ),
        r matches Err(ClassifiedError::Other(m)) ==> starts_with(m@, other_prefix())
            || starts_with(m@, client_build_prefix()),
        r matches Err(ClassifiedError::BodyReadFailed(m)) ==> starts_with(m@, body_read_prefix()),
        manager_reused(*old(mgr), *final(mgr)),
{
    let host = match parse_url_host(target_url) {
        Ok(h) => h,
        Err(raw) => {
            let mut m = "Invalid URL: ".to_owned();
            m.append(raw.as_str());
            proof {
                assert(m@.subrange(0, "Invalid URL: "@.len() as int) =~= "Invalid URL: "@);
            }
            return Err(ClassifiedError::InvalidInput(m));
        },
    };
    let headers = headers_for_host(host.as_str());

    let client = match mgr.get_or_init_client() {
        Ok(c) => c,
        Err(e) => {
            return Err(e);
        },
    };

    let mut rb = client_get(&client, target_url);
    let n = headers.len();
    let mut i: usize = 0;
    while i < n
        invariant
            n == headers@.len(),
            0 <= i <= n,
        decreases n - i,
    {
        rb = builder_header(rb, headers[i].0.as_str(), headers[i].1.as_str());
        i += 1;
    }

    let resp = match send_request(rb) {
        Ok(resp) => resp,
        Err(f) => {
            return Err(classify_transport_fault(&f));
        },
    };

    let status = response_status(&resp);
    if let Err(e) = fetch_status_gate(status) {
        return Err(e);
    }

    fetch_body_outcome(response_text(resp))
}

} // verus!
