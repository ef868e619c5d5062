//! The diagnostics probe: one GET against a fixed well-known endpoint, with
//! the client's default headers, to tell whether outbound HTTPS works at
//! all.

use vstd::prelude::*;
use vstd::string::*;
use crate::client::{client_build_prefix, manager_reused, ClientManager};
use crate::errors::{
    classify_transport_fault, connect_prefix, other_prefix, request_prefix, timeout_prefix,
    ClassifiedError,
};
use crate::text::{spec_dec, starts_with, u16_to_dec_string};
use crate::transport::{client_get, response_status, send_request};

verus! {

pub open spec fn spec_probe_url() -> Seq<char> {
    "https://httpbin.org/get"@
}

/// The fixed well-known endpoint the probe targets.
pub fn probe_url() -> (r: &'static str)
    ensures
        r@ == spec_probe_url(),
{
    "https://httpbin.org/get"
}

/// The success message of the probe, embedding the observed status code.
pub open spec fn spec_probe_message(code: int) -> Seq<char> {
    "OK: https://httpbin.org/get -> HTTP "@ + spec_dec(code)
}

/// Issues one GET to the fixed endpoint with default headers, no
/// host-adaptive policy. Any response at all is success, reported with the
/// observed status code; a transport failure is classified with the same
/// taxonomy as the content-fetch path. Inputs cannot be invalid, statuses
/// are reported rather than judged, and no body is read, so only transport
/// categories can come back.
pub fn check_network(mgr: &mut ClientManager) -> (r: Result<String, ClassifiedError>)
    ensures
        r matches Ok(m) ==> exists|code: int|
            100 <= code <= 999 && m@ == spec_probe_message(code),
        r matches Err(e) ==> (e is ConnectFailed || e is TimedOut || e is TransportOrTLSFailed
            || e is Other),
        r matches Err(ClassifiedError::ConnectFailed(m)) ==> starts_with(m@, connect_prefix()),
        r matches Err(ClassifiedError::TimedOut(m)) ==> starts_with(m@, timeout_prefix()),
        r matches Err(ClassifiedError::TransportOrTLSFailed(m)) ==> starts_with(
            m@,
            request_prefix(),
        ),
        r matches Err(ClassifiedError::Other(m)) ==> starts_with(m@, other_prefix())
            || starts_with(m@, client_build_prefix()),
        manager_reused(*old(mgr), *final(mgr)),
{
    let client = match mgr.get_or_init_client() {
        Ok(c) => c,
        Err(e) => {
            return Err(e);
        },
    };
    let rb = client_get(&client, probe_url());
    match send_request(rb) {
        Ok(resp) => {
            let status = response_status(&resp);
            let mut m = "OK: https://httpbin.org/get -> HTTP ".to_owned();
            m.append(u16_to_dec_string(status).as_str());
            proof {
                assert(m@ == spec_probe_message(status as int));
            }
            Ok(m)
        },
        Err(f) => Err(classify_transport_fault(&f)),
    }
}

} // verus!
