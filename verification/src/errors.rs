//! The closed error taxonomy of the fetch layer, and the pure mapping from
//! transport faults into it.

use vstd::prelude::*;
use vstd::string::*;

verus! {

/// Everything that can go wrong in the fetch layer, each variant carrying a
/// human-readable detail string.
#[derive(Debug)]
pub enum ClassifiedError {
    /// Malformed URL, unsupported method, or invalid header name or value.
    /// Raised before any network I/O is attempted.
    InvalidInput(String),
    /// DNS resolution or TCP/TLS connection establishment failed.
    ConnectFailed(String),
    /// The overall or connect-phase timeout elapsed.
    TimedOut(String),
    /// The request could not be framed or sent correctly, as distinct from a
    /// connection-establishment failure.
    TransportOrTLSFailed(String),
    /// The response carried a status code outside 200..=299; content-fetch
    /// path only.
    HttpStatusFailure(u16, String),
    /// A response arrived but its body could not be fully read or decoded.
    BodyReadFailed(String),
    /// Any transport failure that fits no other category, and the fatal
    /// failure to construct the shared client.
    Other(String),
}

impl ClassifiedError {
    /// The detail string carried by the error, whatever its variant.
    pub open spec fn spec_detail(&self) -> Seq<char> {
        match self {
            ClassifiedError::InvalidInput(m) => m@,
            ClassifiedError::ConnectFailed(m) => m@,
            ClassifiedError::TimedOut(m) => m@,
            ClassifiedError::TransportOrTLSFailed(m) => m@,
            ClassifiedError::HttpStatusFailure(_, m) => m@,
            ClassifiedError::BodyReadFailed(m) => m@,
            ClassifiedError::Other(m) => m@,
        }
    }

    /// The detail string carried by the error.
    pub fn detail(&self) -> (r: &String)
        ensures
            r@ == self.spec_detail(),
    {
        match self {
            ClassifiedError::InvalidInput(m) => m,
            ClassifiedError::ConnectFailed(m) => m,
            ClassifiedError::TimedOut(m) => m,
            ClassifiedError::TransportOrTLSFailed(m) => m,
            ClassifiedError::HttpStatusFailure(_, m) => m,
            ClassifiedError::BodyReadFailed(m) => m,
            ClassifiedError::Other(m) => m,
        }
    }
}

/// A transport failure as reported by the HTTP backend, already sorted into
/// the four shapes the backend can distinguish. Produced only by the trusted
/// send wrapper; consumed by the pure classifier below.
#[derive(Debug)]
pub enum TransportFault {
    /// Connection establishment (DNS, TCP, TLS handshake) failed.
    Connect(String),
    /// A timeout elapsed.
    Timeout(String),
    /// The request could not be framed or sent.
    Request(String),
    /// Anything else.
    Other(String),
}

pub open spec fn connect_prefix() -> Seq<char> {
    "Connection failed: "@
}

pub open spec fn timeout_prefix() -> Seq<char> {
    "Timeout: "@
}

pub open spec fn request_prefix() -> Seq<char> {
    "TLS/Request error: "@
}

pub open spec fn other_prefix() -> Seq<char> {
    "Request failed: "@
}

pub open spec fn body_read_prefix() -> Seq<char> {
    "Failed to read response body: "@
}

/// Maps a transport fault 1:1 into the error taxonomy, prefixing the detail
/// with the category's description.
pub fn classify_transport_fault(f: &TransportFault) -> (r: ClassifiedError)
    ensures
        f matches TransportFault::Connect(m) ==> (r matches ClassifiedError::ConnectFailed(d)
            && d@ == connect_prefix() + m@),
        f matches TransportFault::Timeout(m) ==> (r matches ClassifiedError::TimedOut(d)
            && d@ == timeout_prefix() + m@),
        f matches TransportFault::Request(m) ==> (r
            matches ClassifiedError::TransportOrTLSFailed(d) && d@ == request_prefix() + m@),
        f matches TransportFault::Other(m) ==> (r matches ClassifiedError::Other(d) && d@
            == other_prefix() + m@),
        r is ConnectFailed || r is TimedOut || r is TransportOrTLSFailed || r is Other,
        r matches ClassifiedError::ConnectFailed(d) ==> crate::text::starts_with(
            d@,
            connect_prefix(),
        ),
        r matches ClassifiedError::TimedOut(d) ==> crate::text::starts_with(d@, timeout_prefix()),
        r matches ClassifiedError::TransportOrTLSFailed(d) ==> crate::text::starts_with(
            d@,
            request_prefix(),
        ),
        r matches ClassifiedError::Other(d) ==> crate::text::starts_with(d@, other_prefix()),
{
    match f {
        TransportFault::Connect(m) => {
            let mut s = "Connection failed: ".to_owned();
            s.append(m.as_str());
            proof {
                assert(s@.subrange(0, connect_prefix().len() as int) =~= connect_prefix());
            }
            ClassifiedError::ConnectFailed(s)
        },
        TransportFault::Timeout(m) => {
            let mut s = "Timeout: ".to_owned();
            s.append(m.as_str());
            proof {
                assert(s@.subrange(0, timeout_prefix().len() as int) =~= timeout_prefix());
            }
            ClassifiedError::TimedOut(s)
        },
        TransportFault::Request(m) => {
            let mut s = "TLS/Request error: ".to_owned();
            s.append(m.as_str());
            proof {
                assert(s@.subrange(0, request_prefix().len() as int) =~= request_prefix());
            }
            ClassifiedError::TransportOrTLSFailed(s)
        },
        TransportFault::Other(m) => {
            let mut s = "Request failed: ".to_owned();
            s.append(m.as_str());
            proof {
                assert(s@.subrange(0, other_prefix().len() as int) =~= other_prefix());
            }
            ClassifiedError::Other(s)
        },
    }
}

} // verus!
