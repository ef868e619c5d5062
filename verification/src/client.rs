//! The shared HTTP client: fixed configuration, constructed at most once per
//! manager, reused by every executor.

use vstd::prelude::*;
use vstd::string::*;
use crate::errors::ClassifiedError;

verus! {

/// Redirects are followed for at most this many hops.
pub const REDIRECT_LIMIT: usize = 10;

/// Total time budget for one request, in seconds.
pub const REQUEST_TIMEOUT_SECS: u64 = 30;

/// Time budget for establishing a connection, in seconds.
pub const CONNECT_TIMEOUT_SECS: u64 = 15;

#[verifier::external_type_specification]
#[verifier::external_body]
pub struct ExClient(reqwest::blocking::Client);

/// The prefix of the fatal client-construction error.
pub open spec fn client_build_prefix() -> Seq<char> {
    "Failed to create HTTP client: "@
}

/// Relies on reqwest::blocking::ClientBuilder: `redirect` with
/// `Policy::limited`, `timeout` and `connect_timeout` configure the client as
/// requested, and `build` returns a client or the backend's construction
/// error, rendered as text. The blocking client must be constructed and used
/// outside any async runtime, or reqwest panics; the whole library and its
/// shell are synchronous.
#[verifier::external_body]
fn build_client(redirect_limit: usize, timeout_secs: u64, connect_timeout_secs: u64) -> (r: Result<
    reqwest::blocking::Client,
    String,
>) {
    reqwest::blocking::Client::builder()
        .redirect(reqwest::redirect::Policy::limited(redirect_limit))
        .timeout(std::time::Duration::from_secs(timeout_secs))
        .connect_timeout(std::time::Duration::from_secs(connect_timeout_secs))
        .build()
        .map_err(|e| format!("{e}"))
}

/// Relies on reqwest::blocking::Client::clone: the client is internally
/// reference-counted, so a clone is the same client, sharing one connection
/// pool and one configuration.
#[verifier::external_body]
pub(crate) fn clone_client(c: &reqwest::blocking::Client) -> (r: reqwest::blocking::Client)
    ensures
        r == *c,
{
    c.clone()
}

/// The manager after an executor's call: either untouched, or initialized
/// by this very call as its first and only construction.
pub open spec fn manager_reused(pre: ClientManager, post: ClientManager) -> bool {
    post == pre || (!pre.is_initialized() && post.is_initialized() && post.spec_init_count() == 1)
}

/// Owns the one client of the process. The process-wide caller keeps a single
/// manager (behind its once-initialized cell); every executor borrows it.
pub struct ClientManager {
    client: Option<reqwest::blocking::Client>,
    init_count: u64,
}

impl ClientManager {
    /// The client, if one has been constructed.
    pub closed spec fn spec_client(&self) -> Option<reqwest::blocking::Client> {
        self.client
    }

    /// How many times a client has been constructed by this manager.
    pub closed spec fn spec_init_count(&self) -> u64 {
        self.init_count
    }

    pub open spec fn is_initialized(&self) -> bool {
        self.spec_client() is Some
    }

    /// A fresh manager: no client yet, none constructed.
    pub fn new() -> (r: ClientManager)
        ensures
            !r.is_initialized(),
            r.spec_init_count() == 0,
    {
        ClientManager { client: None, init_count: 0 }
    }

    /// The number of client constructions this manager has performed.
    pub fn init_count(&self) -> (r: u64)
        ensures
            r == self.spec_init_count(),
    {
        self.init_count
    }

    /// Returns the shared client, constructing it under the fixed
    /// configuration on first use. A caller that finds the client already
    /// present gets that same client back and the manager is left untouched:
    /// a second client is never constructed. Construction failure is fatal
    /// for the call and leaves the manager uninitialized.
    pub fn get_or_init_client(&mut self) -> (r: Result<
        reqwest::blocking::Client,
        ClassifiedError,
    >)
        ensures
            old(self).is_initialized() ==> *final(self) == *old(self) && (r matches Ok(c)
                && old(self).spec_client() == Some(c)),
            r matches Ok(c) ==> final(self).spec_client() == Some(c),
            r is Ok && !old(self).is_initialized() ==> final(self).spec_init_count() == 1,
            r matches Err(e) ==> *final(self) == *old(self) && !old(self).is_initialized() && (
            e matches ClassifiedError::Other(m) && crate::text::starts_with(
                m@,
                client_build_prefix(),
            )),
    {
        match &self.client {
            Some(c) => Ok(clone_client(c)),
            None => {
                match build_client(REDIRECT_LIMIT, REQUEST_TIMEOUT_SECS, CONNECT_TIMEOUT_SECS) {
                    Ok(c) => {
                        let handle = clone_client(&c);
                        self.client = Some(c);
                        self.init_count = 1;
                        Ok(handle)
                    },
                    Err(raw) => {
                        let mut m = "Failed to create HTTP client: ".to_owned();
                        m.append(raw.as_str());
                        proof {
                            assert(m@.subrange(0, client_build_prefix().len() as int)
                                =~= client_build_prefix());
                        }
                        Err(ClassifiedError::Other(m))
                    },
                }
            },
        }
    }
}

} // verus!
