//! Header wire-format validity and the default User-Agent injection of the
//! generic request path.

use vstd::prelude::*;
use vstd::string::*;
use crate::policy::{browser_user_agent, header_views, spec_browser_user_agent};
use crate::text::{eq_ascii_case, eq_ignore_ascii_case};

verus! {

/// A character the HTTP wire format accepts in a header name: the token set
/// `! # $ % & ' * + - . 0-9 A-Z ^ _ ` a-z | ~` (uppercase letters are
/// normalized to lowercase by the backend, so they are accepted).
pub open spec fn valid_header_name_char(c: char) -> bool {
    ||| c as u32 == 33
    ||| 35 <= c as u32 <= 39
    ||| c as u32 == 42
    ||| c as u32 == 43
    ||| c as u32 == 45
    ||| c as u32 == 46
    ||| 48 <= c as u32 <= 57
    ||| 65 <= c as u32 <= 90
    ||| 94 <= c as u32 <= 96
    ||| 97 <= c as u32 <= 122
    ||| c as u32 == 124
    ||| c as u32 == 126
}

/// A well-formed header name: non-empty, at most 65535 bytes, every
/// character from the token set.
pub open spec fn valid_header_name(s: Seq<char>) -> bool {
    &&& 1 <= s.len() <= 65535
    &&& forall|i: int| 0 <= i < s.len() ==> valid_header_name_char(s[i])
}

/// A character the HTTP wire format accepts in a header value: horizontal
/// tab, or anything that is neither a control character nor DEL.
pub open spec fn valid_header_value_char(c: char) -> bool {
    c == '\t' || (32 <= c as u32 && c as u32 != 127)
}

/// A well-formed header value: every character acceptable on the wire.
pub open spec fn valid_header_value(s: Seq<char>) -> bool {
    forall|i: int| 0 <= i < s.len() ==> valid_header_value_char(s[i])
}

/// Relies on http's HeaderName::from_bytes (reqwest::header::HeaderName):
/// a name is accepted exactly when it is 1..=65535 bytes, each from the
/// HTTP/1 token table; every byte outside the ASCII token set, in
/// particular every non-ASCII byte, is rejected.
#[verifier::external_body]
pub(crate) fn check_header_name(s: &str) -> (r: bool)
    ensures
        r == valid_header_name(s@),
{
    reqwest::header::HeaderName::from_bytes(s.as_bytes()).is_ok()
}

/// Relies on http's HeaderValue::from_str (reqwest::header::HeaderValue): a
/// value is accepted exactly when every byte is 32.., not 127, or tab; the
/// bytes of a non-ASCII character are all 128.., so such characters are
/// always accepted.
#[verifier::external_body]
pub(crate) fn check_header_value(s: &str) -> (r: bool)
    ensures
        r == valid_header_value(s@),
{
    reqwest::header::HeaderValue::from_str(s).is_ok()
}

/// Some entry of the header list names the User-Agent header, compared
/// case-insensitively.
pub open spec fn spec_has_user_agent(hs: Seq<(String, String)>) -> bool {
    exists|i: int| 0 <= i < hs.len() && eq_ascii_case(hs[i].0@, "user-agent"@)
}

/// Whether the caller supplied a User-Agent header of their own.
pub fn has_user_agent(headers: &Vec<(String, String)>) -> (r: bool)
    ensures
        r == spec_has_user_agent(headers@),
{
    let n = headers.len();
    let mut i: usize = 0;
    while i < n
        invariant
            n == headers@.len(),
            0 <= i <= n,
            forall|k: int| 0 <= k < i ==> !eq_ascii_case(headers@[k].0@, "user-agent"@),
        decreases n - i,
    {
        if eq_ignore_ascii_case(headers[i].0.as_str(), "user-agent") {
            return true;
        }
        i += 1;
    }
    false
}

/// The header list the generic executor sends: the caller's headers
/// verbatim, with the default browser User-Agent appended exactly when the
/// caller supplied none (case-insensitive check).
pub fn with_default_user_agent(headers: Vec<(String, String)>) -> (r: Vec<(String, String)>)
    ensures
        spec_has_user_agent(headers@) ==> r == headers,
        !spec_has_user_agent(headers@) ==> r@.len() == headers@.len() + 1 && r@.subrange(
            0,
            headers@.len() as int,
        ) =~= headers@ && header_views(r@) =~= header_views(headers@).push(
            ("User-Agent"@, spec_browser_user_agent()),
        ),
        spec_has_user_agent(r@),
{
    let mut hs = headers;
    if !has_user_agent(&hs) {
        let ghost before = hs@;
        hs.push(("User-Agent".to_owned(), browser_user_agent().to_owned()));
        proof {
            assert(header_views(hs@) =~= header_views(before).push(
                ("User-Agent"@, spec_browser_user_agent()),
            ));
            reveal_strlit("User-Agent");
            reveal_strlit("user-agent");
            assert(eq_ascii_case(hs@[hs@.len() - 1].0@, "user-agent"@));
        }
    }
    hs
}

} // verus!
