//! Host-adaptive header policy: an ordered rule list evaluated top-down
//! against the destination host, with an explicit default rule.
//!
//! Hosts that aggregate user content block generic clients, so they receive a
//! browser identity; feed endpoints of the video platform expect a
//! feed-reader identity instead.

use vstd::prelude::*;
use vstd::string::*;
use crate::text::{contains_seq, contains_str};

verus! {

pub open spec fn spec_browser_user_agent() -> Seq<char> {
    "Mozilla/5.0 (Windows NT 10.0; Win64; x64) AppleWebKit/537.36 (KHTML, like Gecko) Chrome/120.0.0.0 Safari/537.36"@
}

pub open spec fn spec_rss_user_agent() -> Seq<char> {
    "SuperFlux/1.0 (RSS Reader; +https://github.com/user/superflux)"@
}

pub open spec fn spec_html_accept() -> Seq<char> {
    "text/html,application/xhtml+xml,application/xml;q=0.9,*/*;q=0.8"@
}

pub open spec fn spec_feed_accept() -> Seq<char> {
    "application/atom+xml, application/xml, text/xml, */*"@
}

pub open spec fn spec_accept_language() -> Seq<char> {
    "en-US,en;q=0.9,fr;q=0.8"@
}

/// The full desktop-browser User-Agent sent to hosts that block non-browser
/// clients.
pub fn browser_user_agent() -> (r: &'static str)
    ensures
        r@ == spec_browser_user_agent(),
{
    "Mozilla/5.0 (Windows NT 10.0; Win64; x64) AppleWebKit/537.36 (KHTML, like Gecko) Chrome/120.0.0.0 Safari/537.36"
}

/// The application-identifying User-Agent sent to feed endpoints.
pub fn rss_user_agent() -> (r: &'static str)
    ensures
        r@ == spec_rss_user_agent(),
{
    "SuperFlux/1.0 (RSS Reader; +https://github.com/user/superflux)"
}

/// The name-value pairs of a header set, as character sequences.
pub open spec fn header_views(hs: Seq<(String, String)>) -> Seq<(Seq<char>, Seq<char>)> {
    Seq::new(hs.len(), |i: int| (hs[i].0@, hs[i].1@))
}

/// The browser-identifying header triple: rule 1 and the default rule.
pub open spec fn browser_policy() -> Seq<(Seq<char>, Seq<char>)> {
    seq![
        ("User-Agent"@, spec_browser_user_agent()),
        ("Accept"@, spec_html_accept()),
        ("Accept-Language"@, spec_accept_language()),
    ]
}

/// The feed-reader header pair: rule 2.
pub open spec fn feed_policy() -> Seq<(Seq<char>, Seq<char>)> {
    seq![("User-Agent"@, spec_rss_user_agent()), ("Accept"@, spec_feed_accept())]
}

/// The host fragment of the aggregation-site rule.
pub open spec fn spec_aggregation_fragment() -> Seq<char> {
    "reddit.com"@
}

/// The host fragment of the video-platform rule.
pub open spec fn spec_video_fragment() -> Seq<char> {
    "youtube.com"@
}

/// The resolved policy for a destination host: the rules are evaluated in
/// order, first match wins, and the browser triple is the explicit default.
pub open spec fn spec_policy_for_host(host: Seq<char>) -> Seq<(Seq<char>, Seq<char>)> {
    if contains_seq(host, spec_aggregation_fragment()) {
        browser_policy()
    } else if contains_seq(host, spec_video_fragment()) {
        feed_policy()
    } else {
        browser_policy()
    }
}

fn push_header(hs: &mut Vec<(String, String)>, name: &str, value: &str)
    ensures
        final(hs)@.len() == old(hs)@.len() + 1,
        header_views(final(hs)@) =~= header_views(old(hs)@).push((name@, value@)),
{
    hs.push((name.to_owned(), value.to_owned()));
}

fn browser_headers() -> (r: Vec<(String, String)>)
    ensures
        header_views(r@) =~= browser_policy(),
{
    let mut hs: Vec<(String, String)> = Vec::new();
    assert(header_views(hs@) =~= Seq::<(Seq<char>, Seq<char>)>::empty());
    push_header(&mut hs, "User-Agent", browser_user_agent());
    push_header(&mut hs, "Accept", "text/html,application/xhtml+xml,application/xml;q=0.9,*/*;q=0.8");
    push_header(&mut hs, "Accept-Language", "en-US,en;q=0.9,fr;q=0.8");
    hs
}

fn feed_headers() -> (r: Vec<(String, String)>)
    ensures
        header_views(r@) =~= feed_policy(),
{
    let mut hs: Vec<(String, String)> = Vec::new();
    assert(header_views(hs@) =~= Seq::<(Seq<char>, Seq<char>)>::empty());
    push_header(&mut hs, "User-Agent", rss_user_agent());
    push_header(&mut hs, "Accept", "application/atom+xml, application/xml, text/xml, */*");
    hs
}

/// Resolves the header policy for a destination host by evaluating the rule
/// list in order, falling back to the browser triple.
pub fn headers_for_host(host: &str) -> (r: Vec<(String, String)>)
    ensures
        header_views(r@) == spec_policy_for_host(host@),
{
    let r = if contains_str(host, "reddit.com") {
        browser_headers()
    } else if contains_str(host, "youtube.com") {
        feed_headers()
    } else {
        browser_headers()
    };
    assert(header_views(r@) =~= spec_policy_for_host(host@));
    r
}

/// Every resolved policy carries a User-Agent header as its first entry.
pub proof fn lemma_policy_has_user_agent(host: Seq<char>)
    ensures
        spec_policy_for_host(host).len() >= 1,
        spec_policy_for_host(host)[0].0 == "User-Agent"@,
{
}

/// Law of the aggregation-site rule: a host containing the aggregation
/// fragment resolves to the browser triple, whose User-Agent is the fixed
/// browser string and whose Accept value includes "text/html".
pub proof fn lemma_aggregation_rule(host: Seq<char>)
    requires
        contains_seq(host, spec_aggregation_fragment()),
    ensures
        spec_policy_for_host(host) == browser_policy(),
        spec_policy_for_host(host)[0].1 == spec_browser_user_agent(),
        contains_seq(spec_policy_for_host(host)[1].1, "text/html"@),
{
    reveal_strlit("text/html,application/xhtml+xml,application/xml;q=0.9,*/*;q=0.8");
    reveal_strlit("text/html");
    assert(spec_html_accept().subrange(0, 9) =~= "text/html"@);
    assert(crate::text::contains_at(spec_html_accept(), "text/html"@, 0));
}

/// Law of the video-platform rule: a host containing the video fragment, and
/// not the aggregation fragment that is checked first, resolves to the
/// feed-reader pair, whose User-Agent is the fixed application string and
/// whose Accept value includes "atom+xml".
pub proof fn lemma_video_rule(host: Seq<char>)
    requires
        !contains_seq(host, spec_aggregation_fragment()),
        contains_seq(host, spec_video_fragment()),
    ensures
        spec_policy_for_host(host) == feed_policy(),
        spec_policy_for_host(host)[0].1 == spec_rss_user_agent(),
        contains_seq(spec_policy_for_host(host)[1].1, "atom+xml"@),
{
    reveal_strlit("application/atom+xml, application/xml, text/xml, */*");
    reveal_strlit("atom+xml");
    assert(spec_feed_accept().subrange(12, 20) =~= "atom+xml"@);
    assert(crate::text::contains_at(spec_feed_accept(), "atom+xml"@, 12));
}

/// Law of the default rule: a host matching no specific rule resolves to the
/// same browser triple as the aggregation rule.
pub proof fn lemma_default_rule(host: Seq<char>)
    requires
        !contains_seq(host, spec_aggregation_fragment()),
        !contains_seq(host, spec_video_fragment()),
    ensures
        spec_policy_for_host(host) == browser_policy(),
{
}

} // verus!
