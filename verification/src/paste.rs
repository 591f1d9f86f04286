//! The paste resolver's planning half: decide whether a URL belongs to a
//! configured paste site and, if so, which URL to fetch the raw text from.
//! The fetch itself is the caller's job.

use vstd::prelude::*;
use vstd::string::StringExecFns;
use crate::config::{Group, GroupV, PasteSiteV};
use crate::text::{contains_seq, replace_seq, str_contains, strip_leading_slashes, strip_slashes, replace_all};

verus! {

/// Whether `s` parses as an absolute URL, as the URL parser decides it; a
/// function of the string alone.
pub uninterp spec fn url_ok(s: Seq<char>) -> bool;

/// The registered domain name of the parsed URL `s`, or nothing when its host
/// is not a domain name; a function of the string alone.
pub uninterp spec fn url_domain_of(s: Seq<char>) -> Option<Seq<char>>;

/// The path component of the parsed URL `s`; a function of the string alone.
pub uninterp spec fn url_path_of(s: Seq<char>) -> Seq<char>;

/// Relies on url::Url::parse, whose success depends on the input string
/// alone, and on Url::domain and Url::path, which read components of the
/// parse result. The three are chained here because a parsed URL cannot be
/// tied to its input string across the trusted boundary.
#[verifier::external_body]
fn parse_url_parts(s: &str) -> (r: Option<(Option<String>, String)>)
    ensures
        r is Some <==> url_ok(s@),
        r matches Some(parts) ==> parts.0.deep_view() == url_domain_of(s@)
            && parts.1@ == url_path_of(s@),
{
    match url::Url::parse(s) {
        Ok(u) => Some((u.domain().map(|d| d.to_string()), u.path().to_string())),
        Err(_) => None,
    }
}

/// The index of the first configured paste site whose domain equals `host`,
/// scanning from position `i`.
pub open spec fn site_scan(sites: Seq<PasteSiteV>, host: Seq<char>, i: int) -> Option<int>
    decreases sites.len() - i when 0 <= i <= sites.len()
{
    if i >= sites.len() {
        None
    } else if sites[i].domain == host {
        Some(i)
    } else {
        site_scan(sites, host, i + 1)
    }
}

proof fn lemma_site_scan_step(sites: Seq<PasteSiteV>, host: Seq<char>, i: int)
    requires
        0 <= i <= sites.len(),
        forall|j: int| 0 <= j < i ==> sites[j].domain != host,
    ensures
        site_scan(sites, host, 0) == site_scan(sites, host, i),
    decreases i,
{
    if i > 0 {
        lemma_site_scan_step(sites, host, i - 1);
    }
}

/// The URL to fetch raw paste text from: the URL itself when it already
/// denotes a raw path (holds the token `raw`), else the site's template with
/// the URL's path, leading slashes stripped, substituted for the
/// `&filename&` placeholder.
pub open spec fn fetch_url_spec(format: Seq<char>, url: Seq<char>) -> Seq<char> {
    if contains_seq(url, "raw"@) {
        url
    } else {
        replace_seq(format, "&filename&"@, strip_slashes(url_path_of(url)))
    }
}

/// The paste resolver's decision for a URL under a group's paste table.
#[derive(Debug, Clone, PartialEq)]
pub enum PasteDecision {
    /// The URL belongs to a configured paste site: fetch this raw URL.
    Fetch(String),
    /// The URL parses but belongs to no configured paste site.
    NotPaste,
    /// The URL does not parse.
    BadUrl,
}

pub enum PasteDecisionV {
    Fetch(Seq<char>),
    NotPaste,
    BadUrl,
}

impl View for PasteDecision {
    type V = PasteDecisionV;

    open spec fn view(&self) -> PasteDecisionV {
        match self {
            PasteDecision::Fetch(u) => PasteDecisionV::Fetch(u@),
            PasteDecision::NotPaste => PasteDecisionV::NotPaste,
            PasteDecision::BadUrl => PasteDecisionV::BadUrl,
        }
    }
}

/// What the paste planner decides for `url` under group `g`: unparseable
/// URLs are rejected; a URL whose host is no configured site's domain (or is
/// no domain name at all) is not a paste; otherwise the first matching
/// site's template determines the fetch URL.
pub open spec fn paste_decision_spec(g: GroupV, url: Seq<char>) -> PasteDecisionV {
    if !url_ok(url) {
        PasteDecisionV::BadUrl
    } else {
        match url_domain_of(url) {
            None => PasteDecisionV::NotPaste,
            Some(host) => match site_scan(g.paste_sites, host, 0) {
                None => PasteDecisionV::NotPaste,
                Some(k) => PasteDecisionV::Fetch(fetch_url_spec(g.paste_sites[k].format, url)),
            },
        }
    }
}

/// Decide whether `url` belongs to one of the group's paste sites and build
/// the raw-content URL to fetch when it does. First matching site, in
/// configured order, wins.
pub fn paste_plan(group: &Group, url: &String) -> (r: PasteDecision)
    ensures
        r@ == paste_decision_spec(group@, url@),
{
    match parse_url_parts(url.as_str()) {
        None => PasteDecision::BadUrl,
        Some((domain_opt, path)) => {
            match domain_opt {
                None => PasteDecision::NotPaste,
                Some(host) => {
                    let n = group.paste_sites.len();
                    let mut i: usize = 0;
                    while i < n
                        invariant
                            n == group.paste_sites.len(),
                            i <= n,
                            group@.paste_sites.len() == n,
                            url_ok(url@),
                            url_domain_of(url@) == Some(host@),
                            path@ == url_path_of(url@),
                            forall|j: int|
                                0 <= j < n ==> group@.paste_sites[j] == group.paste_sites[j]@,
                            forall|j: int|
                                0 <= j < i ==> group@.paste_sites[j].domain != host@,
                        decreases n - i,
                    {
                        if group.paste_sites[i].domain.eq(&host) {
                            proof {
                                lemma_site_scan_step(group@.paste_sites, host@, i as int);
                                assert(site_scan(group@.paste_sites, host@, i as int)
                                    == Some(i as int));
                            }
                            let raw_url = build_fetch_url(&group.paste_sites[i].format, url, &path);
                            return PasteDecision::Fetch(raw_url);
                        }
                        i += 1;
                    }
                    proof {
                        lemma_site_scan_step(group@.paste_sites, host@, n as int);
                    }
                    PasteDecision::NotPaste
                },
            }
        },
    }
}

/// Build the raw-content URL for a matched site: the URL unchanged when it
/// already holds the token `raw`, else the template with the path (leading
/// slashes stripped) substituted for the placeholder.
fn build_fetch_url(format: &String, url: &String, path: &String) -> (r: String)
    requires
        path@ == url_path_of(url@),
    ensures
        r@ == fetch_url_spec(format@, url@),
{
    if str_contains(url.as_str(), "raw") {
        url.clone()
    } else {
        proof {
            reveal_strlit("&filename&");
        }
        let stripped = strip_leading_slashes(path.as_str());
        replace_all(format.as_str(), "&filename&", stripped)
    }
}

} // verus!
