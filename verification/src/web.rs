//! Which URLs are scraped, through the `url` crate's parser.

use url::Url;
use vstd::prelude::*;
use crate::pattern::opt_chars;
use crate::text::same_text;

verus! {

/// What `url::Url::parse` makes of the input: `None` where it fails, else
/// the URL's scheme (`Url::scheme`) and host (`Url::host_str`).
pub uninterp spec fn url_parse(input: Seq<char>) -> Option<(Seq<char>, Option<Seq<char>>)>;

/// The parts of a parsed URL that the scraper reads.
pub struct ParsedUrl {
    pub scheme: String,
    pub host: Option<String>,
}

/// The scheme and host of a parsed URL, as characters.
pub open spec fn parsed_view(p: Option<ParsedUrl>) -> Option<(Seq<char>, Option<Seq<char>>)> {
    match p {
        Some(u) => Some((u.scheme@, opt_chars(u.host))),
        None => None,
    }
}

/// Calls `url::Url::parse` and keeps the scheme and host of the result; the
/// result is the name `url_parse` of the input.
#[verifier::external_body]
fn parse_url(input: &str) -> (r: Option<ParsedUrl>)
    ensures
        parsed_view(r) == url_parse(input@),
{
    match Url::parse(input) {
        Ok(u) => {
            let host = match u.host_str() {
                Some(h) => Some(h.to_string()),
                None => None,
            };
            Some(ParsedUrl { scheme: u.scheme().to_string(), host })
        },
        Err(_) => None,
    }
}

/// The schemes that are scraped.
pub open spec fn is_web_scheme_spec(scheme: Seq<char>) -> bool {
    scheme == "http"@ || scheme == "https"@
}

/// Whether a URL is scraped: it parses, with scheme `http` or `https`.
pub open spec fn valid_url(url: Seq<char>) -> bool {
    match url_parse(url) {
        Some(p) => is_web_scheme_spec(p.0),
        None => false,
    }
}

/// The host of a URL that parses; empty where it has none.
pub open spec fn host_spec(url: Seq<char>) -> Seq<char> {
    match url_parse(url) {
        Some((_, Some(h))) => h,
        _ => Seq::empty(),
    }
}

/// Whether a scheme is `http` or `https`.
pub fn is_web_scheme(scheme: &str) -> (r: bool)
    ensures
        r == is_web_scheme_spec(scheme@),
{
    same_text(scheme, "http") || same_text(scheme, "https")
}

/// Whether a URL is scraped.
pub fn is_valid_url(url: &str) -> (r: bool)
    ensures
        r == valid_url(url@),
{
    match parse_url(url) {
        Some(u) => is_web_scheme(u.scheme.as_str()),
        None => false,
    }
}

/// The host of a URL that parses, or the empty string.
pub fn host(url: &str) -> (r: String)
    requires
        url_parse(url@) is Some,
    ensures
        r@ == host_spec(url@),
{
    match parse_url(url) {
        Some(u) => match u.host {
            Some(h) => h,
            None => String::new(),
        },
        None => String::new(),
    }
}

} // verus!
