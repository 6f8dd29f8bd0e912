//! The scraper's options, read from the parsed command line.

use vstd::prelude::*;
use crate::text::{parse_decimal, parse_spec};

verus! {

/// What the parsed command line holds for the arguments the scraper reads:
/// how often `URL` was given and its values, whether `--title` was given and
/// its value, the values of `--output`, `--throttle` and `--sleep`, and how
/// often each flag was given.
#[derive(Debug, Clone, PartialEq, Eq)]
pub struct Matches {
    pub url_occurrences: u64,
    pub urls: Option<Vec<String>>,
    pub title_present: bool,
    pub title: Option<String>,
    pub output: Option<String>,
    pub throttle: Option<String>,
    pub sleep: Option<String>,
    pub add_ordering_occurrences: u64,
    pub debug_occurrences: u64,
    pub nsfw_occurrences: u64,
    pub kpics_occurrences: u64,
}

/// The scraper's options.
#[derive(Debug, Clone, PartialEq, Eq)]
pub struct Options {
    pub debug: bool,
    pub kpics: bool,
    pub nsfw: bool,
    pub output: String,
    pub title: String,
    pub urls: Vec<String>,
    /// Seconds to wait between the downloads of one URL's images (0 for a
    /// `--throttle` value that is no whole number).
    pub throttle: u64,
    /// Seconds to wait between URLs (0 for a `--sleep` value that is no
    /// whole number).
    pub sleep: u64,
    /// Whether file names start with the image's position.
    pub add_ordering: bool,
}

/// `--title` names a single image, so it cannot stand with several URLs.
pub open spec fn conflicting(m: Matches) -> bool {
    m.url_occurrences > 1 && m.title_present
}

/// The seconds an optional `TIME` value gives: the whole number it spells;
/// no wait (0) where it is absent or spells no whole number of seconds.
pub open spec fn seconds_spec(o: Option<String>) -> u64 {
    match o {
        None => 0,
        Some(s) => match parse_spec(s@) {
            Some(n) => n,
            None => 0,
        },
    }
}

fn seconds(o: &Option<String>) -> (r: u64)
    ensures
        r == seconds_spec(*o),
{
    match o {
        None => 0,
        Some(s) => match parse_decimal(s.as_str()) {
            Some(n) => n,
            None => 0,
        },
    }
}

/// The value of an optional argument, empty where it is absent.
pub open spec fn or_empty(o: Option<String>) -> Seq<char> {
    match o {
        Some(s) => s@,
        None => Seq::empty(),
    }
}

fn value_or_empty(o: &Option<String>) -> (r: String)
    ensures
        r@ == or_empty(*o),
{
    match o {
        Some(s) => s.clone(),
        None => String::new(),
    }
}

impl Options {
    /// Reads the options; fails only on `--title` together with several
    /// URLs.
    pub fn new(matches: &Matches) -> (r: Result<Options, &'static str>)
        requires
            !conflicting(*matches) ==> matches.urls is Some,
        ensures
            r is Err <==> conflicting(*matches),
            r is Err <==> (matches.url_occurrences > 1 && matches.title_present),
            r matches Err(e) ==> e@ == "Conflicting options: '--title' and multiple URLs"@,
            r matches Ok(o) ==> {
                &&& o.urls@ == matches.urls->0@
                &&& o.title@ == or_empty(matches.title)
                &&& o.output@ == or_empty(matches.output)
                &&& o.debug == (matches.debug_occurrences > 0)
                &&& o.nsfw == (matches.nsfw_occurrences > 0)
                &&& o.kpics == (matches.kpics_occurrences > 0)
                &&& o.throttle == seconds_spec(matches.throttle)
                &&& o.sleep == seconds_spec(matches.sleep)
                &&& o.add_ordering == (matches.add_ordering_occurrences > 0)
            },
    {
        if matches.url_occurrences > 1 && matches.title_present {
            return Err("Conflicting options: '--title' and multiple URLs");
        }
        let throttle = seconds(&matches.throttle);
        let sleep = seconds(&matches.sleep);
        let urls = match &matches.urls {
            Some(u) => u.clone(),
            None => Vec::new(),
        };
        let title = value_or_empty(&matches.title);
        let output = value_or_empty(&matches.output);
        let debug = matches.debug_occurrences > 0;
        let nsfw = matches.nsfw_occurrences > 0;
        let kpics = matches.kpics_occurrences > 0;
        let add_ordering = matches.add_ordering_occurrences > 0;
        Ok(Options { debug, kpics, nsfw, output, title, urls, throttle, sleep, add_ordering })
    }
}

/// The options conflict exactly when `URL` was given more than once and
/// `--title` was given, whatever the other arguments.
pub proof fn lemma_conflict_is_title_with_urls(m: Matches)
    ensures
        conflicting(m) <==> (m.url_occurrences > 1 && m.title_present),
{
}

} // verus!
