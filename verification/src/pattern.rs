//! Regular expressions, through the `regex` crate.

use regex::Regex;
use vstd::prelude::*;

verus! {

/// Whether `regex::Regex::new` accepts the pattern.
pub uninterp spec fn regex_compiles(pattern: Seq<char>) -> bool;

/// What `regex::Regex::is_match` answers for the compiled pattern and the text.
pub uninterp spec fn regex_is_match(pattern: Seq<char>, text: Seq<char>) -> bool;

/// What `regex::Regex::captures` returns for the compiled pattern and the
/// text: `None` where nothing matches, else the text of each group (group 0
/// is the whole match; `None` for a group that took no part in it).
pub uninterp spec fn regex_captures(pattern: Seq<char>, text: Seq<char>) -> Option<
    Seq<Option<Seq<char>>>,
>;

/// The characters of an optional string.
pub open spec fn opt_chars(o: Option<String>) -> Option<Seq<char>> {
    match o {
        Some(s) => Some(s@),
        None => None,
    }
}

/// The characters of each group of a capture.
pub open spec fn groups_view(groups: Seq<Option<String>>) -> Seq<Option<Seq<char>>> {
    groups.map_values(|g: Option<String>| opt_chars(g))
}

/// The group `i` of a capture, where it exists and took part in the match.
pub open spec fn group(groups: Seq<Option<Seq<char>>>, i: int) -> Option<Seq<char>> {
    if 0 <= i < groups.len() {
        groups[i]
    } else {
        None
    }
}

/// A character that is no special character of the regex syntax, so that
/// it matches itself.
pub open spec fn literal_char(c: char) -> bool {
    ('a' <= c <= 'z') || ('A' <= c <= 'Z') || ('0' <= c <= '9') || c == '/' || c == '_'
}

/// A non-empty pattern of such characters only.
pub open spec fn plain_literal(p: Seq<char>) -> bool {
    p.len() > 0 && forall|i: int| 0 <= i < p.len() ==> literal_char(#[trigger] p[i])
}

/// Whether `lit` occurs in `text`.
pub open spec fn contains_text(text: Seq<char>, lit: Seq<char>) -> bool {
    exists|i: int| 0 <= i <= text.len() - lit.len() && #[trigger] text.subrange(i, i + lit.len()) == lit
}

/// `regex::Regex::new(pattern).is_ok()`: the result is the name
/// `regex_compiles` of the pattern. A short pattern (at most 1000
/// characters, far below the default compiled-size limit) made of plain
/// characters, or of two such alternatives joined by `|`, is valid regex
/// syntax (each plain character matches itself; `x|y` is alternation), so
/// it compiles.
#[verifier::external_body]
pub(crate) fn pattern_compiles(pattern: &str) -> (r: bool)
    ensures
        r == regex_compiles(pattern@),
        plain_literal(pattern@) && pattern@.len() <= 1000 ==> r,
        forall|a: Seq<char>, b: Seq<char>|
            #![trigger a + seq!['|'] + b]
            pattern@ == a + seq!['|'] + b && plain_literal(a) && plain_literal(b) && pattern@.len()
                <= 1000 ==> r,
{
    Regex::new(pattern).is_ok()
}

/// Compiles the pattern (`regex::Regex::new`, which succeeds by the
/// `requires`) and calls `regex::Regex::is_match` on the text; the result is
/// the name `regex_is_match` of the two. `is_match` tells whether the
/// pattern matches anywhere in the text: for a pattern of plain characters,
/// whether the text contains it; for two such alternatives joined by `|`,
/// whether the text contains either.
#[verifier::external_body]
pub(crate) fn matches_pattern(pattern: &str, text: &str) -> (r: bool)
    requires
        regex_compiles(pattern@),
    ensures
        r == regex_is_match(pattern@, text@),
        plain_literal(pattern@) ==> r == contains_text(text@, pattern@),
        forall|a: Seq<char>, b: Seq<char>|
            #![trigger a + seq!['|'] + b]
            pattern@ == a + seq!['|'] + b && plain_literal(a) && plain_literal(b) ==> r == (
            contains_text(text@, a) || contains_text(text@, b)),
{
    Regex::new(pattern).unwrap().is_match(text)
}

/// Compiles the pattern (`regex::Regex::new`, which succeeds by the
/// `requires`) and calls `regex::Regex::captures` on the text, each group
/// turned into an owned string; the result is the name `regex_captures`.
/// `captures` returns `None` exactly where there is no match, that is where
/// `is_match` is false.
#[verifier::external_body]
pub(crate) fn capture_groups(pattern: &str, text: &str) -> (r: Option<Vec<Option<String>>>)
    requires
        regex_compiles(pattern@),
    ensures
        match r {
            Some(g) => regex_captures(pattern@, text@) == Some(groups_view(g@)),
            None => regex_captures(pattern@, text@) is None,
        },
        r is Some <==> regex_is_match(pattern@, text@),
{
    match Regex::new(pattern).unwrap().captures(text) {
        Some(c) => {
            let mut groups = Vec::new();
            for m in c.iter() {
                groups.push(match m {
                    Some(m) => Some(m.as_str().to_string()),
                    None => None,
                });
            }
            Some(groups)
        },
        None => None,
    }
}

/// The group `i` of a capture.
pub fn group_at(groups: &Vec<Option<String>>, i: usize) -> (r: Option<String>)
    ensures
        opt_chars(r) == group(groups_view(groups@), i as int),
{
    if i < groups.len() {
        match &groups[i] {
            Some(s) => Some(s.clone()),
            None => None,
        }
    } else {
        None
    }
}

} // verus!
