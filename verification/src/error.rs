//! Errors of the scraper.

use vstd::prelude::*;

verus! {

/// The error for a URL that no provider handles.
#[derive(Debug, Clone, Copy, PartialEq, Eq, Structural)]
pub struct UnsupportedUrlError;

impl UnsupportedUrlError {
    /// The error's description.
    pub fn description(&self) -> (r: &'static str)
        ensures
            r@ == "[!!] URL not supported"@,
    {
        "[!!] URL not supported"
    }

    /// The text that the error displays as.
    pub fn display_text(&self) -> (r: &'static str)
        ensures
            r@ == "UnsupportedUrlError"@,
    {
        "UnsupportedUrlError"
    }
}

} // verus!
