//! HTTP/1 knobs of a profile.

use vstd::prelude::*;

verus! {

/// How HTTP/1 headers are written.
#[derive(Clone, Copy, Debug, PartialEq, Eq, Structural)]
pub struct Http1Config {
    /// Write header names in the case in which they were given.
    pub preserve_header_case: bool,
    /// Write header names in title case.
    pub title_case_headers: bool,
}

impl Default for Http1Config {
    /// Header names are written in lower case.
    fn default() -> (config: Http1Config)
        ensures
            config == (Http1Config { preserve_header_case: false, title_case_headers: false }),
    {
        Http1Config { preserve_header_case: false, title_case_headers: false }
    }
}

} // verus!
