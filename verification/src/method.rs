//! Request methods and protocol versions.

use vstd::prelude::*;

verus! {

/// An HTTP request method.
#[derive(Clone, Copy, Debug, PartialEq, Eq, Structural)]
pub enum Method {
    Get,
    Head,
    Post,
    Put,
    Patch,
    Delete,
    Options,
    Connect,
    Trace,
}

impl Method {
    /// Whether the method is GET or HEAD: the two that a redirect which drops
    /// the body leaves as they are.
    pub open spec fn spec_is_get_or_head(&self) -> bool {
        *self == Method::Get || *self == Method::Head
    }

    #[verifier::when_used_as_spec(spec_is_get_or_head)]
    pub fn is_get_or_head(&self) -> (b: bool)
        ensures
            b == self.spec_is_get_or_head(),
    {
        match self {
            Method::Get | Method::Head => true,
            _ => false,
        }
    }

    /// The method's name as it stands on the request line.
    pub fn as_str(&self) -> (name: &'static str)
        ensures
            name@ == self.name(),
    {
        match self {
            Method::Get => "GET",
            Method::Head => "HEAD",
            Method::Post => "POST",
            Method::Put => "PUT",
            Method::Patch => "PATCH",
            Method::Delete => "DELETE",
            Method::Options => "OPTIONS",
            Method::Connect => "CONNECT",
            Method::Trace => "TRACE",
        }
    }

    /// The method's name.
    pub open spec fn name(&self) -> Seq<char> {
        match self {
            Method::Get => "GET"@,
            Method::Head => "HEAD"@,
            Method::Post => "POST"@,
            Method::Put => "PUT"@,
            Method::Patch => "PATCH"@,
            Method::Delete => "DELETE"@,
            Method::Options => "OPTIONS"@,
            Method::Connect => "CONNECT"@,
            Method::Trace => "TRACE"@,
        }
    }
}

/// An HTTP protocol version.
#[derive(Clone, Copy, Debug, PartialEq, Eq, Structural)]
pub enum Version {
    Http09,
    Http10,
    Http11,
    Http2,
    Http3,
}

} // verus!
