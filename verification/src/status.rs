//! HTTP status codes, as far as the engine classifies them.

use vstd::prelude::*;

verus! {

/// An HTTP status code.
#[derive(Clone, Copy, Debug, PartialEq, Eq, Structural)]
pub struct StatusCode(pub u16);

impl StatusCode {
    /// The numeric code.
    pub fn as_u16(&self) -> (code: u16)
        ensures
            code == self.0,
    {
        self.0
    }

    /// Whether the code lies in 200..=299.
    pub open spec fn spec_is_success(&self) -> bool {
        200 <= self.0 <= 299
    }

    #[verifier::when_used_as_spec(spec_is_success)]
    pub fn is_success(&self) -> (b: bool)
        ensures
            b == self.spec_is_success(),
    {
        200 <= self.0 && self.0 <= 299
    }

    /// Whether the code lies in 400..=499.
    pub open spec fn spec_is_client_error(&self) -> bool {
        400 <= self.0 <= 499
    }

    #[verifier::when_used_as_spec(spec_is_client_error)]
    pub fn is_client_error(&self) -> (b: bool)
        ensures
            b == self.spec_is_client_error(),
    {
        400 <= self.0 && self.0 <= 499
    }

    /// Whether the code lies in 500..=599.
    pub open spec fn spec_is_server_error(&self) -> bool {
        500 <= self.0 <= 599
    }

    #[verifier::when_used_as_spec(spec_is_server_error)]
    pub fn is_server_error(&self) -> (b: bool)
        ensures
            b == self.spec_is_server_error(),
    {
        500 <= self.0 && self.0 <= 599
    }

    /// Whether the code is one of 301, 302 and 303, after which the next
    /// request is sent without a body.
    pub open spec fn spec_rewrites_to_get(&self) -> bool {
        self.0 == 301 || self.0 == 302 || self.0 == 303
    }

    #[verifier::when_used_as_spec(spec_rewrites_to_get)]
    pub fn rewrites_to_get(&self) -> (b: bool)
        ensures
            b == self.spec_rewrites_to_get(),
    {
        self.0 == 301 || self.0 == 302 || self.0 == 303
    }

    /// Whether the code is 307 or 308, after which method and body are kept.
    pub open spec fn spec_preserves_method(&self) -> bool {
        self.0 == 307 || self.0 == 308
    }

    #[verifier::when_used_as_spec(spec_preserves_method)]
    pub fn preserves_method(&self) -> (b: bool)
        ensures
            b == self.spec_preserves_method(),
    {
        self.0 == 307 || self.0 == 308
    }
}

} // verus!
