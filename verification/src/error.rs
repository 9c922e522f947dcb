//! The errors a request can end in.

use vstd::prelude::*;
use crate::status::StatusCode;
use crate::url::Url;
use crate::url::UrlView;
use crate::url::opt_url_view;

verus! {

/// The broad class of an error.
#[derive(Clone, Copy, Debug, PartialEq, Eq, Structural)]
pub enum Kind {
    /// The configuration was invalid; no I/O took place.
    Builder,
    /// The URL has a scheme or a form that cannot be requested.
    Url,
    /// Name resolution, dialling, the proxy handshake or the TLS handshake failed.
    Connect,
    /// The transport failed in the middle of an exchange.
    Request,
    /// A redirect was refused.
    Redirect,
    /// A content decoder failed.
    Decode,
    /// The total or the read deadline passed.
    TimedOut,
    /// The response status was turned into an error on request.
    Status,
    /// A protocol upgrade was violated.
    Upgrade,
}

/// What exactly went wrong.
#[derive(Clone, Copy, Debug, PartialEq, Eq, Structural)]
pub enum Cause {
    /// Nothing more is known.
    Unspecified,
    /// The URL's scheme is not one the client may request.
    BadScheme,
    /// The URL is not usable as a request target.
    BadUri,
    /// The URL has no host.
    BadHost,
    /// The text is no URL.
    InvalidUrl,
    /// A certificate has no content.
    InvalidCertificate,
    /// A header name is empty, too long, or holds a character that no
    /// header name in normal form may hold.
    InvalidHeaderName,
    /// A header value holds a byte that no header value may hold.
    InvalidHeaderValue,
    /// The header map cannot take another field.
    HeadersFull,
    /// The redirect policy's hop limit was reached.
    TooManyRedirects,
    /// A caller-supplied redirect policy refused the hop.
    PolicyRejected,
    /// The transport reported a failure.
    Transport,
    /// A finished request was driven again.
    AlreadyFinished,
    /// The response carried this status.
    Status(u16),
}

/// An error, with the URL it arose on where one is known.
#[derive(Debug)]
pub struct Error {
    kind: Kind,
    cause: Cause,
    url: Option<Url>,
    target: Option<Url>,
}

/// The parts of an error that contracts speak of.
pub ghost struct ErrorView {
    pub kind: Kind,
    pub cause: Cause,
    /// The URL the error arose on.
    pub url: Option<UrlView>,
    /// The URL a refused redirect pointed to.
    pub target: Option<UrlView>,
}

impl View for Error {
    type V = ErrorView;

    closed spec fn view(&self) -> ErrorView {
        ErrorView {
            kind: self.kind,
            cause: self.cause,
            url: opt_url_view(self.url),
            target: opt_url_view(self.target),
        }
    }
}

impl Error {
    /// An error of the given kind and cause, without a URL.
    pub fn new(kind: Kind, cause: Cause) -> (e: Error)
        ensures
            e@ == (ErrorView { kind, cause, url: None, target: None }),
    {
        Error { kind, cause, url: None, target: None }
    }

    /// The same error, carrying `url`.
    pub fn with_url(self, url: Url) -> (e: Error)
        ensures
            e@ == (ErrorView { url: Some(url@), ..self@ }),
    {
        Error { kind: self.kind, cause: self.cause, url: Some(url), target: self.target }
    }

    /// An invalid configuration.
    pub fn builder(cause: Cause) -> (e: Error)
        ensures
            e@ == (ErrorView { kind: Kind::Builder, cause, url: None, target: None }),
    {
        Error::new(Kind::Builder, cause)
    }

    /// A URL whose scheme may not be requested.
    pub fn url_bad_scheme(url: Url) -> (e: Error)
        ensures
            e@ == (ErrorView { kind: Kind::Url, cause: Cause::BadScheme, url: Some(url@), target: None }),
    {
        Error::new(Kind::Url, Cause::BadScheme).with_url(url)
    }

    /// A URL that is not usable as a request target.
    pub fn url_bad_uri(url: Url) -> (e: Error)
        ensures
            e@ == (ErrorView { kind: Kind::Url, cause: Cause::BadUri, url: Some(url@), target: None }),
    {
        Error::new(Kind::Url, Cause::BadUri).with_url(url)
    }

    /// A URL without a host.
    pub fn uri_bad_host() -> (e: Error)
        ensures
            e@ == (ErrorView { kind: Kind::Url, cause: Cause::BadHost, url: None, target: None }),
    {
        Error::new(Kind::Url, Cause::BadHost)
    }

    /// A transport failure in the middle of an exchange.
    pub fn request(cause: Cause) -> (e: Error)
        ensures
            e@ == (ErrorView { kind: Kind::Request, cause, url: None, target: None }),
    {
        Error::new(Kind::Request, cause)
    }

    /// A deadline that passed while `url` was being requested.
    pub fn timed_out(url: Url) -> (e: Error)
        ensures
            e@ == (ErrorView { kind: Kind::TimedOut, cause: Cause::Unspecified, url: Some(url@), target: None }),
    {
        Error::new(Kind::TimedOut, Cause::Unspecified).with_url(url)
    }

    /// A refused redirect: `url` is the URL the error is reported on, and
    /// `target` the URL that the redirect pointed to.
    pub fn redirect(cause: Cause, url: Url, target: Url) -> (e: Error)
        ensures
            e@ == (ErrorView {
                kind: Kind::Redirect,
                cause,
                url: Some(url@),
                target: Some(target@),
            }),
    {
        Error { kind: Kind::Redirect, cause, url: Some(url), target: Some(target) }
    }

    /// A response status turned into an error.
    pub fn status_code(url: Url, status: u16) -> (e: Error)
        ensures
            e@ == (ErrorView { kind: Kind::Status, cause: Cause::Status(status), url: Some(url@), target: None }),
    {
        Error::new(Kind::Status, Cause::Status(status)).with_url(url)
    }

    /// The error's kind.
    pub fn kind(&self) -> (kind: Kind)
        ensures
            kind == self@.kind,
    {
        self.kind
    }

    /// The error's cause.
    pub fn cause(&self) -> (cause: Cause)
        ensures
            cause == self@.cause,
    {
        self.cause
    }

    /// The URL the error arose on, where one is known.
    pub fn url(&self) -> (url: Option<&Url>)
        ensures
            url is Some == self@.url is Some,
            url matches Some(u) ==> u@ == self@.url->0,
    {
        match &self.url {
            Some(u) => Some(u),
            None => None,
        }
    }

    /// The URL that a refused redirect pointed to.
    pub fn target(&self) -> (target: Option<&Url>)
        ensures
            target is Some == self@.target is Some,
            target matches Some(u) ==> u@ == self@.target->0,
    {
        match &self.target {
            Some(u) => Some(u),
            None => None,
        }
    }

    /// Whether a deadline passed.
    pub fn is_timeout(&self) -> (b: bool)
        ensures
            b == (self@.kind == Kind::TimedOut),
    {
        self.kind == Kind::TimedOut
    }

    /// Whether a redirect was refused.
    pub fn is_redirect(&self) -> (b: bool)
        ensures
            b == (self@.kind == Kind::Redirect),
    {
        self.kind == Kind::Redirect
    }

    /// Whether the configuration was invalid.
    pub fn is_builder(&self) -> (b: bool)
        ensures
            b == (self@.kind == Kind::Builder),
    {
        self.kind == Kind::Builder
    }

    /// A copy of this error.
    pub fn copy(&self) -> (e: Error)
        ensures
            e@ == self@,
    {
        Error {
            kind: self.kind,
            cause: self.cause,
            url: match &self.url {
                Some(u) => Some(u.copy()),
                None => None,
            },
            target: match &self.target {
                Some(u) => Some(u.copy()),
                None => None,
            },
        }
    }
}

/// Turns a response whose status names a client or server error into an
/// error, for callers that ask for it; any other status is no error.
pub fn error_for_status(status: StatusCode, url: &Url) -> (checked: Result<(), Error>)
    ensures
        checked is Err == (status.is_client_error() || status.is_server_error()),
        checked matches Err(e) ==> e@ == (ErrorView {
            kind: Kind::Status,
            cause: Cause::Status(status.0),
            url: Some(url@),
            target: None,
        }),
{
    if status.is_client_error() || status.is_server_error() {
        Err(Error::status_code(url.copy(), status.as_u16()))
    } else {
        Ok(())
    }
}

} // verus!
