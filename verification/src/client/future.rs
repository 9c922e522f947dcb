//! The ends of a response future.

use vstd::prelude::*;
use crate::error::Cause;
use crate::error::Error;
use crate::error::ErrorView;
use crate::error::Kind;
use crate::url::Url;
use crate::url::parsed_url;

verus! {

/// A request handed to the layers of the client, or the error that kept it
/// from being handed over.
#[derive(Debug)]
pub enum Pending {
    /// A request for `url` is in flight.
    Request { url: Url },
    /// The error to end with, until it has been handed out.
    Error { error: Option<Error> },
}

/// How the layers of the client answered.
#[derive(Debug)]
pub enum Answer {
    /// With a response; `final_uri` is the URL that the redirect layer
    /// arrived at, where it followed a redirect.
    Response { final_uri: Option<String> },
    /// With an error of this crate.
    Error(Error),
    /// With an error from elsewhere.
    Foreign,
}

/// The error for an answer from elsewhere to a request for `url`.
pub open spec fn request_failed(url: Url) -> ErrorView {
    ErrorView { kind: Kind::Request, cause: Cause::Unspecified, url: Some(url@), target: None }
}

impl Pending {
    /// A request for `url` in flight.
    pub fn new(url: Url) -> (pending: Pending)
        ensures
            pending == (Pending::Request { url }),
    {
        Pending::Request { url }
    }

    /// A request that ends with `err`.
    pub fn new_err(err: Error) -> (pending: Pending)
        ensures
            pending == (Pending::Error { error: Some(err) }),
    {
        Pending::Error { error: Some(err) }
    }

    /// The end of the request, given how the layers answered: the URL the
    /// response came from, or the error.
    ///
    /// A response comes from the URL that the redirect layer arrived at,
    /// else from the URL of the request; an arrival that is no URL, or a
    /// URL without a host, is an error. An error without a URL is given the URL of the request. A
    /// request that was never handed over ends with its error, once.
    pub fn poll(&mut self, answer: Answer) -> (end: Result<Url, Error>)
        ensures
            match *old(self) {
                Pending::Request { url } => match answer {
                    Answer::Response { final_uri: None } => *final(self) == *old(self) && (
                    end matches Ok(u) && u@ == url@),
                    Answer::Response { final_uri: Some(text) } => match parsed_url(text@) {
                        Some(v) => if v.host is Some {
                            (*final(self) matches Pending::Request { url: now } && now@ == v) && (
                            end matches Ok(u) && u@ == v)
                        } else {
                            *final(self) == *old(self) && (end matches Err(e) && e@
                                == crate::client::invalid_url())
                        },
                        None => *final(self) == *old(self) && (end matches Err(e) && e@
                            == crate::client::invalid_url()),
                    },
                    Answer::Error(err) => *final(self) == *old(self) && (end matches Err(e) && e@
                        == (ErrorView {
                        url: if err@.url is Some {
                            err@.url
                        } else {
                            Some(url@)
                        },
                        ..err@
                    })),
                    Answer::Foreign => *final(self) == *old(self) && (end matches Err(e) && e@
                        == request_failed(url)),
                },
                Pending::Error { error: Some(e) } => *final(self) == (Pending::Error {
                    error: None,
                }) && end == Err::<Url, Error>(e),
                Pending::Error { error: None } => *final(self) == *old(self) && (
                end matches Err(e) && e@ == crate::client::pending::already_finished()),
            },
    {
        match self {
            Pending::Request { url } => match answer {
                Answer::Response { final_uri } => {
                    match final_uri {
                        Some(text) => match Url::parse(text.as_str()) {
                            Some(arrived) => {
                                if arrived.host_str().is_none() {
                                    return Err(Error::builder(Cause::InvalidUrl));
                                }
                                *url = arrived;
                            },
                            None => {
                                return Err(Error::builder(Cause::InvalidUrl));
                            },
                        },
                        None => {},
                    }
                    Ok(url.copy())
                },
                Answer::Error(err) => {
                    if err.url().is_none() {
                        Err(err.with_url(url.copy()))
                    } else {
                        Err(err)
                    }
                },
                Answer::Foreign => Err(Error::request(Cause::Unspecified).with_url(url.copy())),
            },
            Pending::Error { error } => match error.take() {
                Some(e) => Err(e),
                None => Err(Error::request(Cause::AlreadyFinished)),
            },
        }
    }
}

/// A request handed to the dispatcher, or the error that kept it from being
/// handed over.
#[derive(Debug)]
pub enum CorePending {
    /// A request is in flight.
    Request,
    /// The error to end with, until it has been handed out.
    Error { error: Option<Error> },
}

/// The error of a request that ended without one to hand out.
pub open spec fn unspecific() -> ErrorView {
    ErrorView { kind: Kind::Builder, cause: Cause::Unspecified, url: None, target: None }
}

impl CorePending {
    /// A request in flight.
    pub fn new() -> (pending: CorePending)
        ensures
            pending == CorePending::Request,
    {
        CorePending::Request
    }

    /// A request that ends with `err`.
    pub fn new_err(err: Error) -> (pending: CorePending)
        ensures
            pending == (CorePending::Error { error: Some(err) }),
    {
        CorePending::Error { error: Some(err) }
    }

    /// The end of the request, given the answer of the dispatcher: the
    /// answer itself for a request in flight; else the error of the
    /// request, once, and an unspecific error after that.
    pub fn poll(&mut self, answer: Result<(), Error>) -> (end: Result<(), Error>)
        ensures
            match *old(self) {
                CorePending::Request => *final(self) == *old(self) && end == answer,
                CorePending::Error { error: Some(e) } => *final(self) == (CorePending::Error {
                    error: None,
                }) && end == Err::<(), Error>(e),
                CorePending::Error { error: None } => *final(self) == *old(self) && (
                end matches Err(e) && e@ == unspecific()),
            },
    {
        match self {
            CorePending::Request => answer,
            CorePending::Error { error } => match error.take() {
                Some(e) => Err(e),
                None => Err(Error::builder(Cause::Unspecified)),
            },
        }
    }
}

} // verus!
