//! The cookie layer around the dispatcher.
//!
//! Before an exchange the layer attaches the cookies of the store, unless
//! the request names cookies itself; after it, the layer offers the
//! `Set-Cookie` headers of the response to the store.

use vstd::prelude::*;
use std::sync::Arc;
use crate::cookie::CookieStore;
use crate::cookie::add_cookie_header;
use crate::cookie::cookies_to_offer;
use crate::cookie::with_cookies;
use crate::error::Error;
use crate::header::COOKIE;
use crate::header::contains_header;
use crate::header::has_field;
use crate::header::header_fields;
use crate::header::headers_full;
use crate::header::lemma_known_names;
use crate::url::Url;

verus! {

/// The dispatcher of a client with its cookie store.
#[derive(Debug)]
pub struct ClientService<C: CookieStore, H> {
    pub cookie_store: Option<Arc<C>>,
    pub client: H,
}

impl<C: CookieStore, H> ClientService<C, H> {
    /// The dispatcher `client` with `cookie_store`.
    pub fn new(client: H, cookie_store: Option<Arc<C>>) -> (service: Self)
        ensures
            service.client == client,
            service.cookie_store == cookie_store,
    {
        ClientService { cookie_store, client }
    }

    /// Readies the headers of a request for `url`: where a store is
    /// attached and the request names no cookie, the cookies of the store
    /// are attached. Whatever the store answers, the headers afterwards are
    /// the headers before with some values added as `Cookie` headers, and
    /// the other headers stay as they are.
    ///
    /// Fails only when the header map cannot grow, and never where the
    /// store is not asked.
    pub fn call(&self, url: &Url, headers: &mut http::HeaderMap) -> (done: Result<(), Error>)
        ensures
            done matches Err(e) ==> e@ == headers_full(),
            crate::header::has_room(header_fields(*old(headers)), 1) ==> done is Ok,
            exists|added: Seq<Seq<u8>>|
                header_fields(*final(headers)) == #[trigger] with_cookies(
                    header_fields(*old(headers)),
                    added,
                ),
            header_fields(*final(headers)).remove(COOKIE@) == header_fields(*old(headers)).remove(
                COOKIE@,
            ),
            self.cookie_store is None || has_field(*old(headers), COOKIE@) ==> done is Ok
                && header_fields(*final(headers)) == header_fields(*old(headers)),
    {
        proof {
            lemma_known_names();
            assert(header_fields(*headers) == with_cookies(
                header_fields(*headers),
                Seq::<Seq<u8>>::empty(),
            ));
        }
        match &self.cookie_store {
            Some(store) => {
                if !contains_header(headers, COOKIE) {
                    add_cookie_header(store, headers, url)
                } else {
                    Ok(())
                }
            },
            None => Ok(()),
        }
    }

    /// Offers the `Set-Cookie` headers of a response from `url` to the
    /// store, where one is attached and the response has any. Says whether
    /// it did.
    pub fn store_response_cookies(&self, url: &Url, response_headers: &http::HeaderMap) -> (offered:
        bool)
        ensures
            offered == (self.cookie_store is Some && has_field(
                *response_headers,
                crate::header::SET_COOKIE@,
            )),
    {
        match &self.cookie_store {
            Some(store) => match cookies_to_offer(true, response_headers) {
                Some(cookies) => {
                    store.set_cookies(&cookies, url);
                    true
                },
                None => false,
            },
            None => false,
        }
    }
}

} // verus!
