//! HTTP cookies.
//!
//! A [`CookieStore`] keeps the cookies that responses set and hands out the
//! ones to send with a request. [`Jar`] is the store used by default; it
//! rests on the `cookie_store` crate, which decides by domain, path, flags
//! and expiry which cookies match a URL.

use vstd::prelude::*;
use std::sync::Arc;
use std::time::Duration;
use crate::error::Error;
use crate::header::COOKIE;
use crate::header::SET_COOKIE;
use crate::header::all_header_values;
use crate::header::all_values;
use crate::header::append_values;
use crate::header::field_values;
use crate::header::header_fields;
use crate::header::headers_full;
use crate::header::is_header_value;
use crate::header::lemma_known_names;
use crate::header::valid_header_value;
use crate::header::value_bytes;
use crate::header::with_appended;
use crate::text::opt_text;
use crate::text::utf8_str;
use crate::url::Url;

verus! {

/// A store of cookies that lasts over the requests of a session.
pub trait CookieStore: Send + Sync {
    /// Stores the `Set-Cookie` header values received from `url`.
    fn set_cookies(&self, cookie_headers: &Vec<Vec<u8>>, url: &Url);

    /// Stores one `Set-Cookie` header value for `url`.
    fn set_cookie(&self, _url: &Url, _cookie_header: &[u8]) {
    }

    /// The `Cookie` header values to send to `url`, if the store holds any.
    fn cookies(&self, url: &Url) -> Option<Vec<Vec<u8>>>;

    /// Removes the cookie called `name` that is stored for `url`.
    fn remove(&self, _url: &Url, _name: &str) {
    }

    /// Removes all cookies.
    fn clear(&self) {
    }
}

/// A single HTTP cookie, as it was read from a `Set-Cookie` header value.
#[derive(Debug)]
pub struct Cookie {
    name: String,
    value: String,
    path: Option<String>,
    domain: Option<String>,
    text: String,
    http_only: Option<bool>,
    secure: Option<bool>,
    lax: Option<bool>,
    strict: Option<bool>,
    max_age: Option<Duration>,
    expires: Option<i64>,
}

/// What contracts say of a cookie.
pub ghost struct CookieView {
    pub name: Seq<char>,
    pub value: Seq<char>,
    /// The `Path` directive.
    pub path: Option<Seq<char>>,
    /// The `Domain` directive.
    pub domain: Option<Seq<char>>,
    /// The cookie in its serialised form.
    pub text: Seq<char>,
    /// The `HttpOnly` directive, where the value says anything of it.
    pub http_only: Option<bool>,
    /// The `Secure` directive, where the value says anything of it.
    pub secure: Option<bool>,
    /// Whether the `SameSite` directive, where there is one, is `Lax`.
    pub lax: Option<bool>,
    /// Whether the `SameSite` directive, where there is one, is `Strict`.
    pub strict: Option<bool>,
    /// The `Max-Age` directive, where it is set and not negative.
    pub max_age: Option<Duration>,
    /// The time the `Expires` directive names, in seconds since the Unix
    /// epoch.
    pub expires: Option<i64>,
}

impl View for Cookie {
    type V = CookieView;

    closed spec fn view(&self) -> CookieView {
        CookieView {
            name: self.name@,
            value: self.value@,
            path: opt_text(self.path),
            domain: opt_text(self.domain),
            text: self.text@,
            http_only: self.http_only,
            secure: self.secure,
            lax: self.lax,
            strict: self.strict,
            max_age: self.max_age,
            expires: self.expires,
        }
    }
}

/// The view of a cookie that may be absent.
pub open spec fn opt_cookie_view(cookie: Option<Cookie>) -> Option<CookieView> {
    match cookie {
        Some(c) => Some(c@),
        None => None,
    }
}

/// What `cookie::Cookie::parse` reads from the text of a `Set-Cookie`
/// value, as the getters of the cookie it returns give it; nothing where
/// the text is no cookie.
pub uninterp spec fn parsed_cookie(text: Seq<char>) -> Option<CookieView>;

/// What is read from the bytes of a `Set-Cookie` value: nothing where they
/// are not UTF-8, else what is read from their text.
pub open spec fn cookie_read(value: Seq<u8>) -> Option<CookieView> {
    if vstd::utf8::valid_utf8(value) {
        parsed_cookie(vstd::utf8::decode_utf8(value))
    } else {
        None
    }
}

/// `cookie::Cookie::parse`: the cookie that `text` holds, with the values
/// of its getters, where the crate reads one.
#[verifier::external_body]
fn parse_outside(text: &str) -> (cookie: Option<Cookie>)
    ensures
        opt_cookie_view(cookie) == parsed_cookie(text@),
{
    let c = cookie::Cookie::parse(text).ok()?;
    Some(Cookie {
        name: c.name().into(),
        value: c.value().into(),
        path: c.path().map(String::from),
        domain: c.domain().map(String::from),
        text: c.to_string(),
        http_only: c.http_only(),
        secure: c.secure(),
        lax: c.same_site().map(|s| s.is_lax()),
        strict: c.same_site().map(|s| s.is_strict()),
        max_age: c.max_age().and_then(|d| d.try_into().ok()),
        expires: c.expires_datetime().map(|t| t.unix_timestamp()),
    })
}

impl Cookie {
    /// Reads a cookie from a `Set-Cookie` header value. Fails where the value
    /// is not UTF-8 or no cookie.
    pub fn parse(value: &[u8]) -> (cookie: Option<Cookie>)
        ensures
            opt_cookie_view(cookie) == cookie_read(value@),
    {
        match utf8_str(value) {
            Some(text) => parse_outside(text),
            None => None,
        }
    }

    /// The name of the cookie.
    pub fn name(&self) -> (name: &str)
        ensures
            name@ == self@.name,
    {
        self.name.as_str()
    }

    /// The value of the cookie.
    pub fn value(&self) -> (value: &str)
        ensures
            value@ == self@.value,
    {
        self.value.as_str()
    }

    /// Whether the `HttpOnly` directive is set.
    pub fn http_only(&self) -> (b: bool)
        ensures
            b == (self@.http_only == Some(true)),
    {
        match self.http_only {
            Some(b) => b,
            None => false,
        }
    }

    /// Whether the `Secure` directive is set.
    pub fn secure(&self) -> (b: bool)
        ensures
            b == (self@.secure == Some(true)),
    {
        match self.secure {
            Some(b) => b,
            None => false,
        }
    }

    /// Whether the `SameSite` directive is `Lax`.
    pub fn same_site_lax(&self) -> (b: bool)
        ensures
            b == (self@.lax == Some(true)),
    {
        match self.lax {
            Some(b) => b,
            None => false,
        }
    }

    /// Whether the `SameSite` directive is `Strict`.
    pub fn same_site_strict(&self) -> (b: bool)
        ensures
            b == (self@.strict == Some(true)),
    {
        match self.strict {
            Some(b) => b,
            None => false,
        }
    }

    /// The `Path` directive, if set.
    pub fn path(&self) -> (path: Option<&str>)
        ensures
            path is Some == self@.path is Some,
            path matches Some(p) ==> p@ == self@.path->0,
    {
        match &self.path {
            Some(p) => Some(p.as_str()),
            None => None,
        }
    }

    /// The `Domain` directive, if set.
    pub fn domain(&self) -> (domain: Option<&str>)
        ensures
            domain is Some == self@.domain is Some,
            domain matches Some(d) ==> d@ == self@.domain->0,
    {
        match &self.domain {
            Some(d) => Some(d.as_str()),
            None => None,
        }
    }

    /// The `Max-Age` directive, if set and not negative.
    pub fn max_age(&self) -> (age: Option<Duration>)
        ensures
            age == self@.max_age,
    {
        self.max_age
    }

    /// The time the cookie expires at, in seconds since the Unix epoch, if
    /// the `Expires` directive names one.
    pub fn expires(&self) -> (at: Option<i64>)
        ensures
            at == self@.expires,
    {
        self.expires
    }

    /// The cookie as an owned value.
    pub fn into_owned(self) -> (cookie: Cookie)
        ensures
            cookie == self,
    {
        self
    }

    /// The cookie in its serialised form.
    pub fn to_string(&self) -> (text: String)
        ensures
            text@ == self@.text,
    {
        self.text.clone()
    }
}

/// The values of the `Set-Cookie` headers of a response.
pub fn extract_response_cookie_headers(headers: &http::HeaderMap) -> (values: Vec<Vec<u8>>)
    ensures
        value_bytes(values@) == field_values(*headers, SET_COOKIE@),
        all_header_values(value_bytes(values@)),
        (values@.len() > 0) == crate::header::has_field(*headers, SET_COOKIE@),
{
    proof {
        lemma_known_names();
    }
    let values = all_values(headers, SET_COOKIE);
    proof {
        assert(value_bytes(values@).len() == values@.len());
    }
    values
}

/// What is offered to a cookie store after a response: the values of its
/// `Set-Cookie` headers in their order, where a store is attached and the
/// response has any; else nothing.
pub open spec fn offer(has_store: bool, fields: Map<Seq<char>, Seq<Seq<u8>>>) -> Option<
    Seq<Seq<u8>>,
> {
    if has_store && fields.dom().contains(SET_COOKIE@) {
        Some(fields[SET_COOKIE@])
    } else {
        None
    }
}

/// Picks what is offered to the cookie store after a response with the
/// given headers.
pub fn cookies_to_offer(has_store: bool, headers: &http::HeaderMap) -> (values: Option<
    Vec<Vec<u8>>,
>)
    ensures
        opt_value_bytes(values) == offer(has_store, header_fields(*headers)),
{
    if !has_store {
        return None;
    }
    let values = extract_response_cookie_headers(headers);
    if values.len() > 0 {
        Some(values)
    } else {
        None
    }
}

/// The cookies of a response: one entry for each `Set-Cookie` header, empty
/// where its value is no cookie.
pub fn extract_response_cookies(headers: &http::HeaderMap) -> (cookies: Vec<Option<Cookie>>)
    ensures
        cookies.len() == field_values(*headers, SET_COOKIE@).len(),
        forall|i: int|
            0 <= i < cookies.len() ==> opt_cookie_view(#[trigger] cookies[i]) == cookie_read(
                field_values(*headers, SET_COOKIE@)[i],
            ),
{
    let values = extract_response_cookie_headers(headers);
    let mut cookies: Vec<Option<Cookie>> = Vec::new();
    let mut i: usize = 0;
    while i < values.len()
        invariant
            i <= values.len(),
            cookies.len() == i,
            value_bytes(values@) == field_values(*headers, SET_COOKIE@),
            forall|k: int|
                0 <= k < i ==> opt_cookie_view(#[trigger] cookies[k]) == cookie_read(
                    field_values(*headers, SET_COOKIE@)[k],
                ),
        decreases values.len() - i,
    {
        assert(value_bytes(values@)[i as int] == values[i as int]@);
        cookies.push(Cookie::parse(values[i].as_slice()));
        i += 1;
    }
    cookies
}

/// One cookie as a request sends it: the name, `=`, and the value.
pub open spec fn pair_text(pair: (Seq<u8>, Seq<u8>)) -> Seq<u8> {
    pair.0 + seq![61u8] + pair.1
}

/// The cookies as one `Cookie` header sends them: each as name, `=` and
/// value, with `; ` between one and the next.
pub open spec fn joined_pairs(pairs: Seq<(Seq<u8>, Seq<u8>)>) -> Seq<u8>
    decreases pairs.len(),
{
    if pairs.len() == 0 {
        Seq::empty()
    } else if pairs.len() == 1 {
        pair_text(pairs[0])
    } else {
        joined_pairs(pairs.drop_last()) + seq![59u8, 32u8] + pair_text(pairs.last())
    }
}

/// Whether `part` stands in `whole` at the position `at`.
pub open spec fn stands_at(whole: Seq<u8>, part: Seq<u8>, at: int) -> bool {
    0 <= at && at + part.len() <= whole.len() && whole.subrange(at, at + part.len()) == part
}

/// The joined pairs hold each pair as name, `=` and value.
pub proof fn lemma_joined_holds_each_pair(pairs: Seq<(Seq<u8>, Seq<u8>)>, i: int)
    requires
        0 <= i < pairs.len(),
    ensures
        exists|at: int| #[trigger] stands_at(joined_pairs(pairs), pair_text(pairs[i]), at),
    decreases pairs.len(),
{
    let joined = joined_pairs(pairs);
    let part = pair_text(pairs[i]);
    if pairs.len() == 1 {
        assert(joined.subrange(0, part.len() as int) =~= part);
        assert(stands_at(joined, part, 0));
    } else {
        let earlier = joined_pairs(pairs.drop_last());
        if i == pairs.len() - 1 {
            let at: int = (earlier.len() + 2) as int;
            assert(joined.subrange(at, at + part.len()) =~= part);
            assert(stands_at(joined, part, at));
        } else {
            lemma_joined_holds_each_pair(pairs.drop_last(), i);
            let at = choose|at: int| #[trigger]
                stands_at(earlier, pair_text(pairs.drop_last()[i]), at);
            assert(pairs.drop_last()[i] == pairs[i]);
            assert(joined.subrange(at, at + part.len()) =~= earlier.subrange(
                at,
                at + part.len(),
            ));
            assert(stands_at(joined, part, at));
        }
    }
}

/// The bytes of each name and value.
pub open spec fn pair_bytes(pairs: Seq<(Vec<u8>, Vec<u8>)>) -> Seq<(Seq<u8>, Seq<u8>)> {
    pairs.map_values(|p: (Vec<u8>, Vec<u8>)| (p.0@, p.1@))
}

/// The value of the `Cookie` header for the given names and values: the
/// joined pairs, or nothing where there is nothing to send or the joined
/// pairs are no header value.
pub open spec fn cookie_header_value(pairs: Seq<(Seq<u8>, Seq<u8>)>) -> Option<Seq<u8>> {
    let joined = joined_pairs(pairs);
    if joined.len() == 0 || !is_header_value(joined) {
        None
    } else {
        Some(joined)
    }
}

/// Builds the value of the `Cookie` header for the given names and values.
pub fn cookie_header(pairs: &Vec<(Vec<u8>, Vec<u8>)>) -> (value: Option<Vec<u8>>)
    ensures
        value is Some == cookie_header_value(pair_bytes(pairs@)) is Some,
        value matches Some(v) ==> Some(v@) == cookie_header_value(pair_bytes(pairs@)),
{
    let ghost all = pair_bytes(pairs@);
    let mut out: Vec<u8> = Vec::new();
    let mut i: usize = 0;
    while i < pairs.len()
        invariant
            i <= pairs.len(),
            all == pair_bytes(pairs@),
            out@ == joined_pairs(all.subrange(0, i as int)),
        decreases pairs.len() - i,
    {
        let ghost before = out@;
        if i > 0 {
            out.push(59u8);
            out.push(32u8);
        }
        let pair = &pairs[i];
        out.extend_from_slice(pair.0.as_slice());
        out.push(61u8);
        out.extend_from_slice(pair.1.as_slice());
        proof {
            let upto = all.subrange(0, i + 1);
            assert(upto.drop_last() =~= all.subrange(0, i as int));
            assert(upto.last() == all[i as int]);
            assert(all[i as int] == (pair.0@, pair.1@));
            if i == 0 {
                assert(out@ =~= pair_text(upto[0]));
            } else {
                assert(out@ =~= before + seq![59u8, 32u8] + pair_text(upto.last()));
            }
        }
        i += 1;
    }
    proof {
        assert(all.subrange(0, pairs.len() as int) =~= all);
    }
    if out.len() == 0 || !valid_header_value(out.as_slice()) {
        None
    } else {
        Some(out)
    }
}

/// The bytes of the values of an answer, where there is one.
pub open spec fn opt_value_bytes(values: Option<Vec<Vec<u8>>>) -> Option<Seq<Seq<u8>>> {
    match values {
        Some(v) => Some(value_bytes(v@)),
        None => None,
    }
}

/// What a store that holds the given names and values for a URL answers:
/// one `Cookie` header value that names them all, or nothing where there is
/// nothing to send or the joined pairs are no header value.
pub open spec fn cookie_answer(pairs: Seq<(Seq<u8>, Seq<u8>)>) -> Option<Seq<Seq<u8>>> {
    match cookie_header_value(pairs) {
        Some(value) => Some(seq![value]),
        None => None,
    }
}

/// Builds the answer of a store that holds the given names and values for
/// a URL.
pub fn cookie_values(pairs: &Vec<(Vec<u8>, Vec<u8>)>) -> (values: Option<Vec<Vec<u8>>>)
    ensures
        opt_value_bytes(values) == cookie_answer(pair_bytes(pairs@)),
{
    match cookie_header(pairs) {
        Some(value) => {
            let mut values: Vec<Vec<u8>> = Vec::new();
            values.push(value);
            proof {
                assert(value_bytes(values@) =~= seq![value@]);
            }
            Some(values)
        },
        None => None,
    }
}

/// Adds `values` as `Cookie` headers behind those that `headers` holds,
/// unless one of them is no header value: then nothing is added.
///
/// Fails only when the map is too full: never where nothing is added, and
/// never where the map has room for one name. The values before the one
/// that found no room are added even then.
pub fn add_cookie_values(headers: &mut http::HeaderMap, values: &Vec<Vec<u8>>) -> (done: Result<
    (),
    Error,
>)
    ensures
        values.len() == 0 || !all_header_values(value_bytes(values@)) ==> done is Ok,
        crate::header::has_room(header_fields(*old(headers)), 1) ==> done is Ok,
        done is Ok ==> header_fields(*final(headers)) == with_cookies(
            header_fields(*old(headers)),
            value_bytes(values@),
        ),
        done matches Err(e) ==> e@ == headers_full() && exists|k: int|
            0 <= k < values.len() && header_fields(*final(headers)) == #[trigger] with_cookies(
                header_fields(*old(headers)),
                value_bytes(values@).subrange(0, k),
            ),
        header_fields(*final(headers)).remove(COOKIE@) == header_fields(*old(headers)).remove(
            COOKIE@,
        ),
{
    let ghost vals = value_bytes(values@);
    let mut i: usize = 0;
    while i < values.len()
        invariant
            i <= values.len(),
            vals == value_bytes(values@),
            forall|k: int| 0 <= k < i ==> is_header_value(#[trigger] vals[k]),
        decreases values.len() - i,
    {
        assert(vals[i as int] == values[i as int]@);
        if !valid_header_value(values[i].as_slice()) {
            return Ok(());
        }
        i += 1;
    }
    proof {
        lemma_known_names();
    }
    let done = append_values(headers, COOKIE, values);
    proof {
        if done is Err {
            let k = choose|k: int|
                0 <= k < values.len() && header_fields(*headers) == #[trigger] with_appended(
                    header_fields(*old(headers)),
                    COOKIE@,
                    vals.subrange(0, k),
                );
            assert(all_header_values(vals.subrange(0, k)));
            assert(header_fields(*headers) == with_cookies(
                header_fields(*old(headers)),
                vals.subrange(0, k),
            ));
        }
    }
    done
}

/// The fields after `values` were added as `Cookie` headers: unchanged where
/// there is nothing to add or one of the values is no header value.
pub open spec fn with_cookies(fields: Map<Seq<char>, Seq<Seq<u8>>>, values: Seq<Seq<u8>>) -> Map<
    Seq<char>,
    Seq<Seq<u8>>,
> {
    if all_header_values(values) {
        with_appended(fields, COOKIE@, values)
    } else {
        fields
    }
}

/// Adds the cookies that `cookie_store` holds for `url` as `Cookie` headers.
///
/// Whatever the store answers, the headers afterwards are the headers
/// before with some values added as `Cookie` headers, behind those the map
/// held: the values the store answered with, as [`add_cookie_values`] adds
/// them, or none where it answered with nothing. Fails only when the map
/// cannot grow; then the values that found room are added.
pub fn add_cookie_header<C: CookieStore>(
    cookie_store: &Arc<C>,
    headers: &mut http::HeaderMap,
    url: &Url,
) -> (done: Result<(), Error>)
    ensures
        done matches Err(e) ==> e@ == headers_full(),
        crate::header::has_room(header_fields(*old(headers)), 1) ==> done is Ok,
        exists|added: Seq<Seq<u8>>|
            header_fields(*final(headers)) == #[trigger] with_cookies(
                header_fields(*old(headers)),
                added,
            ),
        header_fields(*final(headers)).remove(COOKIE@) == header_fields(*old(headers)).remove(
            COOKIE@,
        ),
{
    match cookie_store.cookies(url) {
        Some(values) => {
            let done = add_cookie_values(headers, &values);
            proof {
                let vals = value_bytes(values@);
                if done is Ok {
                    assert(header_fields(*headers) == with_cookies(
                        header_fields(*old(headers)),
                        vals,
                    ));
                } else {
                    let k = choose|k: int|
                        0 <= k < values.len() && header_fields(*headers) == #[trigger] with_cookies(
                            header_fields(*old(headers)),
                            vals.subrange(0, k),
                        );
                    assert(header_fields(*headers) == with_cookies(
                        header_fields(*old(headers)),
                        vals.subrange(0, k),
                    ));
                }
            }
            done
        },
        None => {
            proof {
                assert(header_fields(*headers) == with_cookies(
                    header_fields(*old(headers)),
                    Seq::<Seq<u8>>::empty(),
                ));
            }
            Ok(())
        },
    }
}

/// The default cookie store.
///
/// It is the store a client uses when cookies are simply switched on, and
/// can be filled with cookies before a client is built. The cookies are
/// kept by the `cookie_store` crate, behind a lock, so that the jar can be
/// shared between a client and its requests.
#[verifier::external_body]
#[derive(Debug)]
pub struct Jar {
    store: antidote::RwLock<cookie_store::CookieStore>,
}

/// `cookie_store::CookieStore::default` behind a lock: an empty store.
#[verifier::external_body]
fn jar_new() -> Jar {
    Jar { store: antidote::RwLock::new(cookie_store::CookieStore::default()) }
}

/// `cookie_store::CookieStore::insert_raw`: offers the cookie that
/// `cookie::Cookie::parse` reads from `text` to the store, which keeps it
/// if it accepts it for `url`.
#[verifier::external_body]
fn jar_insert(jar: &Jar, text: &str, url: &Url) {
    if let (Ok(c), Ok(u)) = (cookie::Cookie::parse(text), url::Url::parse(url.as_str())) {
        let _ = jar.store.write().insert_raw(&c, &u);
    }
}

/// `cookie_store::CookieStore::get_request_values`: name and value of each
/// cookie the store would send to `url` now, in no stated order.
#[verifier::external_body]
fn jar_request_values(jar: &Jar, url: &Url) -> Vec<(Vec<u8>, Vec<u8>)> {
    match url::Url::parse(url.as_str()) {
        Ok(u) => jar.store.read().get_request_values(&u).map(
            |(n, v)| (n.as_bytes().to_vec(), v.as_bytes().to_vec()),
        ).collect(),
        Err(_) => Vec::new(),
    }
}

/// `cookie_store::CookieStore::remove`.
#[verifier::external_body]
fn jar_remove(jar: &Jar, domain: &str, path: &str, name: &str) {
    jar.store.write().remove(domain, path, name);
}

/// `cookie_store::CookieStore::clear`.
#[verifier::external_body]
fn jar_clear(jar: &Jar) {
    jar.store.write().clear();
}

impl Jar {
    /// Offers a cookie, written as in a `Set-Cookie` header, to the jar for
    /// `url`.
    pub fn add_cookie_str(&self, cookie: &str, url: &Url) {
        jar_insert(self, cookie, url)
    }
}

impl CookieStore for Jar {
    fn set_cookies(&self, cookie_headers: &Vec<Vec<u8>>, url: &Url) {
        let mut i: usize = 0;
        while i < cookie_headers.len()
            invariant
                i <= cookie_headers.len(),
            decreases cookie_headers.len() - i,
        {
            match utf8_str(cookie_headers[i].as_slice()) {
                Some(text) => jar_insert(self, text, url),
                None => {},
            }
            i += 1;
        }
    }

    fn set_cookie(&self, url: &Url, cookie_header: &[u8]) {
        match utf8_str(cookie_header) {
            Some(text) => jar_insert(self, text, url),
            None => {},
        }
    }

    /// One header value that names every matching cookie, or nothing where
    /// none matches: whichever names and values the jar holds for `url`,
    /// the answer is what [`cookie_values`] makes of them.
    fn cookies(&self, url: &Url) -> (values: Option<Vec<Vec<u8>>>)
        ensures
            exists|pairs: Seq<(Seq<u8>, Seq<u8>)>|
                opt_value_bytes(values) == #[trigger] cookie_answer(pairs),
            values matches Some(v) ==> v.len() == 1 && v[0].len() > 0 && is_header_value(v[0]@),
    {
        let pairs = jar_request_values(self, url);
        let values = cookie_values(&pairs);
        proof {
            assert(opt_value_bytes(values) == cookie_answer(pair_bytes(pairs@)));
            if values is Some {
                let v = values->0;
                let joined = cookie_header_value(pair_bytes(pairs@))->0;
                assert(value_bytes(v@) == seq![joined]);
                assert(value_bytes(v@).len() == v@.len());
                assert(value_bytes(v@)[0] == v@[0]@);
            }
        }
        values
    }

    fn remove(&self, url: &Url, name: &str) {
        match url.host_str() {
            Some(domain) => jar_remove(self, domain, url.path(), name),
            None => {},
        }
    }

    fn clear(&self) {
        jar_clear(self)
    }
}

impl Default for Jar {
    fn default() -> Jar {
        jar_new()
    }
}

} // verus!
