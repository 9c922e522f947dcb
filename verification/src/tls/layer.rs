//! Setting up TLS for one connection.
//!
//! A destination with the scheme `https` or `wss` is reached over TLS. The
//! handshake is for the host of the destination, without the brackets of an
//! IPv6 literal, and resumes the session that was last stored for the host
//! and port, where there is one.

use vstd::prelude::*;
use crate::error::Error;
use crate::text::str_eq;
use crate::url::Url;
use crate::url::UrlView;

verus! {

/// What sessions are stored under: host and port.
#[derive(Debug)]
pub struct SessionKey {
    pub host: String,
    pub port: u16,
}

impl View for SessionKey {
    type V = (Seq<char>, u16);

    open spec fn view(&self) -> (Seq<char>, u16) {
        (self.host@, self.port)
    }
}

impl SessionKey {
    /// Whether two keys name the same host and port.
    pub fn same(&self, other: &SessionKey) -> (b: bool)
        ensures
            b == (self@ == other@),
    {
        self.port == other.port && str_eq(self.host.as_str(), other.host.as_str())
    }
}

/// The settings of the TLS layer.
#[derive(Clone, Copy, Debug)]
pub struct HttpsLayerSettings {
    /// Store sessions for resumption.
    pub session_cache: bool,
    /// How many sessions are stored.
    pub session_cache_capacity: usize,
    /// Ask for no session ticket when a session is resumed.
    pub skip_session_ticket: bool,
}

/// The sessions stored for resumption, at most as many as the capacity
/// says, oldest first. A host and port has at most one session: the one
/// stored last.
pub struct SessionCache<S> {
    entries: Vec<(SessionKey, S)>,
    capacity: usize,
}

/// The position of the entry for `key`, if there is one.
pub open spec fn position<S>(entries: Seq<(SessionKey, S)>, key: (Seq<char>, u16)) -> Option<int> {
    if exists|i: int| 0 <= i < entries.len() && (#[trigger] entries[i]).0@ == key {
        Some(choose|i: int| 0 <= i < entries.len() && (#[trigger] entries[i]).0@ == key)
    } else {
        None
    }
}

/// Whether no two entries are for the same host and port.
pub open spec fn distinct_keys<S>(entries: Seq<(SessionKey, S)>) -> bool {
    forall|i: int, j: int|
        0 <= i < j < entries.len() ==> (#[trigger] entries[i]).0@ != (#[trigger] entries[j]).0@
}

/// Whether storing a session for `key` pushes no other session out: the
/// key has a session already, or the cache is not full.
pub open spec fn makes_no_room<S>(cache: SessionCache<S>, key: (Seq<char>, u16)) -> bool {
    cache.session(key) is Some || cache.entries().len() < cache.capacity()
}

impl<S> SessionCache<S> {
    /// The stored entries, oldest first.
    pub closed spec fn entries(&self) -> Seq<(SessionKey, S)> {
        self.entries@
    }

    /// How many sessions are stored at most.
    pub closed spec fn capacity(&self) -> usize {
        self.capacity
    }

    /// Whether the cache holds at most one session for a host and port and
    /// no more sessions than its capacity allows.
    pub open spec fn wf(&self) -> bool {
        distinct_keys(self.entries()) && self.entries().len() <= self.capacity()
    }

    /// The session stored for `key`, if there is one.
    pub open spec fn session(&self, key: (Seq<char>, u16)) -> Option<S> {
        match position(self.entries(), key) {
            Some(i) => Some(self.entries()[i].1),
            None => None,
        }
    }

    /// An empty cache for up to `capacity` sessions.
    pub fn with_capacity(capacity: usize) -> (cache: SessionCache<S>)
        ensures
            cache.wf(),
            cache.capacity() == capacity,
            cache.entries().len() == 0,
    {
        SessionCache { entries: Vec::new(), capacity }
    }

    /// The number of stored sessions.
    pub fn len(&self) -> (n: usize)
        ensures
            n == self.entries().len(),
    {
        self.entries.len()
    }

    /// Where the entry for `key` is, if there is one.
    fn find(&self, key: &SessionKey) -> (found: Option<usize>)
        requires
            self.wf(),
        ensures
            found matches Some(i) ==> position(self.entries(), key@) == Some(i as int),
            found is None ==> position(self.entries(), key@) is None,
    {
        let mut i: usize = 0;
        while i < self.entries.len()
            invariant
                i <= self.entries.len(),
                self.wf(),
                forall|k: int| 0 <= k < i ==> (#[trigger] self.entries@[k]).0@ != key@,
            decreases self.entries.len() - i,
        {
            if self.entries[i].0.same(key) {
                proof {
                    let chosen = position(self.entries(), key@)->0;
                    if chosen < i {
                        assert(self.entries@[chosen].0@ != key@);
                    } else if chosen > i {
                        assert(self.entries@[i as int].0@ != self.entries@[chosen].0@);
                    }
                }
                return Some(i);
            }
            i += 1;
        }
        None
    }

    /// The session stored for `key`.
    pub fn get(&self, key: &SessionKey) -> (session: Option<&S>)
        requires
            self.wf(),
        ensures
            session is Some == self.session(key@) is Some,
            session matches Some(s) ==> Some(*s) == self.session(key@),
    {
        match self.find(key) {
            Some(i) => Some(&self.entries[i].1),
            None => None,
        }
    }

    /// Stores `session` for `key`, in place of the session stored for it
    /// before. Where the cache is full and the key is new, the oldest
    /// session makes room. A cache without capacity stores nothing.
    pub fn insert(&mut self, key: SessionKey, session: S)
        requires
            old(self).wf(),
        ensures
            final(self).wf(),
            final(self).capacity() == old(self).capacity(),
            old(self).capacity() > 0 ==> final(self).session(key@) == Some(session),
            old(self).capacity() == 0 ==> final(self).entries() == old(self).entries(),
            forall|k: (Seq<char>, u16)|
                k != key@ && (#[trigger] final(self).session(k)) is Some ==> final(self).session(k)
                    == old(self).session(k),
            forall|k: (Seq<char>, u16)|
                k != key@ && (#[trigger] old(self).session(k)) is Some && makes_no_room(*old(self), key@)
                    ==> final(self).session(k) == old(self).session(k),
    {
        if self.capacity == 0 {
            return ;
        }
        let ghost before = self.entries@;
        let found = self.find(&key);
        match found {
            Some(i) => {
                self.entries.remove(i);
            },
            None => {
                if self.entries.len() >= self.capacity {
                    self.entries.remove(0);
                }
            },
        }
        let ghost mid = self.entries@;
        let ghost removed: int = match found {
            Some(i) => i as int,
            None => if before.len() >= self.capacity {
                0int
            } else {
                -1int
            },
        };
        proof {
            assert(removed >= 0 ==> mid =~= before.remove(removed));
            assert(removed < 0 ==> mid == before);
            assert forall|a: int| 0 <= a < mid.len() implies (#[trigger] mid[a]) == before[if removed
                >= 0 && a >= removed {
                a + 1
            } else {
                a
            }] by {}
            assert forall|a: int| 0 <= a < mid.len() implies (#[trigger] mid[a]).0@ != key@ by {
                let src = if removed >= 0 && a >= removed {
                    a + 1
                } else {
                    a
                };
                assert(mid[a] == before[src]);
                match found {
                    Some(i) => {
                        if src < i {
                            assert(before[src].0@ != before[i as int].0@);
                        } else {
                            assert(before[i as int].0@ != before[src].0@);
                        }
                    },
                    None => {},
                }
            }
        }
        self.entries.push((key, session));
        proof {
            let after = self.entries@;
            let last = after.len() - 1;
            assert(after[last].0@ == key@);
            assert forall|a: int, b: int| 0 <= a < b < after.len() implies (
            #[trigger] after[a]).0@ != (#[trigger] after[b]).0@ by {
                if b == last {
                    assert(after[a] == mid[a]);
                } else {
                    assert(after[a] == mid[a]);
                    assert(after[b] == mid[b]);
                    let sa = if removed >= 0 && a >= removed {
                        a + 1
                    } else {
                        a
                    };
                    let sb = if removed >= 0 && b >= removed {
                        b + 1
                    } else {
                        b
                    };
                    assert(mid[a] == before[sa]);
                    assert(mid[b] == before[sb]);
                    assert(before[sa].0@ != before[sb].0@);
                }
            }
            let chosen = position(after, key@)->0;
            assert(chosen == last) by {
                if chosen < last {
                    assert(after[chosen].0@ != after[last].0@);
                }
            }
            assert forall|k: (Seq<char>, u16)|
                k != key@ && (#[trigger] position(after, k)) is Some implies position(before, k)
                is Some && before[position(before, k)->0].1 == after[position(after, k)->0].1 by {
                let a = position(after, k)->0;
                assert(a != last);
                assert(after[a] == mid[a]);
                let sa = if removed >= 0 && a >= removed {
                    a + 1
                } else {
                    a
                };
                assert(mid[a] == before[sa]);
                assert(before[sa].0@ == k);
                let c = position(before, k)->0;
                if c < sa {
                    assert(before[c].0@ != before[sa].0@);
                } else if sa < c {
                    assert(before[sa].0@ != before[c].0@);
                }
            }
            assert forall|k: (Seq<char>, u16)|
                k != key@ && (#[trigger] position(before, k)) is Some && (position(before, key@)
                    is Some || before.len() < self.capacity) implies position(after, k) is Some
                && before[position(before, k)->0].1 == after[position(after, k)->0].1 by {
                let c = position(before, k)->0;
                assert(c != removed) by {
                    if removed >= 0 {
                        assert(found is Some);
                        assert(before[removed].0@ == key@);
                    }
                }
                let a = if removed >= 0 && c > removed {
                    c - 1
                } else {
                    c
                };
                assert(mid[a] == before[c]);
                assert(after[a] == mid[a]);
                assert(after[a].0@ == k);
                let d = position(after, k)->0;
                if d < a {
                    assert(after[d].0@ != after[a].0@);
                } else if a < d {
                    assert(after[a].0@ != after[d].0@);
                }
            }
        }
    }
}

/// What the TLS layer goes by for every connection.
#[derive(Clone, Copy, Debug)]
pub struct Inner {
    /// How many sessions are stored for resumption; nothing where none are
    /// stored.
    pub cache: Option<usize>,
    /// Ask for no session ticket when a session is resumed.
    pub skip_session_ticket: bool,
}

/// Makes connectors that reach `https` destinations over TLS.
#[derive(Clone, Copy, Debug)]
pub struct HttpsLayer {
    pub inner: Inner,
}

/// A connector that reaches `http` destinations in the clear and `https`
/// destinations over TLS.
#[derive(Debug)]
pub struct HttpsConnector<T> {
    pub http: T,
    pub inner: Inner,
}

/// How TLS is set up for one connection.
#[derive(Debug)]
pub struct SslSetup {
    /// What the session of the connection is stored under.
    pub key: SessionKey,
    /// Resume the stored session.
    pub resume: bool,
    /// Ask for no session ticket.
    pub no_ticket: bool,
}

/// How a destination is reached.
#[derive(Debug)]
pub enum MaybeHttps {
    /// In the clear.
    Http,
    /// Over TLS, with a handshake for this host.
    Https(String),
}

impl HttpsLayer {
    /// A layer with the given settings: sessions are stored where the
    /// settings say so, as many as they say.
    pub fn with_connector_and_settings(settings: HttpsLayerSettings) -> (layer: HttpsLayer)
        ensures
            layer.inner.cache == if settings.session_cache {
                Some(settings.session_cache_capacity)
            } else {
                None
            },
            layer.inner.skip_session_ticket == settings.skip_session_ticket,
    {
        let cache = if settings.session_cache {
            Some(settings.session_cache_capacity)
        } else {
            None
        };
        HttpsLayer { inner: Inner { cache, skip_session_ticket: settings.skip_session_ticket } }
    }

    /// Wraps the connector `inner`.
    pub fn layer<S>(&self, inner: S) -> (connector: HttpsConnector<S>)
        ensures
            connector.http == inner,
            connector.inner == self.inner,
    {
        HttpsConnector { http: inner, inner: self.inner }
    }
}

/// The port that sessions for `uri` are stored under: the one the URL
/// names, else 443.
pub open spec fn session_port(uri: UrlView) -> u16 {
    match uri.explicit_port {
        Some(p) => p,
        None => 443,
    }
}

impl Inner {
    /// How TLS is set up for a connection to `host` for the destination
    /// `uri`; `cached` says whether a session is stored for the host and
    /// port. A stored session is resumed where sessions are stored at all;
    /// no ticket is asked for where a session is resumed and the settings
    /// say so.
    pub fn setup_ssl(&self, uri: &Url, host: &str, cached: bool) -> (setup: SslSetup)
        ensures
            setup.key@ == (host@, session_port(uri@)),
            setup.resume == (self.cache is Some && cached),
            setup.no_ticket == (self.cache is Some && cached && self.skip_session_ticket),
    {
        let port = match uri.port() {
            Some(p) => p,
            None => 443,
        };
        let key = SessionKey { host: host.to_owned(), port };
        let resume = self.cache.is_some() && cached;
        SslSetup { key, resume, no_ticket: resume && self.skip_session_ticket }
    }
}

/// Whether a destination with the given scheme is reached over TLS.
pub open spec fn is_tls_scheme(scheme: Seq<char>) -> bool {
    scheme == "https"@ || scheme == "wss"@
}

/// Whether `host` is written in brackets.
pub open spec fn is_bracketed(host: Seq<char>) -> bool {
    host.len() >= 2 && host[0] == '[' && host[host.len() - 1] == ']'
}

/// What stands between the brackets of `host`.
pub open spec fn between_brackets(host: Seq<char>) -> Seq<char> {
    host.subrange(1, host.len() - 1)
}

/// The host to run the handshake for: what stands between the brackets,
/// where the host is written in brackets and that is an IPv6 address; else
/// the host as it is.
pub open spec fn handshake_host(host: Seq<char>, inner_is_ipv6: bool) -> Seq<char> {
    if is_bracketed(host) && inner_is_ipv6 {
        between_brackets(host)
    } else {
        host
    }
}

/// What stands between the brackets of `host`, where it is written in
/// brackets.
pub fn bracketed_host(host: &str) -> (inner: Option<&str>)
    ensures
        inner is Some == is_bracketed(host@),
        inner matches Some(i) ==> i@ == between_brackets(host@),
{
    let n = host.unicode_len();
    if n >= 2 && host.get_char(0) == '[' && host.get_char(n - 1) == ']' {
        Some(host.substring_char(1, n - 1))
    } else {
        None
    }
}

/// The host to run the handshake for; `inner_is_ipv6` says whether what
/// stands between the brackets of `host`, if it has any, is an IPv6
/// address.
pub fn tls_host(host: &str, inner_is_ipv6: bool) -> (name: &str)
    ensures
        name@ == handshake_host(host@, inner_is_ipv6),
{
    if inner_is_ipv6 {
        match bracketed_host(host) {
            Some(inner) => inner,
            None => host,
        }
    } else {
        host
    }
}

impl<T> HttpsConnector<T> {
    /// A connector over `http` with the settings of `layer`.
    pub fn with_connector_layer(http: T, layer: HttpsLayer) -> (connector: HttpsConnector<T>)
        ensures
            connector.http == http,
            connector.inner == layer.inner,
    {
        HttpsConnector { http, inner: layer.inner }
    }

    /// How TLS is set up for a connection to `host` for the destination
    /// `uri`.
    pub fn setup_ssl(&self, uri: &Url, host: &str, cached: bool) -> (setup: SslSetup)
        ensures
            setup.key@ == (host@, session_port(uri@)),
            setup.resume == (self.inner.cache is Some && cached),
            setup.no_ticket == (self.inner.cache is Some && cached
                && self.inner.skip_session_ticket),
    {
        self.inner.setup_ssl(uri, host, cached)
    }

    /// How the destination `uri` is reached: in the clear unless its scheme
    /// is `https` or `wss`; else over TLS, which needs a host.
    /// `inner_is_ipv6` says whether what stands between the brackets of the
    /// host, if it has any, is an IPv6 address.
    pub fn call(&self, uri: &Url, inner_is_ipv6: bool) -> (way: Result<MaybeHttps, Error>)
        ensures
            !is_tls_scheme(uri@.scheme) ==> way == Ok::<MaybeHttps, Error>(MaybeHttps::Http),
            is_tls_scheme(uri@.scheme) && uri@.host is None ==> (way matches Err(e) && e@
                == crate::connect::bad_host()),
            is_tls_scheme(uri@.scheme) && uri@.host is Some ==> (way matches Ok(
                MaybeHttps::Https(h),
            ) && h@ == handshake_host(uri@.host->0, inner_is_ipv6)),
    {
        let is_tls = uri.is_https() || str_eq(uri.scheme(), "wss");
        if !is_tls {
            return Ok(MaybeHttps::Http);
        }
        let host = match uri.host_str() {
            Some(h) => h,
            None => {
                return Err(Error::uri_bad_host());
            },
        };
        Ok(MaybeHttps::Https(tls_host(host, inner_is_ipv6).to_owned()))
    }
}

} // verus!
