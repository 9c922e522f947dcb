//! The connection pool.
//!
//! The pool keeps two kinds of connections by the authority they lead to.
//! An HTTP/1 connection serves one request at a time: it is taken out of
//! the pool while a request uses it and put back when the exchange ended
//! cleanly. An HTTP/2 connection is shared: requests take streams on it,
//! as many at a time as the peer allows, until the peer announces that it
//! goes away. The pool holds records; the connections themselves stay with
//! the caller, who finds them by their number. A connection serves only
//! requests of its own key, which names the TLS set-up it was opened with:
//! after a change of profile the connections of the old one are not used
//! again.

use vstd::prelude::*;
use crate::net::Ipv4Addr;
use crate::net::Ipv6Addr;
use crate::scheme::NetworkScheme;
use crate::scheme::NetworkSchemeView;
use crate::text::opt_string_eq;
use crate::text::opt_text;
use crate::text::str_eq;
use crate::url::Url;
use crate::url::UrlView;

verus! {

/// What connections are kept under: scheme, host and port of the
/// destination, the proxy they go through, the interface and the local
/// addresses they are bound to, whether they speak HTTP/2, and what
/// identifies the TLS set-up they were opened with.
#[derive(Debug)]
pub struct PoolKey {
    pub scheme: String,
    pub host: String,
    pub port: u16,
    pub proxy: Option<String>,
    pub bind: Option<String>,
    pub addresses: (Option<Ipv4Addr>, Option<Ipv6Addr>),
    pub http2: bool,
    pub identity: Option<Vec<u8>>,
}

/// A key, to contracts.
pub ghost struct PoolKeyView {
    pub scheme: Seq<char>,
    pub host: Seq<char>,
    pub port: u16,
    pub proxy: Option<Seq<char>>,
    pub bind: Option<Seq<char>>,
    pub addresses: (Option<Seq<u8>>, Option<Seq<u8>>),
    pub http2: bool,
    pub identity: Option<Seq<u8>>,
}

/// The bytes of the two local addresses.
pub open spec fn address_bytes(addresses: (Option<Ipv4Addr>, Option<Ipv6Addr>)) -> (
    Option<Seq<u8>>,
    Option<Seq<u8>>,
) {
    (
        match addresses.0 {
            Some(a) => Some(a.0@),
            None => None,
        },
        match addresses.1 {
            Some(a) => Some(a.0@),
            None => None,
        },
    )
}

impl View for PoolKey {
    type V = PoolKeyView;

    open spec fn view(&self) -> PoolKeyView {
        PoolKeyView {
            scheme: self.scheme@,
            host: self.host@,
            port: self.port,
            proxy: opt_text(self.proxy),
            bind: opt_text(self.bind),
            addresses: address_bytes(self.addresses),
            http2: self.http2,
            identity: match self.identity {
                Some(i) => Some(i@),
                None => None,
            },
        }
    }
}

/// Whether two IPv4 addresses, each of which may be absent, are the same.
fn same_v4(a: &Option<Ipv4Addr>, b: &Option<Ipv4Addr>) -> (same: bool)
    ensures
        same == (address_bytes((*a, None)).0 == address_bytes((*b, None)).0),
{
    match (a, b) {
        (Some(x), Some(y)) => {
            let same = x.0[0] == y.0[0] && x.0[1] == y.0[1] && x.0[2] == y.0[2] && x.0[3] == y.0[3];
            proof {
                if same {
                    assert(x.0@ =~= y.0@);
                }
            }
            same
        },
        (None, None) => true,
        _ => false,
    }
}

/// Whether two IPv6 addresses, each of which may be absent, are the same.
fn same_v6(a: &Option<Ipv6Addr>, b: &Option<Ipv6Addr>) -> (same: bool)
    ensures
        same == (address_bytes((None, *a)).1 == address_bytes((None, *b)).1),
{
    match (a, b) {
        (Some(x), Some(y)) => {
            let mut i: usize = 0;
            while i < 16
                invariant
                    i <= 16,
                    *a == Some(*x),
                    *b == Some(*y),
                    forall|j: int| 0 <= j < i ==> x.0@[j] == y.0@[j],
                decreases 16 - i,
            {
                if x.0[i] != y.0[i] {
                    proof {
                        assert(x.0@[i as int] != y.0@[i as int]);
                    }
                    return false;
                }
                i += 1;
            }
            proof {
                assert(x.0@ =~= y.0@);
            }
            true
        },
        (None, None) => true,
        _ => false,
    }
}

impl PoolKey {
    /// Whether two keys are the same.
    pub fn same(&self, other: &PoolKey) -> (b: bool)
        ensures
            b == (self@ == other@),
    {
        self.port == other.port && self.http2 == other.http2 && str_eq(
            self.scheme.as_str(),
            other.scheme.as_str(),
        ) && str_eq(self.host.as_str(), other.host.as_str()) && opt_string_eq(
            &self.proxy,
            &other.proxy,
        ) && opt_string_eq(&self.bind, &other.bind) && same_v4(
            &self.addresses.0,
            &other.addresses.0,
        ) && same_v6(&self.addresses.1, &other.addresses.1) && match (
            &self.identity,
            &other.identity,
        ) {
            (Some(a), Some(b)) => crate::text::bytes_eq(a.as_slice(), b.as_slice()),
            (None, None) => true,
            _ => false,
        }
    }
}

/// The key for a request to `uri` that takes the route `route`: the
/// destination, the proxy on the route, the interface and the local
/// addresses of the route, whether HTTP/2 is spoken, and, for an `https`
/// destination, `identity`, the identity of the TLS connector in force.
pub open spec fn key_of(uri: UrlView, route: NetworkSchemeView, http2: bool, identity: Seq<u8>)
    -> PoolKeyView {
    PoolKeyView {
        scheme: uri.scheme,
        host: match uri.host {
            Some(h) => h,
            None => Seq::empty(),
        },
        port: match uri.port {
            Some(p) => p,
            None => 0,
        },
        proxy: match route {
            NetworkSchemeView::Scheme { proxy_scheme: Some(p), .. } => Some(p.uri.href),
            _ => None,
        },
        bind: match route {
            NetworkSchemeView::Scheme { interface, .. } => interface,
            NetworkSchemeView::Default => None,
        },
        addresses: match route {
            NetworkSchemeView::Scheme { addresses, .. } => address_bytes(addresses),
            NetworkSchemeView::Default => (None, None),
        },
        http2,
        identity: if uri.scheme == "https"@ {
            Some(identity)
        } else {
            None
        },
    }
}

/// Composes the key for a request to `uri` that takes the route `route`.
/// Connections opened under another TLS set-up have another key, so that a
/// request never runs on them.
pub fn pool_key(uri: &Url, route: &NetworkScheme, http2: bool, identity: &[u8]) -> (key: PoolKey)
    ensures
        key@ == key_of(uri@, route@, http2, identity@),
{
    let host = match uri.host_str() {
        Some(h) => h.to_owned(),
        None => String::new(),
    };
    let port = match uri.port_or_known_default() {
        Some(p) => p,
        None => 0,
    };
    let (proxy, bind, addresses) = match route {
        NetworkScheme::Scheme { interface, addresses, proxy_scheme } => (
            match proxy_scheme {
                Some(p) => Some(p.uri.as_str().to_owned()),
                None => None,
            },
            match interface {
                Some(name) => Some(name.clone()),
                None => None,
            },
            *addresses,
        ),
        NetworkScheme::Default => (None, None, (None, None)),
    };
    let identity = if uri.is_https() {
        Some(crate::text::copy_bytes(identity))
    } else {
        None
    };
    PoolKey { scheme: uri.scheme().to_owned(), host, port, proxy, bind, addresses, http2, identity }
}

/// An idle HTTP/1 connection.
#[derive(Debug)]
pub struct Idle {
    /// The number of the connection.
    pub id: u64,
    /// What the connection is kept under.
    pub key: PoolKey,
    /// When the connection was put back.
    pub idle_since: u64,
}

/// A shared HTTP/2 connection.
#[derive(Debug)]
pub struct Shared {
    /// The number of the connection.
    pub id: u64,
    /// What the connection is kept under.
    pub key: PoolKey,
    /// The streams that are open on it.
    pub streams: usize,
    /// The number of streams the peer allows at a time.
    pub max_streams: usize,
    /// The peer announced that it goes away: the open streams go on, no
    /// new ones are taken.
    pub draining: bool,
}

/// What a request is given to run on.
#[derive(Debug)]
pub enum Checkout {
    /// An idle connection, for this request alone.
    Exclusive(Idle),
    /// A stream on the shared connection of this number.
    Stream(u64),
    /// Nothing: a new connection has to be dialled.
    Dial,
}

/// The pool.
#[derive(Debug)]
pub struct Pool {
    /// The idle HTTP/1 connections, in the order in which they were put
    /// back.
    pub idle: Vec<Idle>,
    /// The shared HTTP/2 connections.
    pub shared: Vec<Shared>,
    /// How long an idle connection is kept; without a limit where absent.
    pub idle_timeout: Option<u64>,
    /// How many idle connections are kept under one key.
    pub max_idle_per_host: usize,
    /// How many idle connections are kept in all; without a limit where
    /// absent.
    pub max_size: Option<usize>,
}

/// Whether a connection that has been idle since `idle_since` is too old
/// at `now`.
pub open spec fn expired(idle_since: u64, now: u64, timeout: Option<u64>) -> bool {
    timeout matches Some(t) && now > idle_since && now - idle_since > t
}

/// Whether the idle connection `conn` can serve a request for `key` at
/// `now`.
pub open spec fn usable_idle(conn: Idle, key: PoolKeyView, now: u64, timeout: Option<u64>) -> bool {
    conn.key@ == key && !expired(conn.idle_since, now, timeout)
}

/// Whether a stream can be taken on the shared connection `conn` for a
/// request for `key`: it does not go away and has a stream to spare.
pub open spec fn usable_shared(conn: Shared, key: PoolKeyView) -> bool {
    conn.key@ == key && !conn.draining && conn.streams < conn.max_streams
}

/// The number of idle connections kept under `key`.
pub open spec fn count_key(idle: Seq<Idle>, key: PoolKeyView) -> nat
    decreases idle.len(),
{
    if idle.len() == 0 {
        0
    } else {
        count_key(idle.drop_last(), key) + if idle.last().key@ == key {
            1nat
        } else {
            0nat
        }
    }
}

/// The idle connections that are not too old at `now`, in their order.
pub open spec fn unexpired(idle: Seq<Idle>, now: u64, timeout: Option<u64>) -> Seq<Idle>
    decreases idle.len(),
{
    if idle.len() == 0 {
        Seq::empty()
    } else if expired(idle.last().idle_since, now, timeout) {
        unexpired(idle.drop_last(), now, timeout)
    } else {
        unexpired(idle.drop_last(), now, timeout).push(idle.last())
    }
}

/// Whether an idle connection is too old.
fn is_expired(idle_since: u64, now: u64, timeout: Option<u64>) -> (b: bool)
    ensures
        b == expired(idle_since, now, timeout),
{
    match timeout {
        Some(t) => now > idle_since && now - idle_since > t,
        None => false,
    }
}

/// Whether `after` and `checkout` are what a request for `key` at `now`
/// makes of the pool `before`.
///
/// The request is given a stream on the first shared connection that has
/// one to spare, which then has one stream more. Else it is given the idle
/// connection that was put back last among those that fit and are not too
/// old, which leaves the pool. Else it is given nothing, and the pool
/// stays as it is.
pub open spec fn acquired(
    before: Pool,
    after: Pool,
    key: PoolKeyView,
    now: u64,
    checkout: Checkout,
) -> bool {
    match checkout {
        Checkout::Stream(id) => {
            &&& after.idle == before.idle
            &&& exists|i: int|
                {
                    &&& 0 <= i < before.shared@.len()
                    &&& #[trigger] usable_shared(before.shared@[i], key)
                    &&& before.shared@[i].id == id
                    &&& forall|j: int| 0 <= j < i ==> !usable_shared(#[trigger] before.shared@[j], key)
                    &&& after.shared@ == before.shared@.update(
                        i,
                        Shared {
                            streams: (before.shared@[i].streams + 1) as usize,
                            ..before.shared@[i]
                        },
                    )
                }
        },
        Checkout::Exclusive(conn) => {
            &&& after.shared == before.shared
            &&& forall|j: int|
                0 <= j < before.shared@.len() ==> !usable_shared(#[trigger] before.shared@[j], key)
            &&& exists|i: int|
                {
                    &&& 0 <= i < before.idle@.len()
                    &&& before.idle@[i] == conn
                    &&& #[trigger] usable_idle(before.idle@[i], key, now, before.idle_timeout)
                    &&& forall|j: int|
                        i < j < before.idle@.len() ==> !usable_idle(
                            #[trigger] before.idle@[j],
                            key,
                            now,
                            before.idle_timeout,
                        )
                    &&& after.idle@ == before.idle@.remove(i)
                }
        },
        Checkout::Dial => {
            &&& after == before
            &&& forall|j: int|
                0 <= j < before.shared@.len() ==> !usable_shared(#[trigger] before.shared@[j], key)
            &&& forall|j: int|
                0 <= j < before.idle@.len() ==> !usable_idle(
                    #[trigger] before.idle@[j],
                    key,
                    now,
                    before.idle_timeout,
                )
        },
    }
}

/// A request that is given up gives back to the pool no connection that it
/// could not have found there: however it was served, the pool holds no
/// more idle connections after the request was given up than before it was
/// served. And a connection that goes away serves no request.
pub proof fn lemma_given_up_request_leaks_nothing(
    before: Pool,
    served: Pool,
    after: Pool,
    key: PoolKeyView,
    now: u64,
    checkout: Checkout,
)
    requires
        acquired(before, served, key, now, checkout),
        after.idle == served.idle,
    ensures
        after.idle@.len() <= before.idle@.len(),
        checkout matches Checkout::Stream(id) ==> exists|i: int|
            0 <= i < before.shared@.len() && (#[trigger] before.shared@[i]).id == id
                && !before.shared@[i].draining,
{
    match checkout {
        Checkout::Stream(id) => {
            let i = choose|i: int|
                {
                    &&& 0 <= i < before.shared@.len()
                    &&& #[trigger] usable_shared(before.shared@[i], key)
                    &&& before.shared@[i].id == id
                };
            assert(before.shared@[i].id == id && !before.shared@[i].draining);
        },
        _ => {},
    }
}

/// Whether no two shared connections have the same number.
pub open spec fn distinct_ids(shared: Seq<Shared>) -> bool {
    forall|i: int, j: int|
        0 <= i < j < shared.len() ==> (#[trigger] shared[i]).id != (#[trigger] shared[j]).id
}

/// Whether the list holds a shared connection of number `id`.
pub open spec fn has_shared(shared: Seq<Shared>, id: u64) -> bool {
    exists|i: int| 0 <= i < shared.len() && (#[trigger] shared[i]).id == id
}

impl Pool {
    /// Whether the shared connections of the pool have numbers of their
    /// own.
    pub open spec fn wf(&self) -> bool {
        distinct_ids(self.shared@)
    }

    /// Checks that the shared connections of the pool have numbers of
    /// their own.
    pub fn is_wf(&self) -> (ok: bool)
        ensures
            ok == self.wf(),
    {
        let mut j: usize = 0;
        while j < self.shared.len()
            invariant
                j <= self.shared.len(),
                forall|a: int, b: int|
                    0 <= a < b < j ==> (#[trigger] self.shared@[a]).id != (
                    #[trigger] self.shared@[b]).id,
            decreases self.shared.len() - j,
        {
            let mut i: usize = 0;
            while i < j
                invariant
                    i <= j,
                    j < self.shared.len(),
                    forall|a: int| 0 <= a < i ==> (#[trigger] self.shared@[a]).id != self.shared@[j as int].id,
                decreases j - i,
            {
                if self.shared[i].id == self.shared[j].id {
                    return false;
                }
                i += 1;
            }
            j += 1;
        }
        true
    }

    /// An empty pool with the given limits.
    pub fn new(idle_timeout: Option<u64>, max_idle_per_host: usize, max_size: Option<usize>) -> (pool:
        Pool)
        ensures
            pool.wf(),
            pool.idle@.len() == 0,
            pool.shared@.len() == 0,
            pool.idle_timeout == idle_timeout,
            pool.max_idle_per_host == max_idle_per_host,
            pool.max_size == max_size,
    {
        Pool { idle: Vec::new(), shared: Vec::new(), idle_timeout, max_idle_per_host, max_size }
    }

    /// The number of idle connections.
    pub fn idle_count(&self) -> (n: usize)
        ensures
            n == self.idle@.len(),
    {
        self.idle.len()
    }

    /// Gives a request for `key` something to run on: a stream on the
    /// first shared connection that has one to spare; else the idle
    /// connection that was put back last among those that fit and are not
    /// too old, which leaves the pool; else nothing.
    pub fn acquire(&mut self, key: &PoolKey, now: u64) -> (checkout: Checkout)
        ensures
            old(self).wf() ==> final(self).wf(),
            final(self).idle_timeout == old(self).idle_timeout,
            final(self).max_idle_per_host == old(self).max_idle_per_host,
            final(self).max_size == old(self).max_size,
            acquired(*old(self), *final(self), key@, now, checkout),
    {
        let mut i: usize = 0;
        while i < self.shared.len()
            invariant
                i <= self.shared.len(),
                *self == *old(self),
                forall|j: int| 0 <= j < i ==> !usable_shared(#[trigger] self.shared@[j], key@),
            decreases self.shared.len() - i,
        {
            let fits = {
                let conn = &self.shared[i];
                conn.key.same(key) && !conn.draining && conn.streams < conn.max_streams
            };
            if fits {
                let mut conn = self.shared.remove(i);
                let id = conn.id;
                conn.streams = conn.streams + 1;
                self.shared.insert(i, conn);
                proof {
                    assert(usable_shared(old(self).shared@[i as int], key@));
                    assert(self.shared@ =~= old(self).shared@.update(
                        i as int,
                        Shared {
                            streams: (old(self).shared@[i as int].streams + 1) as usize,
                            ..old(self).shared@[i as int]
                        },
                    ));
                }
                return Checkout::Stream(id);
            }
            i += 1;
        }
        let mut k: usize = self.idle.len();
        while k > 0
            invariant
                k <= self.idle.len(),
                *self == *old(self),
                forall|j: int|
                    0 <= j < self.shared@.len() ==> !usable_shared(#[trigger] self.shared@[j], key@),
                forall|j: int|
                    k <= j < self.idle@.len() ==> !usable_idle(
                        #[trigger] self.idle@[j],
                        key@,
                        now,
                        self.idle_timeout,
                    ),
            decreases k,
        {
            k -= 1;
            let fits = {
                let conn = &self.idle[k];
                conn.key.same(key) && !is_expired(conn.idle_since, now, self.idle_timeout)
            };
            if fits {
                let conn = self.idle.remove(k);
                proof {
                    assert(usable_idle(old(self).idle@[k as int], key@, now, old(self).idle_timeout));
                }
                return Checkout::Exclusive(conn);
            }
        }
        Checkout::Dial
    }

    /// Counts the idle connections kept under `key`.
    pub fn idle_for(&self, key: &PoolKey) -> (n: usize)
        ensures
            n == count_key(self.idle@, key@),
    {
        let mut n: usize = 0;
        let mut i: usize = 0;
        while i < self.idle.len()
            invariant
                i <= self.idle.len(),
                n <= i,
                n == count_key(self.idle@.take(i as int), key@),
            decreases self.idle.len() - i,
        {
            proof {
                let upto = self.idle@.take(i + 1);
                assert(upto.drop_last() =~= self.idle@.take(i as int));
                assert(upto.last() == self.idle@[i as int]);
            }
            if self.idle[i].key.same(key) {
                n += 1;
            }
            i += 1;
        }
        proof {
            assert(self.idle@.take(self.idle@.len() as int) =~= self.idle@);
        }
        n
    }

    /// The position of the idle connection that has been idle longest; the
    /// first of them where there are several.
    fn oldest(&self) -> (at: usize)
        requires
            self.idle@.len() > 0,
        ensures
            at < self.idle@.len(),
            forall|j: int|
                0 <= j < self.idle@.len() ==> self.idle@[at as int].idle_since <= (
                #[trigger] self.idle@[j]).idle_since,
    {
        let mut at: usize = 0;
        let mut i: usize = 1;
        while i < self.idle.len()
            invariant
                1 <= i <= self.idle.len(),
                at < i,
                forall|j: int|
                    0 <= j < i ==> self.idle@[at as int].idle_since <= (
                    #[trigger] self.idle@[j]).idle_since,
            decreases self.idle.len() - i,
        {
            if self.idle[i].idle_since < self.idle[at].idle_since {
                at = i;
            }
            i += 1;
        }
        at
    }

    /// Whether an HTTP/1 connection that is handed back is kept: the
    /// exchange ended cleanly, the pool may keep connections at all, and
    /// the key has room for another idle connection.
    pub open spec fn keeps(&self, key: PoolKeyView, reusable: bool) -> bool {
        reusable && self.max_size != Some(0usize) && count_key(self.idle@, key)
            < self.max_idle_per_host
    }

    /// Whether keeping another idle connection pushes one out: the pool is
    /// as large as it may be.
    pub open spec fn is_full(&self) -> bool {
        self.max_size matches Some(m) && self.idle@.len() >= m
    }

    /// Hands an HTTP/1 connection back at `now`. It is kept only where the
    /// exchange ended cleanly (`reusable`) and the key has room; a
    /// connection whose exchange failed is never kept. Where the pool is
    /// full, the connection that has been idle longest makes room. Says
    /// whether the connection was kept.
    pub fn release(&mut self, id: u64, key: PoolKey, reusable: bool, now: u64) -> (kept: bool)
        ensures
            old(self).wf() ==> final(self).wf(),
            kept == old(self).keeps(key@, reusable),
            final(self).shared == old(self).shared,
            final(self).idle_timeout == old(self).idle_timeout,
            final(self).max_idle_per_host == old(self).max_idle_per_host,
            final(self).max_size == old(self).max_size,
            !kept ==> final(self).idle == old(self).idle,
            kept && !old(self).is_full() ==> final(self).idle@ == old(self).idle@.push(
                Idle { id, key, idle_since: now },
            ),
            kept && old(self).is_full() ==> exists|i: int|
                {
                    &&& 0 <= i < old(self).idle@.len()
                    &&& forall|j: int|
                        0 <= j < old(self).idle@.len() ==> old(self).idle@[i].idle_since <= (
                        #[trigger] old(self).idle@[j]).idle_since
                    &&& #[trigger] final(self).idle@ == old(self).idle@.remove(i).push(
                        Idle { id, key, idle_since: now },
                    )
                },
            kept ==> final(self).idle@.len() <= old(self).idle@.len() + 1,
    {
        if !reusable {
            return false;
        }
        match self.max_size {
            Some(m) => {
                if m == 0 {
                    return false;
                }
            },
            None => {},
        }
        if self.idle_for(&key) >= self.max_idle_per_host {
            return false;
        }
        let full = match self.max_size {
            Some(m) => self.idle.len() >= m,
            None => false,
        };
        if full {
            let at = self.oldest();
            self.idle.remove(at);
        }
        self.idle.push(Idle { id, key, idle_since: now });
        true
    }

    /// Registers a new HTTP/2 connection under `key`, on which the peer
    /// allows `max_streams` streams at a time and `streams` are open. A
    /// number that the pool has already is not registered again. Says
    /// whether the connection was registered.
    pub fn share(&mut self, id: u64, key: PoolKey, streams: usize, max_streams: usize) -> (added:
        bool)
        ensures
            old(self).wf() ==> final(self).wf(),
            added == !has_shared(old(self).shared@, id),
            added ==> final(self).shared@ == old(self).shared@.push(
                Shared { id, key, streams, max_streams, draining: false },
            ),
            !added ==> final(self).shared == old(self).shared,
            final(self).idle == old(self).idle,
            final(self).idle_timeout == old(self).idle_timeout,
            final(self).max_idle_per_host == old(self).max_idle_per_host,
            final(self).max_size == old(self).max_size,
    {
        match self.find_shared(id) {
            Some(_) => false,
            None => {
                self.shared.push(Shared { id, key, streams, max_streams, draining: false });
                true
            },
        }
    }

    /// Where the shared connection of number `id` is, if the pool has it;
    /// the first where it has several.
    fn find_shared(&self, id: u64) -> (at: Option<usize>)
        ensures
            at matches Some(i) ==> i < self.shared@.len() && self.shared@[i as int].id == id
                && forall|j: int| 0 <= j < i ==> (#[trigger] self.shared@[j]).id != id,
            at is None ==> forall|j: int|
                0 <= j < self.shared@.len() ==> (#[trigger] self.shared@[j]).id != id,
            at is Some == has_shared(self.shared@, id),
            at matches Some(i) ==> i == first_with(self.shared@, id),
    {
        proof {
            lemma_first_with(self.shared@, id);
        }
        let mut i: usize = 0;
        while i < self.shared.len()
            invariant
                i <= self.shared.len(),
                forall|j: int| 0 <= j < i ==> (#[trigger] self.shared@[j]).id != id,
            decreases self.shared.len() - i,
        {
            if self.shared[i].id == id {
                proof {
                    lemma_first_with(self.shared@, id);
                }
                return Some(i);
            }
            i += 1;
        }
        None
    }

    /// Gives back a stream on the shared connection of number `id`. A
    /// connection that goes away leaves the pool with its last stream.
    /// The idle connections and the other shared connections are not
    /// touched.
    pub fn release_stream(&mut self, id: u64)
        requires
            old(self).wf(),
        ensures
            final(self).wf(),
            final(self).idle == old(self).idle,
            final(self).idle_timeout == old(self).idle_timeout,
            final(self).max_idle_per_host == old(self).max_idle_per_host,
            final(self).max_size == old(self).max_size,
            !has_shared(old(self).shared@, id) ==> final(self).shared == old(self).shared,
            final(self).shared@ == stream_released(old(self).shared@, id),
    {
        proof {
            lemma_first_with(self.shared@, id);
        }
        match self.find_shared(id) {
            Some(i) => {
                let ghost before = self.shared@;
                let mut conn = self.shared.remove(i);
                if conn.streams > 0 {
                    conn.streams = conn.streams - 1;
                }
                if conn.draining && conn.streams == 0 {
                    proof {
                        lemma_removal_keeps_distinct(before, i as int);
                    }
                } else {
                    self.shared.insert(i, conn);
                    proof {
                        assert(self.shared@ =~= before.update(i as int, conn));
                        lemma_update_keeps_distinct(before, i as int, conn);
                    }
                }
            },
            None => {},
        }
    }

    /// Notes that the peer of the shared connection of number `id`
    /// announced that it goes away: no stream is taken on it from now on.
    /// Where no stream is open on it, it leaves the pool at once. The idle
    /// connections and the other shared connections are not touched.
    pub fn go_away(&mut self, id: u64)
        requires
            old(self).wf(),
        ensures
            final(self).wf(),
            final(self).idle == old(self).idle,
            final(self).idle_timeout == old(self).idle_timeout,
            final(self).max_idle_per_host == old(self).max_idle_per_host,
            final(self).max_size == old(self).max_size,
            !has_shared(old(self).shared@, id) ==> final(self).shared == old(self).shared,
            has_shared(old(self).shared@, id) ==> {
                let i = first_with(old(self).shared@, id);
                let conn = old(self).shared@[i];
                final(self).shared@ == if conn.streams == 0 {
                    old(self).shared@.remove(i)
                } else {
                    old(self).shared@.update(i, Shared { draining: true, ..conn })
                }
            },
            forall|j: int, key: PoolKeyView|
                0 <= j < final(self).shared@.len() && (#[trigger] final(self).shared@[j]).id == id
                    ==> !#[trigger] usable_shared(final(self).shared@[j], key),
    {
        proof {
            lemma_first_with(self.shared@, id);
        }
        match self.find_shared(id) {
            Some(i) => {
                let ghost before = self.shared@;
                let mut conn = self.shared.remove(i);
                conn.draining = true;
                if conn.streams > 0 {
                    self.shared.insert(i, conn);
                    proof {
                        assert(self.shared@ =~= before.update(i as int, conn));
                        lemma_update_keeps_distinct(before, i as int, conn);
                        assert forall|j: int, key: PoolKeyView|
                            0 <= j < self.shared@.len() && (#[trigger] self.shared@[j]).id
                                == id implies !#[trigger] usable_shared(self.shared@[j], key) by {
                            if j < i {
                                assert(self.shared@[j].id != self.shared@[i as int].id);
                            } else if j > i {
                                assert(self.shared@[i as int].id != self.shared@[j].id);
                            }
                        }
                    }
                } else {
                    proof {
                        lemma_removal_keeps_distinct(before, i as int);
                        assert forall|j: int, key: PoolKeyView|
                            0 <= j < self.shared@.len() && (#[trigger] self.shared@[j]).id
                                == id implies !#[trigger] usable_shared(self.shared@[j], key) by {
                            let src = if j < i {
                                j
                            } else {
                                j + 1
                            };
                            assert(self.shared@[j] == before[src]);
                            if src < i {
                                assert(before[src].id != before[i as int].id);
                            } else {
                                assert(before[i as int].id != before[src].id);
                            }
                        }
                    }
                }
            },
            None => {},
        }
    }

    /// Deals with a request that was given up while it held `checkout`. An
    /// HTTP/1 connection is thrown away, not put back; a stream is given
    /// back. The pool holds no more idle connections afterwards than
    /// before.
    pub fn cancel(&mut self, checkout: Checkout)
        requires
            old(self).wf(),
        ensures
            final(self).wf(),
            final(self).idle == old(self).idle,
            final(self).idle@.len() <= old(self).idle@.len(),
            final(self).idle_timeout == old(self).idle_timeout,
            final(self).max_idle_per_host == old(self).max_idle_per_host,
            final(self).max_size == old(self).max_size,
            !(checkout is Stream) ==> final(self).shared == old(self).shared,
            checkout matches Checkout::Stream(id) ==> final(self).shared@ == stream_released(
                old(self).shared@,
                id,
            ),
    {
        match checkout {
            Checkout::Stream(id) => {
                self.release_stream(id);
            },
            Checkout::Exclusive(_) => {},
            Checkout::Dial => {},
        }
    }

    /// Throws away the idle connections that are too old at `now`.
    pub fn sweep(&mut self, now: u64)
        ensures
            old(self).wf() ==> final(self).wf(),
            final(self).idle@ == unexpired(old(self).idle@, now, old(self).idle_timeout),
            final(self).shared == old(self).shared,
            final(self).idle_timeout == old(self).idle_timeout,
            final(self).max_idle_per_host == old(self).max_idle_per_host,
            final(self).max_size == old(self).max_size,
    {
        let mut kept: Vec<Idle> = Vec::new();
        let ghost before = self.idle@;
        let ghost n = before.len();
        // The connections are moved over from the back, so that each move
        // is the removal of a last element; `kept` is in reverse order
        // until it is turned round at the end.
        while self.idle.len() > 0
            invariant
                self.idle@ == before.take(self.idle@.len() as int),
                n == before.len(),
                self.idle@.len() <= n,
                self.shared == old(self).shared,
                self.idle_timeout == old(self).idle_timeout,
                self.max_idle_per_host == old(self).max_idle_per_host,
                self.max_size == old(self).max_size,
                unexpired(before, now, self.idle_timeout) == unexpired(
                    self.idle@,
                    now,
                    self.idle_timeout,
                ) + kept@.reverse(),
            decreases self.idle.len(),
        {
            let ghost rest = self.idle@;
            let ghost reversed = kept@.reverse();
            let conn = self.idle.pop().unwrap();
            proof {
                assert(self.idle@ =~= rest.drop_last());
                assert(rest.drop_last() =~= before.take(rest.len() - 1));
            }
            if !is_expired(conn.idle_since, now, self.idle_timeout) {
                kept.push(conn);
                proof {
                    assert(kept@.reverse() =~= seq![conn] + reversed);
                    assert(unexpired(rest, now, self.idle_timeout) + reversed =~= unexpired(
                        rest.drop_last(),
                        now,
                        self.idle_timeout,
                    ) + kept@.reverse());
                }
            }
        }
        proof {
            assert(unexpired(self.idle@, now, self.idle_timeout) =~= Seq::<Idle>::empty());
            assert(Seq::<Idle>::empty() + kept@.reverse() =~= kept@.reverse());
        }
        let ghost target = kept@.reverse();
        while kept.len() > 0
            invariant
                self.idle@ + kept@.reverse() == target,
                self.shared == old(self).shared,
                self.idle_timeout == old(self).idle_timeout,
                self.max_idle_per_host == old(self).max_idle_per_host,
                self.max_size == old(self).max_size,
            decreases kept.len(),
        {
            let ghost rest = kept@;
            let ghost so_far = self.idle@;
            let conn = kept.pop().unwrap();
            self.idle.push(conn);
            proof {
                assert(kept@ =~= rest.drop_last());
                assert(rest.reverse() =~= seq![conn] + kept@.reverse());
                assert(self.idle@ + kept@.reverse() =~= so_far + rest.reverse());
            }
        }
        proof {
            assert(kept@.reverse() =~= Seq::<Idle>::empty());
            assert(self.idle@ + Seq::<Idle>::empty() =~= self.idle@);
        }
    }
}

/// The shared connections after a stream on the connection of number `id`
/// was given back: that connection has one stream less, or has left where
/// it goes away and that was its last stream; a list without such a
/// connection stays as it is.
pub open spec fn stream_released(shared: Seq<Shared>, id: u64) -> Seq<Shared> {
    if has_shared(shared, id) {
        let i = first_with(shared, id);
        let conn = shared[i];
        let left = if conn.streams > 0 {
            (conn.streams - 1) as usize
        } else {
            0usize
        };
        if conn.draining && left == 0 {
            shared.remove(i)
        } else {
            shared.update(i, Shared { streams: left, ..conn })
        }
    } else {
        shared
    }
}

/// The position of the first shared connection of number `id`; the length
/// of the list where there is none.
pub open spec fn first_with(shared: Seq<Shared>, id: u64) -> int
    decreases shared.len(),
{
    if shared.len() == 0 {
        0
    } else if shared[0].id == id {
        0
    } else {
        1 + first_with(shared.skip(1), id)
    }
}

/// The first shared connection of number `id` is where [`first_with`]
/// says, and no earlier one has that number.
pub proof fn lemma_first_with(shared: Seq<Shared>, id: u64)
    ensures
        0 <= first_with(shared, id) <= shared.len(),
        first_with(shared, id) < shared.len() ==> shared[first_with(shared, id)].id == id,
        forall|j: int| 0 <= j < first_with(shared, id) ==> (#[trigger] shared[j]).id != id,
    decreases shared.len(),
{
    if shared.len() > 0 && shared[0].id != id {
        lemma_first_with(shared.skip(1), id);
        assert forall|j: int| 0 <= j < first_with(shared, id) implies (#[trigger] shared[j]).id
            != id by {
            if j > 0 {
                assert(shared.skip(1)[j - 1] == shared[j]);
            }
        }
    }
}

/// Taking a connection out of a list of connections with numbers of their
/// own leaves such a list.
pub proof fn lemma_removal_keeps_distinct(shared: Seq<Shared>, i: int)
    requires
        distinct_ids(shared),
        0 <= i < shared.len(),
    ensures
        distinct_ids(shared.remove(i)),
{
    let after = shared.remove(i);
    assert forall|a: int, b: int| 0 <= a < b < after.len() implies (#[trigger] after[a]).id != (
    #[trigger] after[b]).id by {
        let sa = if a < i {
            a
        } else {
            a + 1
        };
        let sb = if b < i {
            b
        } else {
            b + 1
        };
        assert(after[a] == shared[sa]);
        assert(after[b] == shared[sb]);
        assert(shared[sa].id != shared[sb].id);
    }
}

/// Putting a connection in the place of one with the same number leaves a
/// list of connections with numbers of their own.
pub proof fn lemma_update_keeps_distinct(shared: Seq<Shared>, i: int, conn: Shared)
    requires
        distinct_ids(shared),
        0 <= i < shared.len(),
        conn.id == shared[i].id,
    ensures
        distinct_ids(shared.update(i, conn)),
{
    let after = shared.update(i, conn);
    assert forall|a: int, b: int| 0 <= a < b < after.len() implies (#[trigger] after[a]).id != (
    #[trigger] after[b]).id by {
        assert(after[a].id == shared[a].id);
        assert(after[b].id == shared[b].id);
        assert(shared[a].id != shared[b].id);
    }
}

} // verus!
