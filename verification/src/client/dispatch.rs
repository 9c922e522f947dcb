//! What the dispatcher of a client is set up with: how it writes HTTP/1
//! and HTTP/2, how it keeps connections, who resolves names, and how it
//! connects.

use vstd::prelude::*;
use std::time::Duration;
use crate::client::builder::DnsOverride;
use crate::connect::Connector;
use crate::http1::Http1Config;
use crate::http2::Http2Config;

verus! {

/// Which address families are looked up.
#[derive(Clone, Copy, Debug, PartialEq, Eq, Structural)]
pub enum LookupIpStrategy {
    Ipv4Only,
    Ipv6Only,
    Ipv4AndIpv6,
    Ipv6thenIpv4,
    Ipv4thenIpv6,
}

/// Who looks names up.
#[derive(Clone, Copy, Debug, PartialEq, Eq, Structural)]
pub enum Resolver {
    /// A resolver that the caller supplies.
    Custom,
    /// The Hickory resolver, with the given strategy.
    Hickory(LookupIpStrategy),
    /// The system's resolver.
    Gai,
}

/// The strategy of the Hickory resolver: the one asked for, else both
/// address families.
pub fn hickory_strategy(strategy: Option<LookupIpStrategy>) -> (chosen: LookupIpStrategy)
    ensures
        chosen == match strategy {
            Some(s) => s,
            None => LookupIpStrategy::Ipv4AndIpv6,
        },
{
    match strategy {
        Some(s) => s,
        None => LookupIpStrategy::Ipv4AndIpv6,
    }
}

/// What the dispatcher of a client is set up with.
#[derive(Debug)]
pub struct Dispatcher<L> {
    pub http1_config: Http1Config,
    pub http2_config: Http2Config,
    pub http2_only: bool,
    pub pool_idle_timeout: Option<Duration>,
    pub pool_max_idle_per_host: usize,
    pub pool_max_size: Option<usize>,
    pub resolver: Resolver,
    pub dns_overrides: Vec<DnsOverride>,
    pub connector: Connector<L>,
}

/// Whether two set-ups of a dispatcher agree: the same knobs, limits and
/// resolver, the same addresses for the same names, and connectors that
/// connect alike.
pub open spec fn same_dispatch<L>(a: Dispatcher<L>, b: Dispatcher<L>) -> bool {
    &&& a.http1_config == b.http1_config
    &&& a.http2_config == b.http2_config
    &&& a.http2_only == b.http2_only
    &&& a.pool_idle_timeout == b.pool_idle_timeout
    &&& a.pool_max_idle_per_host == b.pool_max_idle_per_host
    &&& a.pool_max_size == b.pool_max_size
    &&& a.resolver == b.resolver
    &&& a.dns_overrides@.len() == b.dns_overrides@.len()
    &&& forall|i: int|
        0 <= i < b.dns_overrides@.len() ==> (#[trigger] a.dns_overrides@[i]).domain@
            == b.dns_overrides@[i].domain@ && a.dns_overrides@[i].addrs@
            == b.dns_overrides@[i].addrs@
    &&& crate::connect::same_service(a.connector.base(), b.connector.base())
    &&& a.connector is Simple == b.connector is Simple
}

impl<L: Clone> Dispatcher<L> {
    /// A copy of this set-up.
    pub fn copy(&self) -> (copy: Dispatcher<L>)
        ensures
            same_dispatch(copy, *self),
    {
        let mut overrides: Vec<DnsOverride> = Vec::new();
        let mut i: usize = 0;
        while i < self.dns_overrides.len()
            invariant
                i <= self.dns_overrides.len(),
                overrides@.len() == i,
                forall|k: int|
                    0 <= k < i ==> (#[trigger] overrides@[k]).domain@
                        == self.dns_overrides@[k].domain@ && overrides@[k].addrs@
                        == self.dns_overrides@[k].addrs@,
            decreases self.dns_overrides.len() - i,
        {
            let entry = &self.dns_overrides[i];
            let mut addrs: Vec<crate::net::SocketAddr> = Vec::new();
            let mut j: usize = 0;
            while j < entry.addrs.len()
                invariant
                    j <= entry.addrs.len(),
                    addrs@ == entry.addrs@.take(j as int),
                decreases entry.addrs.len() - j,
            {
                addrs.push(entry.addrs[j]);
                proof {
                    assert(entry.addrs@.take(j as int).push(entry.addrs@[j as int])
                        =~= entry.addrs@.take(j + 1));
                }
                j += 1;
            }
            proof {
                assert(entry.addrs@.take(entry.addrs@.len() as int) =~= entry.addrs@);
            }
            overrides.push(DnsOverride { domain: entry.domain.clone(), addrs });
            i += 1;
        }
        Dispatcher {
            http1_config: self.http1_config,
            http2_config: self.http2_config,
            http2_only: self.http2_only,
            pool_idle_timeout: self.pool_idle_timeout,
            pool_max_idle_per_host: self.pool_max_idle_per_host,
            pool_max_size: self.pool_max_size,
            resolver: self.resolver,
            dns_overrides: overrides,
            connector: self.connector.copy(),
        }
    }
}

impl<L> Dispatcher<L> {
    /// Sets how HTTP/1 is written.
    pub fn set_http1_config(&mut self, config: Http1Config)
        ensures
            *final(self) == (Dispatcher { http1_config: config, ..*old(self) }),
    {
        self.http1_config = config;
    }

    /// Sets how HTTP/2 is written.
    pub fn set_http2_config(&mut self, config: Http2Config)
        ensures
            *final(self) == (Dispatcher { http2_config: config, ..*old(self) }),
    {
        self.http2_config = config;
    }

    /// The connector, to change it in place.
    pub fn connector_mut(&mut self) -> (connector: &mut Connector<L>)
        ensures
            *connector == old(self).connector,
            *final(self) == (Dispatcher { connector: *final(connector), ..*old(self) }),
    {
        &mut self.connector
    }
}

} // verus!
