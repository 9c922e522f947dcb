//! How a request reaches the network: the local addresses and interface to
//! bind to, and the proxy to go through.

use vstd::prelude::*;
use crate::net::IpAddr;
use crate::net::Ipv4Addr;
use crate::net::Ipv6Addr;
use crate::net::split_address;
use crate::net::split_local_address;
use crate::proxy::ProxyScheme;
use crate::proxy::ProxySchemeView;
use crate::proxy::opt_scheme_view;
use crate::text::opt_text;

verus! {

/// How a request reaches the network.
#[derive(Debug)]
pub enum NetworkScheme {
    /// By the given route.
    Scheme {
        /// The interface to bind to.
        interface: Option<String>,
        /// The local addresses to bind to, one for each family.
        addresses: (Option<Ipv4Addr>, Option<Ipv6Addr>),
        /// The proxy to go through.
        proxy_scheme: Option<ProxyScheme>,
    },
    /// By whatever route the client is set up for.
    Default,
}

/// A route, to contracts.
pub ghost enum NetworkSchemeView {
    Scheme {
        interface: Option<Seq<char>>,
        addresses: (Option<Ipv4Addr>, Option<Ipv6Addr>),
        proxy_scheme: Option<ProxySchemeView>,
    },
    Default,
}

impl View for NetworkScheme {
    type V = NetworkSchemeView;

    open spec fn view(&self) -> NetworkSchemeView {
        match self {
            NetworkScheme::Scheme { interface, addresses, proxy_scheme } => {
                NetworkSchemeView::Scheme {
                    interface: opt_text(*interface),
                    addresses: *addresses,
                    proxy_scheme: opt_scheme_view(*proxy_scheme),
                }
            },
            NetworkScheme::Default => NetworkSchemeView::Default,
        }
    }
}

impl NetworkScheme {
    /// A builder that names no route.
    pub fn builder() -> (builder: NetworkSchemeBuilder)
        ensures
            builder@ == NetworkSchemeBuilder::empty(),
    {
        NetworkSchemeBuilder { interface: None, addresses: (None, None), proxy_scheme: None }
    }

    /// Takes the proxy out of the route.
    pub fn take_proxy_scheme(&mut self) -> (proxy: Option<ProxyScheme>)
        ensures
            match old(self)@ {
                NetworkSchemeView::Scheme { interface, addresses, proxy_scheme } => {
                    opt_scheme_view(proxy) == proxy_scheme && final(self)@ == (
                    NetworkSchemeView::Scheme { interface, addresses, proxy_scheme: None })
                },
                NetworkSchemeView::Default => proxy is None && final(self)@
                    == NetworkSchemeView::Default,
            },
    {
        match self {
            NetworkScheme::Scheme { proxy_scheme, .. } => proxy_scheme.take(),
            _ => None,
        }
    }

    /// Takes the local addresses out of the route.
    pub fn take_addresses(&mut self) -> (taken: (Option<Ipv4Addr>, Option<Ipv6Addr>))
        ensures
            match old(self)@ {
                NetworkSchemeView::Scheme { interface, addresses, proxy_scheme } => {
                    taken == addresses && final(self)@ == (NetworkSchemeView::Scheme {
                        interface,
                        addresses: (None, None),
                        proxy_scheme,
                    })
                },
                NetworkSchemeView::Default => taken == (None::<Ipv4Addr>, None::<Ipv6Addr>)
                    && final(self)@ == NetworkSchemeView::Default,
            },
    {
        match self {
            NetworkScheme::Scheme { addresses, .. } => {
                let taken = *addresses;
                *addresses = (None, None);
                taken
            },
            _ => (None, None),
        }
    }

    /// Takes the interface out of the route.
    pub fn take_interface(&mut self) -> (taken: Option<String>)
        ensures
            match old(self)@ {
                NetworkSchemeView::Scheme { interface, addresses, proxy_scheme } => {
                    opt_text(taken) == interface && final(self)@ == (NetworkSchemeView::Scheme {
                        interface: None,
                        addresses,
                        proxy_scheme,
                    })
                },
                NetworkSchemeView::Default => taken is None && final(self)@
                    == NetworkSchemeView::Default,
            },
    {
        match self {
            NetworkScheme::Scheme { interface, .. } => interface.take(),
            _ => None,
        }
    }

    /// Whether no route is named.
    pub fn is_default(&self) -> (b: bool)
        ensures
            b == (self@ is Default),
    {
        match self {
            NetworkScheme::Default => true,
            _ => false,
        }
    }

    /// A copy of this route.
    pub fn copy(&self) -> (route: NetworkScheme)
        ensures
            route@ == self@,
    {
        match self {
            NetworkScheme::Scheme { interface, addresses, proxy_scheme } => NetworkScheme::Scheme {
                interface: match interface {
                    Some(i) => Some(i.clone()),
                    None => None,
                },
                addresses: *addresses,
                proxy_scheme: match proxy_scheme {
                    Some(p) => Some(p.copy()),
                    None => None,
                },
            },
            NetworkScheme::Default => NetworkScheme::Default,
        }
    }

    /// The route that binds to `value`.
    pub fn from_address(value: Option<IpAddr>) -> (route: NetworkScheme)
        ensures
            route@ == (NetworkSchemeView::Scheme {
                interface: None,
                addresses: split_address(value),
                proxy_scheme: None,
            }),
    {
        NetworkScheme::Scheme {
            interface: None,
            addresses: split_local_address(value),
            proxy_scheme: None,
        }
    }

    /// The route that binds to the given addresses, if there are any.
    pub fn from_addresses(v4: Option<Ipv4Addr>, v6: Option<Ipv6Addr>) -> (route: NetworkScheme)
        ensures
            route@ == (NetworkSchemeBuilderView {
                addresses: (v4, v6),
                ..NetworkSchemeBuilder::empty()
            }).route(),
    {
        let mut builder = NetworkScheme::builder();
        builder.addresses(v4, v6);
        builder.build()
    }

    /// The route through `value`.
    pub fn from_proxy_scheme(value: ProxyScheme) -> (route: NetworkScheme)
        ensures
            route@ == (NetworkSchemeView::Scheme {
                interface: None,
                addresses: (None, None),
                proxy_scheme: Some(value@),
            }),
    {
        let mut builder = NetworkScheme::builder();
        builder.proxy_scheme(Some(value));
        builder.build()
    }

    /// The route over the interface `value`.
    pub fn from_interface(value: String) -> (route: NetworkScheme)
        ensures
            route@ == (NetworkSchemeView::Scheme {
                interface: Some(value@),
                addresses: (None, None),
                proxy_scheme: None,
            }),
    {
        let mut builder = NetworkScheme::builder();
        builder.interface(value);
        builder.build()
    }
}

impl Default for NetworkScheme {
    fn default() -> (route: NetworkScheme)
        ensures
            route@ is Default,
    {
        NetworkScheme::Default
    }
}

/// Collects the parts of a route.
#[derive(Debug)]
pub struct NetworkSchemeBuilder {
    pub interface: Option<String>,
    pub addresses: (Option<Ipv4Addr>, Option<Ipv6Addr>),
    pub proxy_scheme: Option<ProxyScheme>,
}

/// The parts collected so far, to contracts.
pub ghost struct NetworkSchemeBuilderView {
    pub interface: Option<Seq<char>>,
    pub addresses: (Option<Ipv4Addr>, Option<Ipv6Addr>),
    pub proxy_scheme: Option<ProxySchemeView>,
}

impl NetworkSchemeBuilderView {
    /// The route these parts make: none where nothing is named.
    pub open spec fn route(self) -> NetworkSchemeView {
        if self.proxy_scheme is None && self.addresses.0 is None && self.addresses.1 is None
            && self.interface is None {
            NetworkSchemeView::Default
        } else {
            NetworkSchemeView::Scheme {
                interface: self.interface,
                addresses: self.addresses,
                proxy_scheme: self.proxy_scheme,
            }
        }
    }
}

impl View for NetworkSchemeBuilder {
    type V = NetworkSchemeBuilderView;

    open spec fn view(&self) -> NetworkSchemeBuilderView {
        NetworkSchemeBuilderView {
            interface: opt_text(self.interface),
            addresses: self.addresses,
            proxy_scheme: opt_scheme_view(self.proxy_scheme),
        }
    }
}

impl NetworkSchemeBuilder {
    /// The builder that names nothing.
    pub open spec fn empty() -> NetworkSchemeBuilderView {
        NetworkSchemeBuilderView { interface: None, addresses: (None, None), proxy_scheme: None }
    }

    /// Sets the local address; the slot of the other family is cleared.
    pub fn address(&mut self, addr: Option<IpAddr>) -> (builder: &mut Self)
        ensures
            builder@ == (NetworkSchemeBuilderView {
                addresses: split_address(addr),
                ..old(self)@
            }),
            *final(self) == *final(builder),
    {
        self.addresses = split_local_address(addr);
        self
    }

    /// Sets the local addresses of both families.
    pub fn addresses(&mut self, ipv4: Option<Ipv4Addr>, ipv6: Option<Ipv6Addr>) -> (builder:
        &mut Self)
        ensures
            builder@ == (NetworkSchemeBuilderView { addresses: (ipv4, ipv6), ..old(self)@ }),
            *final(self) == *final(builder),
    {
        self.addresses = (ipv4, ipv6);
        self
    }

    /// Sets the interface to bind to.
    pub fn interface(&mut self, interface: String) -> (builder: &mut Self)
        ensures
            builder@ == (NetworkSchemeBuilderView { interface: Some(interface@), ..old(self)@ }),
            *final(self) == *final(builder),
    {
        self.interface = Some(interface);
        self
    }

    /// Sets the proxy to go through, or clears it.
    pub fn proxy_scheme(&mut self, proxy: Option<ProxyScheme>) -> (builder: &mut Self)
        ensures
            builder@ == (NetworkSchemeBuilderView {
                proxy_scheme: opt_scheme_view(proxy),
                ..old(self)@
            }),
            *final(self) == *final(builder),
    {
        self.proxy_scheme = proxy;
        self
    }

    /// The route the collected parts make: none where nothing is named.
    pub fn build(self) -> (route: NetworkScheme)
        ensures
            route@ == self@.route(),
    {
        if self.proxy_scheme.is_none() && self.addresses.0.is_none() && self.addresses.1.is_none()
            && self.interface.is_none() {
            return NetworkScheme::Default;
        }
        NetworkScheme::Scheme {
            interface: self.interface,
            addresses: self.addresses,
            proxy_scheme: self.proxy_scheme,
        }
    }

    /// A copy of this builder.
    pub fn copy(&self) -> (builder: NetworkSchemeBuilder)
        ensures
            builder@ == self@,
    {
        NetworkSchemeBuilder {
            interface: match &self.interface {
                Some(i) => Some(i.clone()),
                None => None,
            },
            addresses: self.addresses,
            proxy_scheme: match &self.proxy_scheme {
                Some(p) => Some(p.copy()),
                None => None,
            },
        }
    }
}

impl Default for NetworkSchemeBuilder {
    fn default() -> (builder: NetworkSchemeBuilder)
        ensures
            builder@ == NetworkSchemeBuilder::empty(),
    {
        NetworkSchemeBuilder { interface: None, addresses: (None, None), proxy_scheme: None }
    }
}

impl From<Option<IpAddr>> for NetworkScheme {
    /// The route that binds to `value`.
    fn from(value: Option<IpAddr>) -> (route: NetworkScheme) {
        NetworkScheme::Scheme {
            interface: None,
            addresses: split_local_address(value),
            proxy_scheme: None,
        }
    }
}

impl vstd::std_specs::convert::FromSpecImpl<Option<IpAddr>> for NetworkScheme {
    open spec fn obeys_from_spec() -> bool {
        true
    }

    open spec fn from_spec(value: Option<IpAddr>) -> NetworkScheme {
        NetworkScheme::Scheme {
            interface: None,
            addresses: split_address(value),
            proxy_scheme: None,
        }
    }
}

impl From<(Option<Ipv4Addr>, Option<Ipv6Addr>)> for NetworkScheme {
    /// The route that binds to the given addresses, if there are any.
    fn from(value: (Option<Ipv4Addr>, Option<Ipv6Addr>)) -> (route: NetworkScheme) {
        if value.0.is_none() && value.1.is_none() {
            NetworkScheme::Default
        } else {
            NetworkScheme::Scheme { interface: None, addresses: value, proxy_scheme: None }
        }
    }
}

impl vstd::std_specs::convert::FromSpecImpl<(Option<Ipv4Addr>, Option<Ipv6Addr>)> for NetworkScheme {
    open spec fn obeys_from_spec() -> bool {
        true
    }

    open spec fn from_spec(value: (Option<Ipv4Addr>, Option<Ipv6Addr>)) -> NetworkScheme {
        if value.0 is None && value.1 is None {
            NetworkScheme::Default
        } else {
            NetworkScheme::Scheme { interface: None, addresses: value, proxy_scheme: None }
        }
    }
}

impl From<ProxyScheme> for NetworkScheme {
    /// The route through `value`.
    fn from(value: ProxyScheme) -> (route: NetworkScheme) {
        NetworkScheme::Scheme {
            interface: None,
            addresses: (None, None),
            proxy_scheme: Some(value),
        }
    }
}

impl vstd::std_specs::convert::FromSpecImpl<ProxyScheme> for NetworkScheme {
    open spec fn obeys_from_spec() -> bool {
        true
    }

    open spec fn from_spec(value: ProxyScheme) -> NetworkScheme {
        NetworkScheme::Scheme {
            interface: None,
            addresses: (None, None),
            proxy_scheme: Some(value),
        }
    }
}

impl From<String> for NetworkScheme {
    /// The route over the interface `value`.
    fn from(value: String) -> (route: NetworkScheme) {
        NetworkScheme::Scheme {
            interface: Some(value),
            addresses: (None, None),
            proxy_scheme: None,
        }
    }
}

impl vstd::std_specs::convert::FromSpecImpl<String> for NetworkScheme {
    open spec fn obeys_from_spec() -> bool {
        true
    }

    open spec fn from_spec(value: String) -> NetworkScheme {
        NetworkScheme::Scheme {
            interface: Some(value),
            addresses: (None, None),
            proxy_scheme: None,
        }
    }
}

} // verus!
