//! Changing a client while it is in use.
//!
//! An update starts from a copy of the current state, changes it, and ends
//! with the state to put in the place of the current one. Requests that are
//! in flight keep the state they began under.

use vstd::prelude::*;
use std::sync::Arc;
use crate::client::state::ClientRef;
use crate::cookie::CookieStore;
use crate::emulation::EmulationProvider;
use crate::emulation::EmulationProviderFactory;
use crate::http1::Http1Config;
use crate::http2::Http2Config;
use crate::net::IpAddr;
use crate::net::Ipv4Addr;
use crate::net::Ipv6Addr;
use crate::net::split_address;
use crate::net::split_local_address;
use crate::proxy::Proxy;
use crate::proxy::any_http_auth;
use crate::proxy::proxies_maybe_http_auth;
use crate::scheme::NetworkSchemeBuilder;
use crate::tls::connector::TlsConnector;
use crate::tls::connector::TlsConnectorView;
use crate::tls::connector::apply_client_choices;
use crate::tls::connector::opt_identity_view;
use crate::tls::connector::opt_keylog_view;
use crate::tls::connector::opt_store_view;
use crate::tls::connector::with_client_choices;

verus! {

/// An update in the making.
#[derive(Debug)]
pub struct ClientUpdate<C: CookieStore, L> {
    /// The state as changed so far.
    pub current: ClientRef<C, L>,
    /// The profile to switch to.
    pub emulation: Option<EmulationProvider>,
}

/// What an update ends with.
#[derive(Debug)]
pub struct Applied<C: CookieStore, L> {
    /// The state to put in the place of the current one.
    pub state: ClientRef<C, L>,
    /// How HTTP/1 is written from now on, where that changes.
    pub http1_config: Option<Http1Config>,
    /// How HTTP/2 is written from now on, where that changes.
    pub http2_config: Option<Http2Config>,
    /// The TLS connector to use from now on, where that changes.
    pub tls_connector: Option<TlsConnector>,
}

/// The TLS connector for the knobs of a new profile: the knobs as the
/// client's own choices change them, with the client's key log, identity
/// and trusted certificates.
pub open spec fn rebuilt_tls<C: CookieStore, L>(state: ClientRef<C, L>, profile: EmulationProvider)
    -> Option<TlsConnectorView> {
    match profile.tls_config {
        Some(tls) => Some(
            TlsConnectorView {
                tls_config: with_client_choices(
                    tls@,
                    state.alpn_protos,
                    state.min_tls_version,
                    state.max_tls_version,
                ),
                keylog: opt_keylog_view(state.keylog),
                identity: opt_identity_view(state.identity),
                cert_store: opt_store_view(state.cert_store),
                cert_verification: state.cert_verification,
                tls_sni: state.tls_sni,
                verify_hostname: state.verify_hostname,
            },
        ),
        None => None,
    }
}

impl<C: CookieStore, L> ClientUpdate<C, L> {
    /// An update that starts from `current`.
    pub fn new(current: ClientRef<C, L>) -> (update: ClientUpdate<C, L>)
        ensures
            update.current == current,
            update.emulation is None,
    {
        ClientUpdate { current, emulation: None }
    }

    /// Sets the headers sent with every request.
    pub fn headers(self, headers: http::HeaderMap) -> (update: ClientUpdate<C, L>)
        ensures
            update == (ClientUpdate { current: ClientRef { headers, ..self.current }, ..self }),
    {
        let mut update = self;
        update.current.headers = headers;
        update
    }

    /// Sets the order in which headers are sent.
    pub fn headers_order(self, order: Vec<String>) -> (update: ClientUpdate<C, L>)
        ensures
            update == (ClientUpdate {
                current: ClientRef { headers_order: Some(order), ..self.current },
                ..self
            }),
    {
        let mut update = self;
        update.current.headers_order = Some(order);
        update
    }

    /// Attaches `cookie_store` in the place of the store attached so far.
    pub fn cookie_provider(self, cookie_store: Arc<C>) -> (update: ClientUpdate<C, L>)
        ensures
            update == (ClientUpdate {
                current: ClientRef { cookie_store: Some(cookie_store), ..self.current },
                ..self
            }),
    {
        let mut update = self;
        update.current.cookie_store = Some(cookie_store);
        update
    }

    /// Sets the local address to bind to; the slot of the other family is
    /// cleared.
    pub fn local_address(self, addr: Option<IpAddr>) -> (update: ClientUpdate<C, L>)
        ensures
            update == (ClientUpdate {
                current: ClientRef {
                    network_scheme: NetworkSchemeBuilder {
                        addresses: split_address(addr),
                        ..self.current.network_scheme
                    },
                    ..self.current
                },
                ..self
            }),
    {
        let mut update = self;
        update.current.network_scheme.addresses = split_local_address(addr);
        update
    }

    /// Sets the local addresses of both families.
    pub fn local_addresses(self, ipv4: Option<Ipv4Addr>, ipv6: Option<Ipv6Addr>) -> (update:
        ClientUpdate<C, L>)
        ensures
            update == (ClientUpdate {
                current: ClientRef {
                    network_scheme: NetworkSchemeBuilder {
                        addresses: (ipv4, ipv6),
                        ..self.current.network_scheme
                    },
                    ..self.current
                },
                ..self
            }),
    {
        let mut update = self;
        update.current.network_scheme.addresses = (ipv4, ipv6);
        update
    }

    /// Sets the interface to bind to.
    pub fn interface(self, interface: String) -> (update: ClientUpdate<C, L>)
        ensures
            update == (ClientUpdate {
                current: ClientRef {
                    network_scheme: NetworkSchemeBuilder {
                        interface: Some(interface),
                        ..self.current.network_scheme
                    },
                    ..self.current
                },
                ..self
            }),
    {
        let mut update = self;
        update.current.network_scheme.interface = Some(interface);
        update
    }

    /// Sets the proxies, in place of those set so far.
    pub fn proxies(self, proxies: Vec<Proxy>) -> (update: ClientUpdate<C, L>)
        ensures
            update == (ClientUpdate {
                current: ClientRef {
                    proxies,
                    proxies_maybe_http_auth: any_http_auth(proxies@),
                    ..self.current
                },
                ..self
            }),
    {
        let mut update = self;
        update.current.proxies_maybe_http_auth = proxies_maybe_http_auth(&proxies);
        update.current.proxies = proxies;
        update
    }

    /// Removes every proxy.
    pub fn unset_proxies(self) -> (update: ClientUpdate<C, L>)
        ensures
            update.current.proxies@.len() == 0,
            update == (ClientUpdate {
                current: ClientRef {
                    proxies: update.current.proxies,
                    proxies_maybe_http_auth: false,
                    ..self.current
                },
                ..self
            }),
    {
        let mut update = self;
        update.current.proxies.clear();
        update.current.proxies_maybe_http_auth = false;
        update
    }

    /// Switches to the profile `emulation`.
    pub fn apply_emulation(self, emulation: EmulationProvider) -> (update: ClientUpdate<C, L>)
        ensures
            update == (ClientUpdate { emulation: Some(emulation), ..self }),
    {
        let mut update = self;
        update.emulation = Some(emulation);
        update
    }

    /// Switches to the profile that `factory` provides.
    pub fn emulation<P: EmulationProviderFactory>(self, factory: P) -> (update: ClientUpdate<C, L>)
        ensures
            update.current == self.current,
            update.emulation is Some,
    {
        let emulation = factory.emulation();
        self.apply_emulation(emulation)
    }

    /// Ends the update.
    ///
    /// Without a new profile the state is as changed so far and the
    /// dispatcher stays as it is. With one, the headers and the header
    /// order of the profile take the place of the state's, each where the
    /// profile has it; and the dispatcher is told the HTTP/1 and HTTP/2
    /// knobs of the profile and a TLS connector for its TLS knobs, each
    /// where the profile has it.
    pub fn apply(self) -> (applied: Applied<C, L>)
        ensures
            match self.emulation {
                None => applied.state == self.current && applied.http1_config is None
                    && applied.http2_config is None && applied.tls_connector is None,
                Some(profile) => {
                    &&& applied.state == (ClientRef {
                        headers: match profile.default_headers {
                            Some(h) => h,
                            None => self.current.headers,
                        },
                        headers_order: match profile.headers_order {
                            Some(o) => Some(o),
                            None => self.current.headers_order,
                        },
                        ..self.current
                    })
                    &&& applied.http1_config == profile.http1_config
                    &&& applied.http2_config == profile.http2_config
                    &&& match applied.tls_connector {
                        Some(t) => Some(t@) == rebuilt_tls(self.current, profile),
                        None => profile.tls_config is None,
                    }
                },
            },
    {
        let mut current = self.current;
        let emulation = match self.emulation {
            Some(e) => e,
            None => {
                return Applied {
                    state: current,
                    http1_config: None,
                    http2_config: None,
                    tls_connector: None,
                };
            },
        };
        let EmulationProvider {
            tls_config,
            http1_config,
            http2_config,
            default_headers,
            headers_order,
        } = emulation;
        match default_headers {
            Some(headers) => {
                current.headers = headers;
            },
            None => {},
        }
        match headers_order {
            Some(order) => {
                current.headers_order = Some(order);
            },
            None => {},
        }
        let tls_connector = match tls_config {
            Some(tls_config) => {
                let tls_config = apply_client_choices(
                    tls_config,
                    current.alpn_protos,
                    current.min_tls_version,
                    current.max_tls_version,
                );
                let keylog = match &current.keylog {
                    Some(k) => Some(k.copy()),
                    None => None,
                };
                let identity = match &current.identity {
                    Some(i) => Some(i.copy()),
                    None => None,
                };
                let cert_store = match &current.cert_store {
                    Some(s) => Some(s.copy()),
                    None => None,
                };
                Some(
                    TlsConnector::builder(tls_config).keylog(keylog).identity(identity).cert_store(
                        cert_store,
                    ).cert_verification(current.cert_verification).tls_sni(
                        current.tls_sni,
                    ).verify_hostname(current.verify_hostname).build(),
                )
            },
            None => None,
        };
        Applied { state: current, http1_config, http2_config, tls_connector }
    }
}

} // verus!
