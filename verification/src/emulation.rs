//! Emulation profiles.
//!
//! A profile bundles what makes a client look like one particular build:
//! TLS knobs, HTTP/1 and HTTP/2 knobs, the headers sent with every request
//! and the order in which headers are sent. Each part is optional; a part
//! that is absent leaves the client's own setting in place.

use vstd::prelude::*;
use crate::http1::Http1Config;
use crate::http2::Http2Config;
use crate::tls::impersonate::ImpersonateSettings;
use crate::tls::settings::TlsConfig;

verus! {

/// Something that can provide a profile.
pub trait EmulationProviderFactory {
    /// Provides the profile.
    fn emulation(self) -> EmulationProvider;
}

/// An emulation profile.
#[derive(Debug)]
pub struct EmulationProvider {
    pub tls_config: Option<TlsConfig>,
    pub http1_config: Option<Http1Config>,
    pub http2_config: Option<Http2Config>,
    pub default_headers: Option<http::HeaderMap>,
    pub headers_order: Option<Vec<String>>,
}

/// Collects the parts of a profile.
#[derive(Debug)]
pub struct EmulationProviderBuilder {
    provider: EmulationProvider,
}

impl Default for EmulationProvider {
    /// The profile without parts.
    fn default() -> (provider: EmulationProvider)
        ensures
            provider == EmulationProvider::empty(),
    {
        EmulationProvider {
            tls_config: None,
            http1_config: None,
            http2_config: None,
            default_headers: None,
            headers_order: None,
        }
    }
}

impl EmulationProviderBuilder {
    /// The profile collected so far.
    pub closed spec fn provider(&self) -> EmulationProvider {
        self.provider
    }

    /// Sets the TLS knobs.
    pub fn tls_config(self, config: TlsConfig) -> (builder: Self)
        ensures
            builder.provider() == (EmulationProvider {
                tls_config: Some(config),
                ..self.provider()
            }),
    {
        let mut builder = self;
        builder.provider.tls_config = Some(config);
        builder
    }

    /// Sets the HTTP/1 knobs.
    pub fn http1_config(self, config: Http1Config) -> (builder: Self)
        ensures
            builder.provider() == (EmulationProvider {
                http1_config: Some(config),
                ..self.provider()
            }),
    {
        let mut builder = self;
        builder.provider.http1_config = Some(config);
        builder
    }

    /// Sets the HTTP/2 knobs.
    pub fn http2_config(self, config: Http2Config) -> (builder: Self)
        ensures
            builder.provider() == (EmulationProvider {
                http2_config: Some(config),
                ..self.provider()
            }),
    {
        let mut builder = self;
        builder.provider.http2_config = Some(config);
        builder
    }

    /// Sets the headers sent with every request.
    pub fn default_headers(self, headers: http::HeaderMap) -> (builder: Self)
        ensures
            builder.provider() == (EmulationProvider {
                default_headers: Some(headers),
                ..self.provider()
            }),
    {
        let mut builder = self;
        builder.provider.default_headers = Some(headers);
        builder
    }

    /// Sets the order in which headers are sent.
    pub fn headers_order(self, order: Vec<String>) -> (builder: Self)
        ensures
            builder.provider() == (EmulationProvider {
                headers_order: Some(order),
                ..self.provider()
            }),
    {
        let mut builder = self;
        builder.provider.headers_order = Some(order);
        builder
    }

    /// The finished profile.
    pub fn build(self) -> (provider: EmulationProvider)
        ensures
            provider == self.provider(),
    {
        self.provider
    }
}

impl EmulationProvider {
    /// The profile without parts.
    pub open spec fn empty() -> EmulationProvider {
        EmulationProvider {
            tls_config: None,
            http1_config: None,
            http2_config: None,
            default_headers: None,
            headers_order: None,
        }
    }

    /// A builder that has collected nothing.
    pub fn builder() -> (builder: EmulationProviderBuilder)
        ensures
            builder.provider() == EmulationProvider::empty(),
    {
        EmulationProviderBuilder { provider: EmulationProvider::default() }
    }
}

impl EmulationProviderFactory for EmulationProvider {
    /// A profile provides itself.
    fn emulation(self) -> (provider: EmulationProvider)
        ensures
            provider == self,
    {
        self
    }
}

impl EmulationProviderFactory for ImpersonateSettings {
    /// The profile of a client build: its TLS and HTTP/2 settings and, where
    /// it has them, its headers.
    fn emulation(self) -> (provider: EmulationProvider)
        ensures
            provider == (EmulationProvider {
                tls_config: Some(self.tls),
                http1_config: None,
                http2_config: Some(self.http2.config()),
                default_headers: self.headers,
                headers_order: None,
            }),
    {
        EmulationProvider {
            tls_config: Some(self.tls),
            http1_config: None,
            http2_config: Some(self.http2.into_config()),
            default_headers: self.headers,
            headers_order: None,
        }
    }
}

} // verus!
