//! Settings of the client builds that can be impersonated.

use vstd::prelude::*;
use crate::http2::PseudoOrder;
use crate::http2::SettingsOrder;
use crate::tls::settings::Http2Settings;
use crate::tls::settings::TlsSettings;

pub mod chrome;
pub mod okhttp;
pub mod safari;

verus! {

/// The settings of one client build.
pub struct ImpersonateSettings {
    /// The TLS settings.
    pub tls: TlsSettings,
    /// The HTTP/2 settings.
    pub http2: Http2Settings,
    /// The headers the build sends with every request, where they are asked
    /// for.
    pub headers: Option<http::HeaderMap>,
}

/// What distinguishes one installation of a browser build from another:
/// its TLS settings, and the priority and the orders it uses in HTTP/2.
pub struct ImpersonateConfig {
    /// The TLS settings.
    pub tls: TlsSettings,
    /// The priority of the headers frame: dependency, weight, exclusive.
    pub http2_headers_priority: Option<(u32, u8, bool)>,
    /// The order of the pseudo-headers.
    pub http2_headers_pseudo_order: Option<[PseudoOrder; 4]>,
    /// The order of the settings.
    pub http2_settings_order: Option<[SettingsOrder; 8]>,
}

} // verus!
