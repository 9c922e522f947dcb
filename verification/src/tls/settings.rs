//! The TLS and HTTP/2 settings that describe one client build.

use vstd::prelude::*;
use crate::http2::Http2Config;
use crate::http2::PseudoOrder;
use crate::http2::SettingsOrder;
use crate::http2::StreamDependency;
use crate::text::opt_text;

verus! {

/// A TLS protocol version.
#[derive(Clone, Copy, Debug, PartialEq, Eq, Structural)]
pub enum TlsVersion {
    Tls1_0,
    Tls1_1,
    Tls1_2,
    Tls1_3,
}

/// Which HTTP versions a connection offers in ALPN.
#[derive(Clone, Copy, Debug, PartialEq, Eq, Structural)]
pub enum HttpVersionPref {
    /// HTTP/1.1 only.
    Http1,
    /// HTTP/2 only.
    Http2,
    /// HTTP/2 and HTTP/1.1, in this order.
    All,
}

/// Which HTTP versions a connection offers in ALPN.
pub type AlpnProtos = HttpVersionPref;

/// The TLS knobs of a profile.
pub type TlsConfig = TlsSettings;

/// A key-exchange group.
#[derive(Clone, Copy, Debug, PartialEq, Eq, Structural)]
pub enum SslCurve {
    X25519,
    Secp256r1,
    Secp384r1,
    Secp521r1,
    X25519Kyber768Draft00,
    X25519MlKem768,
}

/// An algorithm for compressing certificates.
#[derive(Clone, Copy, Debug, PartialEq, Eq, Structural)]
pub enum CertCompressionAlgorithm {
    Brotli,
    Zlib,
    Zstd,
}

/// The TLS settings of a client build.
#[derive(Debug)]
pub struct TlsSettings {
    /// Verify certificates.
    pub certs_verification: bool,
    /// Send the server name.
    pub tls_sni: bool,
    /// The HTTP versions to offer.
    pub http_version_pref: HttpVersionPref,
    /// The lowest TLS version to offer.
    pub min_tls_version: Option<TlsVersion>,
    /// The highest TLS version to offer.
    pub max_tls_version: Option<TlsVersion>,
    /// Send application settings.
    pub application_settings: bool,
    /// Offer a pre-shared key.
    pub pre_shared_key: bool,
    /// Send a GREASE encrypted-client-hello extension.
    pub enable_ech_grease: bool,
    /// Permute the extensions.
    pub permute_extensions: bool,
    /// Send GREASE values.
    pub grease_enabled: Option<bool>,
    /// Ask for OCSP stapling.
    pub enable_ocsp_stapling: bool,
    /// The groups to offer, in order.
    pub curves: Option<Vec<SslCurve>>,
    /// The signature algorithms to offer, separated by colons.
    pub sigalgs_list: Option<String>,
    /// The cipher suites to offer, separated by colons.
    pub cipher_list: Option<String>,
    /// Ask for signed certificate timestamps.
    pub enable_signed_cert_timestamps: bool,
    /// The certificate compression algorithm to offer.
    pub cert_compression_algorithm: Option<CertCompressionAlgorithm>,
}

/// TLS settings, to contracts.
pub ghost struct TlsSettingsView {
    pub certs_verification: bool,
    pub tls_sni: bool,
    pub http_version_pref: HttpVersionPref,
    pub min_tls_version: Option<TlsVersion>,
    pub max_tls_version: Option<TlsVersion>,
    pub application_settings: bool,
    pub pre_shared_key: bool,
    pub enable_ech_grease: bool,
    pub permute_extensions: bool,
    pub grease_enabled: Option<bool>,
    pub enable_ocsp_stapling: bool,
    pub curves: Option<Seq<SslCurve>>,
    pub sigalgs_list: Option<Seq<char>>,
    pub cipher_list: Option<Seq<char>>,
    pub enable_signed_cert_timestamps: bool,
    pub cert_compression_algorithm: Option<CertCompressionAlgorithm>,
}

impl View for TlsSettings {
    type V = TlsSettingsView;

    open spec fn view(&self) -> TlsSettingsView {
        TlsSettingsView {
            certs_verification: self.certs_verification,
            tls_sni: self.tls_sni,
            http_version_pref: self.http_version_pref,
            min_tls_version: self.min_tls_version,
            max_tls_version: self.max_tls_version,
            application_settings: self.application_settings,
            pre_shared_key: self.pre_shared_key,
            enable_ech_grease: self.enable_ech_grease,
            permute_extensions: self.permute_extensions,
            grease_enabled: self.grease_enabled,
            enable_ocsp_stapling: self.enable_ocsp_stapling,
            curves: match self.curves {
                Some(c) => Some(c@),
                None => None,
            },
            sigalgs_list: opt_text(self.sigalgs_list),
            cipher_list: opt_text(self.cipher_list),
            enable_signed_cert_timestamps: self.enable_signed_cert_timestamps,
            cert_compression_algorithm: self.cert_compression_algorithm,
        }
    }
}

/// The settings of a client that declares nothing special: certificates
/// are verified, the server name is sent, both HTTP versions are offered.
pub open spec fn default_tls_settings() -> TlsSettingsView {
    TlsSettingsView {
        certs_verification: true,
        tls_sni: true,
        http_version_pref: HttpVersionPref::All,
        min_tls_version: None,
        max_tls_version: None,
        application_settings: false,
        pre_shared_key: false,
        enable_ech_grease: false,
        permute_extensions: false,
        grease_enabled: None,
        enable_ocsp_stapling: false,
        curves: None,
        sigalgs_list: None,
        cipher_list: None,
        enable_signed_cert_timestamps: false,
        cert_compression_algorithm: None,
    }
}

impl Default for TlsSettings {
    fn default() -> (settings: TlsSettings)
        ensures
            settings@ == default_tls_settings(),
    {
        TlsSettings {
            certs_verification: true,
            tls_sni: true,
            http_version_pref: HttpVersionPref::All,
            min_tls_version: None,
            max_tls_version: None,
            application_settings: false,
            pre_shared_key: false,
            enable_ech_grease: false,
            permute_extensions: false,
            grease_enabled: None,
            enable_ocsp_stapling: false,
            curves: None,
            sigalgs_list: None,
            cipher_list: None,
            enable_signed_cert_timestamps: false,
            cert_compression_algorithm: None,
        }
    }
}

impl TlsSettings {
    /// A copy of these settings.
    pub fn copy(&self) -> (settings: TlsSettings)
        ensures
            settings@ == self@,
    {
        TlsSettings {
            certs_verification: self.certs_verification,
            tls_sni: self.tls_sni,
            http_version_pref: self.http_version_pref,
            min_tls_version: self.min_tls_version,
            max_tls_version: self.max_tls_version,
            application_settings: self.application_settings,
            pre_shared_key: self.pre_shared_key,
            enable_ech_grease: self.enable_ech_grease,
            permute_extensions: self.permute_extensions,
            grease_enabled: self.grease_enabled,
            enable_ocsp_stapling: self.enable_ocsp_stapling,
            curves: match &self.curves {
                Some(c) => Some(c.clone()),
                None => None,
            },
            sigalgs_list: match &self.sigalgs_list {
                Some(s) => Some(s.clone()),
                None => None,
            },
            cipher_list: match &self.cipher_list {
                Some(s) => Some(s.clone()),
                None => None,
            },
            enable_signed_cert_timestamps: self.enable_signed_cert_timestamps,
            cert_compression_algorithm: self.cert_compression_algorithm,
        }
    }
}

/// The HTTP/2 settings of a client build.
#[derive(Clone, Copy, Debug)]
pub struct Http2Settings {
    /// The initial connection window size.
    pub initial_connection_window_size: Option<u32>,
    /// The header table size.
    pub header_table_size: Option<u32>,
    /// Enable push.
    pub enable_push: Option<bool>,
    /// The maximum number of concurrent streams.
    pub max_concurrent_streams: Option<u32>,
    /// The initial stream window size.
    pub initial_stream_window_size: Option<u32>,
    /// The maximum frame size.
    pub max_frame_size: Option<u32>,
    /// The maximum header list size.
    pub max_header_list_size: Option<u32>,
    /// The value declared for setting 8.
    pub unknown_setting8: Option<bool>,
    /// The value declared for setting 9.
    pub unknown_setting9: Option<bool>,
    /// The priority of the headers frame: dependency, weight, exclusive.
    pub headers_priority: Option<(u32, u8, bool)>,
    /// The order of the pseudo-headers.
    pub headers_pseudo_order: Option<[PseudoOrder; 4]>,
    /// The order of the settings.
    pub settings_order: Option<[SettingsOrder; 8]>,
}

impl Http2Settings {
    /// Settings that declare nothing.
    pub open spec fn unset() -> Http2Settings {
        Http2Settings {
            initial_connection_window_size: None,
            header_table_size: None,
            enable_push: None,
            max_concurrent_streams: None,
            initial_stream_window_size: None,
            max_frame_size: None,
            max_header_list_size: None,
            unknown_setting8: None,
            unknown_setting9: None,
            headers_priority: None,
            headers_pseudo_order: None,
            settings_order: None,
        }
    }

    /// The connection configuration that declares these settings.
    pub open spec fn config(&self) -> Http2Config {
        Http2Config {
            initial_stream_window_size: self.initial_stream_window_size,
            initial_connection_window_size: self.initial_connection_window_size,
            max_concurrent_streams: self.max_concurrent_streams,
            max_header_list_size: self.max_header_list_size,
            header_table_size: self.header_table_size,
            max_frame_size: self.max_frame_size,
            enable_push: self.enable_push,
            unknown_setting8: self.unknown_setting8,
            unknown_setting9: self.unknown_setting9,
            headers_priority: match self.headers_priority {
                Some(p) => Some(
                    StreamDependency { dependency_id: p.0, weight: p.1, is_exclusive: p.2 },
                ),
                None => None,
            },
            headers_pseudo_order: self.headers_pseudo_order,
            settings_order: self.settings_order,
        }
    }

    /// The connection configuration that declares these settings.
    pub fn into_config(self) -> (config: Http2Config)
        ensures
            config == self.config(),
    {
        Http2Config {
            initial_stream_window_size: self.initial_stream_window_size,
            initial_connection_window_size: self.initial_connection_window_size,
            max_concurrent_streams: self.max_concurrent_streams,
            max_header_list_size: self.max_header_list_size,
            header_table_size: self.header_table_size,
            max_frame_size: self.max_frame_size,
            enable_push: self.enable_push,
            unknown_setting8: self.unknown_setting8,
            unknown_setting9: self.unknown_setting9,
            headers_priority: match self.headers_priority {
                Some(p) => Some(
                    StreamDependency { dependency_id: p.0, weight: p.1, is_exclusive: p.2 },
                ),
                None => None,
            },
            headers_pseudo_order: self.headers_pseudo_order,
            settings_order: self.settings_order,
        }
    }
}

impl Default for Http2Settings {
    fn default() -> (settings: Http2Settings)
        ensures
            settings == Http2Settings::unset(),
    {
        Http2Settings {
            initial_connection_window_size: None,
            header_table_size: None,
            enable_push: None,
            max_concurrent_streams: None,
            initial_stream_window_size: None,
            max_frame_size: None,
            max_header_list_size: None,
            unknown_setting8: None,
            unknown_setting9: None,
            headers_priority: None,
            headers_pseudo_order: None,
            settings_order: None,
        }
    }
}

} // verus!
