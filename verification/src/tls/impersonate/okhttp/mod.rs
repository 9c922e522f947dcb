//! The OkHttp client in its versions.
//!
//! The versions share their key-exchange groups, signature algorithms,
//! HTTP/2 settings and headers; they differ in the cipher suites they offer
//! and in the user agent.

use vstd::prelude::*;
use vstd::string::StringSliceAdditionalSpecFns;
use crate::error::Error;
use crate::error::ErrorView;
use crate::header::is_header_value;
use crate::header::ACCEPT;
use crate::header::ACCEPT_ENCODING;
use crate::header::ACCEPT_LANGUAGE;
use crate::header::USER_AGENT;
use crate::header::has_room;
use crate::header::header_fields;
use crate::header::lemma_room_after_insert;
use crate::header::insert_header;
use crate::header::invalid_value;
use crate::header::lemma_known_names;
use crate::header::new_headers;
use crate::header::no_fields;
use crate::http2::PseudoOrder;
use crate::http2::SettingsOrder;
use crate::tls::impersonate::ImpersonateSettings;
use crate::tls::settings::Http2Settings;
use crate::tls::settings::SslCurve;
use crate::tls::settings::TlsSettings;
use crate::tls::settings::TlsSettingsView;
use crate::tls::settings::TlsVersion;
use crate::tls::settings::default_tls_settings;

pub mod okhttp3_11;
pub mod okhttp3_13;
pub mod okhttp3_14;
pub mod okhttp3_9;
pub mod okhttp4_10;
pub mod okhttp4_9;
pub mod okhttp5;

verus! {

/// The signature algorithms every version offers, in order.
pub const SIGALGS_LIST: &'static str = "ecdsa_secp256r1_sha256:rsa_pss_rsae_sha256:rsa_pkcs1_sha256:ecdsa_secp384r1_sha384:rsa_pss_rsae_sha384:rsa_pkcs1_sha384:rsa_pss_rsae_sha512:rsa_pkcs1_sha512:rsa_pkcs1_sha1";

/// The cipher suites the later versions offer, in order.
pub const CIPHER_LIST: &'static str = "TLS_AES_128_GCM_SHA256:TLS_AES_256_GCM_SHA384:TLS_CHACHA20_POLY1305_SHA256:TLS_ECDHE_ECDSA_WITH_AES_128_GCM_SHA256:TLS_ECDHE_RSA_WITH_AES_128_GCM_SHA256:TLS_ECDHE_ECDSA_WITH_AES_256_GCM_SHA384:TLS_ECDHE_RSA_WITH_AES_256_GCM_SHA384:TLS_ECDHE_ECDSA_WITH_CHACHA20_POLY1305_SHA256:TLS_ECDHE_RSA_WITH_CHACHA20_POLY1305_SHA256:TLS_ECDHE_RSA_WITH_AES_128_CBC_SHA:TLS_ECDHE_RSA_WITH_AES_256_CBC_SHA:TLS_RSA_WITH_AES_128_GCM_SHA256:TLS_RSA_WITH_AES_256_GCM_SHA384:TLS_RSA_WITH_AES_128_CBC_SHA:TLS_RSA_WITH_AES_256_CBC_SHA:TLS_RSA_WITH_3DES_EDE_CBC_SHA";

/// The value of the `Accept` header.
pub const ACCEPT_VALUE: &'static str = "*/*";

/// The value of the `Accept-Language` header.
pub const ACCEPT_LANGUAGE_VALUE: &'static str = "en-US,en;q=0.9";

/// The value of the `Accept-Encoding` header.
pub const ACCEPT_ENCODING_VALUE: &'static str = "gzip, deflate, br";

/// The key-exchange groups every version offers, in order.
pub open spec fn curves() -> Seq<SslCurve> {
    seq![SslCurve::X25519, SslCurve::Secp256r1, SslCurve::Secp384r1]
}

/// The priority of the headers frame: no dependency, full weight, exclusive.
pub open spec fn header_priority() -> (u32, u8, bool) {
    (0u32, 255u8, true)
}

/// The order of the pseudo-headers.
pub open spec fn headers_pseudo_order() -> [PseudoOrder; 4] {
    [PseudoOrder::Method, PseudoOrder::Path, PseudoOrder::Authority, PseudoOrder::Scheme]
}

/// The order of the settings.
pub open spec fn settings_order() -> [SettingsOrder; 8] {
    [
        SettingsOrder::HeaderTableSize,
        SettingsOrder::EnablePush,
        SettingsOrder::MaxConcurrentStreams,
        SettingsOrder::InitialWindowSize,
        SettingsOrder::MaxFrameSize,
        SettingsOrder::MaxHeaderListSize,
        SettingsOrder::UnknownSetting8,
        SettingsOrder::UnknownSetting9,
    ]
}

/// The headers an application built on OkHttp sends with every request.
pub open spec fn okhttp_headers(user_agent: Seq<u8>) -> Map<Seq<char>, Seq<Seq<u8>>> {
    no_fields().insert(ACCEPT@, seq![ACCEPT_VALUE.spec_bytes()]).insert(
        ACCEPT_LANGUAGE@,
        seq![ACCEPT_LANGUAGE_VALUE.spec_bytes()],
    ).insert(USER_AGENT@, seq![user_agent]).insert(
        ACCEPT_ENCODING@,
        seq![ACCEPT_ENCODING_VALUE.spec_bytes()],
    )
}

/// The TLS settings of an OkHttp version that offers `cipher_list`: OCSP
/// stapling, the shared groups and signature algorithms, TLS 1.2 to 1.3.
pub open spec fn okhttp_tls(cipher_list: Seq<char>) -> TlsSettingsView {
    TlsSettingsView {
        enable_ocsp_stapling: true,
        curves: Some(curves()),
        sigalgs_list: Some(SIGALGS_LIST@),
        cipher_list: Some(cipher_list),
        min_tls_version: Some(TlsVersion::Tls1_2),
        max_tls_version: Some(TlsVersion::Tls1_3),
        ..default_tls_settings()
    }
}

/// The HTTP/2 settings of every OkHttp version.
pub open spec fn okhttp_http2() -> Http2Settings {
    Http2Settings {
        initial_stream_window_size: Some(6291456u32),
        initial_connection_window_size: Some(15728640u32),
        max_concurrent_streams: Some(1000u32),
        max_header_list_size: Some(262144u32),
        header_table_size: Some(65536u32),
        headers_priority: Some(header_priority()),
        headers_pseudo_order: Some(headers_pseudo_order()),
        settings_order: Some(settings_order()),
        ..Http2Settings::unset()
    }
}

/// Whether `settings` is what asking for the OkHttp version with the given
/// cipher suites and user agent may answer.
///
/// An answer carries the version's TLS and HTTP/2 settings, and the headers
/// exactly when they were asked for. The answer is owed but where headers
/// are asked for and the user agent is no header value.
pub open spec fn is_build(
    settings: Result<ImpersonateSettings, Error>,
    with_headers: bool,
    cipher_list: Seq<char>,
    user_agent: Seq<u8>,
) -> bool {
    match settings {
        Ok(s) => {
            &&& s.tls@ == okhttp_tls(cipher_list)
            &&& s.http2 == okhttp_http2()
            &&& s.headers is Some == with_headers
            &&& s.headers matches Some(h) ==> header_fields(h) == okhttp_headers(user_agent)
            &&& with_headers ==> is_header_value(user_agent)
        },
        Err(e) => with_headers && !is_header_value(user_agent) && e@ == invalid_value(),
    }
}

/// The three key-exchange groups.
fn shared_curves() -> (list: Vec<SslCurve>)
    ensures
        list@ == curves(),
{
    let mut list: Vec<SslCurve> = Vec::new();
    list.push(SslCurve::X25519);
    list.push(SslCurve::Secp256r1);
    list.push(SslCurve::Secp384r1);
    proof {
        assert(list@ =~= curves());
    }
    list
}

/// The headers an application built on OkHttp sends with every request,
/// with `ua` as the user agent.
///
/// Fails exactly when `ua` is no header value: a new header map always
/// has room for the headers.
pub fn header_initializer(ua: &'static str) -> (headers: Result<http::HeaderMap, Error>)
    ensures
        headers matches Ok(h) ==> header_fields(h) == okhttp_headers(ua.spec_bytes()),
        headers is Err == !is_header_value(ua.spec_bytes()),
        headers matches Err(e) ==> e@ == invalid_value(),
{
    proof {
        lemma_known_names();
        lemma_shared_values();
    }
    let mut headers = new_headers();
    let ghost room = has_room(header_fields(headers), 4);
    let ghost at0 = header_fields(headers);
    match insert_header(&mut headers, ACCEPT, ACCEPT_VALUE.as_bytes()) {
        Ok(_) => {},
        Err(e) => {
            return Err(e);
        },
    }
    proof {
        if room {
            lemma_room_after_insert(at0, ACCEPT@, seq![ACCEPT_VALUE.spec_bytes()], 3);
        }
    }
    let ghost at1 = header_fields(headers);
    match insert_header(&mut headers, ACCEPT_LANGUAGE, ACCEPT_LANGUAGE_VALUE.as_bytes()) {
        Ok(_) => {},
        Err(e) => {
            return Err(e);
        },
    }
    proof {
        if room {
            lemma_room_after_insert(at1, ACCEPT_LANGUAGE@, seq![ACCEPT_LANGUAGE_VALUE.spec_bytes()], 2);
        }
    }
    let ghost at2 = header_fields(headers);
    match insert_header(&mut headers, USER_AGENT, ua.as_bytes()) {
        Ok(_) => {},
        Err(e) => {
            return Err(e);
        },
    }
    proof {
        if room {
            lemma_room_after_insert(at2, USER_AGENT@, seq![ua.spec_bytes()], 1);
        }
    }
    let ghost at3 = header_fields(headers);
    match insert_header(&mut headers, ACCEPT_ENCODING, ACCEPT_ENCODING_VALUE.as_bytes()) {
        Ok(_) => {},
        Err(e) => {
            return Err(e);
        },
    }
    proof {
        if room {
            lemma_room_after_insert(at3, ACCEPT_ENCODING@, seq![ACCEPT_ENCODING_VALUE.spec_bytes()], 0);
        }
    }
    Ok(headers)
}

/// What the OkHttp versions differ in on the TLS side, with what they share.
#[derive(Debug)]
pub struct OkHttpTlsSettings {
    curves: Vec<SslCurve>,
    sigalgs_list: &'static str,
    cipher_list: &'static str,
}

impl OkHttpTlsSettings {
    /// The settings of a version that offers `cipher_list`.
    pub fn new(cipher_list: &'static str) -> (settings: OkHttpTlsSettings)
        ensures
            settings.tls() == okhttp_tls(cipher_list@),
    {
        OkHttpTlsSettings { curves: shared_curves(), sigalgs_list: SIGALGS_LIST, cipher_list }
    }

    /// The TLS settings these stand for.
    pub closed spec fn tls(&self) -> TlsSettingsView {
        TlsSettingsView {
            enable_ocsp_stapling: true,
            curves: Some(self.curves@),
            sigalgs_list: Some(self.sigalgs_list@),
            cipher_list: Some(self.cipher_list@),
            min_tls_version: Some(TlsVersion::Tls1_2),
            max_tls_version: Some(TlsVersion::Tls1_3),
            ..default_tls_settings()
        }
    }

    /// The TLS settings these stand for.
    pub fn into(self) -> (settings: TlsSettings)
        ensures
            settings@ == self.tls(),
    {
        let mut settings = TlsSettings::default();
        settings.enable_ocsp_stapling = true;
        settings.curves = Some(self.curves);
        settings.sigalgs_list = Some(self.sigalgs_list.to_owned());
        settings.cipher_list = Some(self.cipher_list.to_owned());
        settings.min_tls_version = Some(TlsVersion::Tls1_2);
        settings.max_tls_version = Some(TlsVersion::Tls1_3);
        settings
    }
}

/// The HTTP/2 settings of every OkHttp version.
pub fn http2_template() -> (settings: Http2Settings)
    ensures
        settings == okhttp_http2(),
{
    let mut settings = Http2Settings::default();
    settings.initial_stream_window_size = Some(6291456);
    settings.initial_connection_window_size = Some(15728640);
    settings.max_concurrent_streams = Some(1000);
    settings.max_header_list_size = Some(262144);
    settings.header_table_size = Some(65536);
    settings.headers_priority = Some((0, 255, true));
    settings.headers_pseudo_order = Some(
        [PseudoOrder::Method, PseudoOrder::Path, PseudoOrder::Authority, PseudoOrder::Scheme],
    );
    settings.settings_order = Some(
        [
            SettingsOrder::HeaderTableSize,
            SettingsOrder::EnablePush,
            SettingsOrder::MaxConcurrentStreams,
            SettingsOrder::InitialWindowSize,
            SettingsOrder::MaxFrameSize,
            SettingsOrder::MaxHeaderListSize,
            SettingsOrder::UnknownSetting8,
            SettingsOrder::UnknownSetting9,
        ],
    );
    settings
}

/// The settings of the OkHttp version that offers `cipher_list` and sends
/// `user_agent`, with its headers where `with_headers` asks for them.
pub fn settings_for(cipher_list: &'static str, user_agent: &'static str, with_headers: bool) -> (
    settings: Result<ImpersonateSettings, Error>)
    ensures
        is_build(settings, with_headers, cipher_list@, user_agent.spec_bytes()),
{
    let headers = if with_headers {
        match header_initializer(user_agent) {
            Ok(h) => Some(h),
            Err(e) => {
                return Err(e);
            },
        }
    } else {
        None
    };
    Ok(
        ImpersonateSettings {
            tls: OkHttpTlsSettings::new(cipher_list).into(),
            http2: http2_template(),
            headers,
        },
    )
}

/// The values of the headers that the versions share are header values.
pub proof fn lemma_shared_values()
    ensures
        crate::header::is_header_value(ACCEPT_VALUE.spec_bytes()),
        crate::header::is_header_value(ACCEPT_LANGUAGE_VALUE.spec_bytes()),
        crate::header::is_header_value(ACCEPT_ENCODING_VALUE.spec_bytes()),
{
    reveal_strlit("*/*");
    crate::header::lemma_printable_is_header_value(ACCEPT_VALUE);
    reveal_strlit("en-US,en;q=0.9");
    crate::header::lemma_printable_is_header_value(ACCEPT_LANGUAGE_VALUE);
    reveal_strlit("gzip, deflate, br");
    crate::header::lemma_printable_is_header_value(ACCEPT_ENCODING_VALUE);
}

} // verus!
