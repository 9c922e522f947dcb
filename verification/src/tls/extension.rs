//! What each TLS knob of a profile asks of a handshake.
//!
//! The functions here take a knob and answer with the value to hand to the
//! TLS library, or with nothing where the knob leaves the library's default
//! in place.

use vstd::prelude::*;
use vstd::string::StringSliceAdditionalSpecFns;
use crate::tls::settings::CertCompressionAlgorithm;
use crate::tls::settings::HttpVersionPref;
use crate::tls::settings::TlsVersion;

verus! {

/// How the peer's certificate is checked.
#[derive(Clone, Copy, Debug, PartialEq, Eq, Structural)]
pub enum SslVerifyMode {
    /// The certificate must verify.
    Peer,
    /// The certificate is not checked.
    Unchecked,
}

/// A TLS version as the wire names it.
#[derive(Clone, Copy, Debug, PartialEq, Eq, Structural)]
pub struct SslVersion(pub u16);

/// The answer of a TLS library call: zero stands for failure.
pub fn sv_handler(r: i32) -> (checked: Option<i32>)
    ensures
        checked == if r == 0 {
            None
        } else {
            Some(r)
        },
{
    if r == 0 {
        None
    } else {
        Some(r)
    }
}

/// The verification mode for the given knob.
pub fn configure_cert_verification(certs_verification: bool) -> (mode: SslVerifyMode)
    ensures
        mode == if certs_verification {
            SslVerifyMode::Peer
        } else {
            SslVerifyMode::Unchecked
        },
{
    if !certs_verification {
        SslVerifyMode::Unchecked
    } else {
        SslVerifyMode::Peer
    }
}

/// One protocol name in an ALPN list: its length in one byte, then the name.
pub open spec fn alpn_entry(name: Seq<u8>) -> Seq<u8> {
    seq![name.len() as u8] + name
}

/// The ALPN list for a preference: HTTP/1.1 alone, HTTP/2 alone, or HTTP/2
/// followed by HTTP/1.1.
pub open spec fn alpn_protos(http_version: HttpVersionPref) -> Seq<u8> {
    match http_version {
        HttpVersionPref::Http1 => alpn_entry("http/1.1".spec_bytes()),
        HttpVersionPref::Http2 => alpn_entry("h2".spec_bytes()),
        HttpVersionPref::All => alpn_entry("h2".spec_bytes()) + alpn_entry(
            "http/1.1".spec_bytes(),
        ),
    }
}

/// Adds one protocol name to an ALPN list. Names longer than 255 bytes have
/// no place in such a list and are left out.
fn push_alpn_entry(list: &mut Vec<u8>, name: &[u8])
    ensures
        name@.len() <= 255 ==> final(list)@ == old(list)@ + alpn_entry(name@),
        name@.len() > 255 ==> final(list)@ == old(list)@,
{
    if name.len() <= 255 {
        list.push(name.len() as u8);
        list.extend_from_slice(name);
        proof {
            assert(list@ =~= old(list)@ + alpn_entry(name@));
        }
    }
}

/// The ALPN list to offer for a preference.
pub fn configure_alpn_protos(http_version: HttpVersionPref) -> (list: Vec<u8>)
    ensures
        list@ == alpn_protos(http_version),
{
    proof {
        lemma_protocol_names();
    }
    let mut list: Vec<u8> = Vec::new();
    match http_version {
        HttpVersionPref::Http1 => {
            push_alpn_entry(&mut list, "http/1.1".as_bytes());
        },
        HttpVersionPref::Http2 => {
            push_alpn_entry(&mut list, "h2".as_bytes());
        },
        HttpVersionPref::All => {
            push_alpn_entry(&mut list, "h2".as_bytes());
            push_alpn_entry(&mut list, "http/1.1".as_bytes());
        },
    }
    proof {
        assert(list@ =~= alpn_protos(http_version));
    }
    list
}

/// The wire number of a TLS version.
pub open spec fn wire_version(version: TlsVersion) -> SslVersion {
    match version {
        TlsVersion::Tls1_0 => SslVersion(0x0301),
        TlsVersion::Tls1_1 => SslVersion(0x0302),
        TlsVersion::Tls1_2 => SslVersion(0x0303),
        TlsVersion::Tls1_3 => SslVersion(0x0304),
    }
}

/// The wire number of an optional TLS version.
pub open spec fn opt_wire_version(version: Option<TlsVersion>) -> Option<SslVersion> {
    match version {
        Some(v) => Some(wire_version(v)),
        None => None,
    }
}

/// The wire number of a TLS version.
pub fn ssl_version(version: TlsVersion) -> (wire: SslVersion)
    ensures
        wire == wire_version(version),
{
    match version {
        TlsVersion::Tls1_0 => SslVersion(0x0301),
        TlsVersion::Tls1_1 => SslVersion(0x0302),
        TlsVersion::Tls1_2 => SslVersion(0x0303),
        TlsVersion::Tls1_3 => SslVersion(0x0304),
    }
}

/// The lowest version to allow, where the profile names one.
pub fn configure_min_tls_version(min_tls_version: Option<TlsVersion>) -> (wire: Option<SslVersion>)
    ensures
        wire == opt_wire_version(min_tls_version),
{
    match min_tls_version {
        Some(version) => Some(ssl_version(version)),
        None => None,
    }
}

/// The highest version to allow, where the profile names one.
pub fn configure_max_tls_version(max_tls_version: Option<TlsVersion>) -> (wire: Option<SslVersion>)
    ensures
        wire == opt_wire_version(max_tls_version),
{
    match max_tls_version {
        Some(version) => Some(ssl_version(version)),
        None => None,
    }
}

/// The number by which the certificate compression extension names an
/// algorithm.
pub open spec fn compression_id(algorithm: CertCompressionAlgorithm) -> u16 {
    match algorithm {
        CertCompressionAlgorithm::Zlib => 1,
        CertCompressionAlgorithm::Brotli => 2,
        CertCompressionAlgorithm::Zstd => 3,
    }
}

/// The number to register a certificate compression algorithm under.
pub fn configure_add_cert_compression_alg(cert_compression_alg: CertCompressionAlgorithm) -> (id:
    u16)
    ensures
        id == compression_id(cert_compression_alg),
{
    match cert_compression_alg {
        CertCompressionAlgorithm::Zlib => 1,
        CertCompressionAlgorithm::Brotli => 2,
        CertCompressionAlgorithm::Zstd => 3,
    }
}

/// The numbers to register the algorithms of a profile under, in the order
/// in which the profile declares them.
pub fn add_cert_compression_algorithm(algs: Option<&Vec<CertCompressionAlgorithm>>) -> (ids: Vec<
    u16,
>)
    ensures
        algs is None ==> ids@.len() == 0,
        algs matches Some(a) ==> ids@ == a@.map_values(
            |alg: CertCompressionAlgorithm| compression_id(alg),
        ),
{
    let mut ids: Vec<u16> = Vec::new();
    match algs {
        Some(list) => {
            let mut i: usize = 0;
            while i < list.len()
                invariant
                    i <= list.len(),
                    ids@ == list@.subrange(0, i as int).map_values(
                        |alg: CertCompressionAlgorithm| compression_id(alg),
                    ),
                decreases list.len() - i,
            {
                ids.push(configure_add_cert_compression_alg(list[i]));
                proof {
                    assert(list@.subrange(0, i + 1).map_values(
                        |alg: CertCompressionAlgorithm| compression_id(alg),
                    ) =~= list@.subrange(0, i as int).map_values(
                        |alg: CertCompressionAlgorithm| compression_id(alg),
                    ).push(compression_id(list@[i as int])));
                }
                i += 1;
            }
            proof {
                assert(list@.subrange(0, list.len() as int) =~= list@);
            }
        },
        None => {},
    }
    ids
}

/// The file to read certificate authorities from, where the profile names
/// one.
pub fn configure_ca_cert_file(ca_cert_file: Option<String>) -> (file: Option<String>)
    ensures
        file == ca_cert_file,
{
    ca_cert_file
}

/// Whether to permute the extensions; nothing where the profile leaves the
/// library's default in place.
pub fn configure_permute_extensions(enable: bool, permute_extensions: bool) -> (set: Option<bool>)
    ensures
        set == if enable {
            Some(permute_extensions)
        } else {
            None
        },
{
    if !enable {
        return None;
    }
    Some(permute_extensions)
}

/// Whether to send a GREASE encrypted-client-hello extension; nothing where
/// the profile leaves the library's default in place.
pub fn configure_enable_ech_grease(enable: bool, enable_ech_grease: bool) -> (set: Option<bool>)
    ensures
        set == if enable {
            Some(enable_ech_grease)
        } else {
            None
        },
{
    if !enable {
        return None;
    }
    Some(enable_ech_grease)
}

/// The protocol that application settings are sent for: HTTP/1.1 where only
/// that is offered, else HTTP/2.
pub open spec fn application_settings_proto(http_version: HttpVersionPref) -> Seq<u8> {
    match http_version {
        HttpVersionPref::Http1 => "http/1.1".spec_bytes(),
        HttpVersionPref::Http2 => "h2".spec_bytes(),
        HttpVersionPref::All => "h2".spec_bytes(),
    }
}

/// The protocol to send application settings for; nothing where the profile
/// sends none.
pub fn configure_add_application_settings(enable: bool, http_version: HttpVersionPref) -> (alpn:
    Option<&'static [u8]>)
    ensures
        alpn is Some == enable,
        alpn matches Some(p) ==> p@ == application_settings_proto(http_version),
{
    if !enable {
        return None;
    }
    match http_version {
        HttpVersionPref::Http1 => Some("http/1.1".as_bytes()),
        HttpVersionPref::Http2 | HttpVersionPref::All => Some("h2".as_bytes()),
    }
}

/// What a profile asks for application settings.
#[derive(Clone, Copy, Debug)]
pub struct AlpsSetup {
    /// The protocol to send application settings for.
    pub proto: &'static [u8],
    /// Whether to use the new code point of the extension.
    pub new_codepoint: bool,
}

/// The application settings to send: those for `alps`, under the new code
/// point where `new_endpoint` asks for it; nothing where `alps` is absent.
pub fn alps_protos(alps: Option<HttpVersionPref>, new_endpoint: bool) -> (setup: Option<AlpsSetup>)
    ensures
        setup is Some == alps is Some,
        setup matches Some(s) ==> s.proto@ == application_settings_proto(alps->0)
            && s.new_codepoint == new_endpoint,
{
    match alps {
        Some(pref) => match configure_add_application_settings(true, pref) {
            Some(proto) => Some(AlpsSetup { proto, new_codepoint: new_endpoint }),
            None => None,
        },
        None => None,
    }
}

/// The ALPN list to set on a connection; nothing where the connection keeps
/// the list of its context.
pub fn alpn_protos_for(alpn: Option<HttpVersionPref>) -> (list: Option<Vec<u8>>)
    ensures
        list is Some == alpn is Some,
        list matches Some(l) ==> l@ == alpn_protos(alpn->0),
{
    match alpn {
        Some(pref) => Some(configure_alpn_protos(pref)),
        None => None,
    }
}

/// Whether to override the detection of AES hardware, and with what, given a
/// random number: where the profile enables the override, hardware support
/// is claimed exactly when the number is even.
pub fn set_random_aes_hw_override(enable: bool, random: u64) -> (set: Option<bool>)
    ensures
        set == if enable {
            Some(random % 2 == 0)
        } else {
            None
        },
{
    if enable {
        Some(random % 2 == 0)
    } else {
        None
    }
}

/// Where the certificates to trust come from.
#[derive(Debug)]
pub enum TrustAnchors {
    /// From the store that was given.
    Given(crate::tls::connector::CertStore),
    /// From where the system keeps them.
    SystemDefault,
}

/// Where the certificates to trust come from: the given store, else where
/// the system keeps them.
pub fn cert_store(given: Option<crate::tls::connector::CertStore>) -> (anchors: TrustAnchors)
    ensures
        anchors == match given {
            Some(s) => TrustAnchors::Given(s),
            None => TrustAnchors::SystemDefault,
        },
{
    match given {
        Some(s) => TrustAnchors::Given(s),
        None => TrustAnchors::SystemDefault,
    }
}

/// The verification mode for a connector.
pub fn cert_verification(enable: bool) -> (mode: SslVerifyMode)
    ensures
        mode == if enable {
            SslVerifyMode::Peer
        } else {
            SslVerifyMode::Unchecked
        },
{
    configure_cert_verification(enable)
}

/// The identity to present, if there is one.
pub fn identity(given: Option<crate::tls::connector::Identity>) -> (present: Option<
    crate::tls::connector::Identity,
>)
    ensures
        present == given,
{
    given
}

/// The option bit that asks for no session ticket.
pub const SSL_OP_NO_TICKET: u32 = 0x4000;

/// The options to set so that no session ticket is asked for.
pub fn skip_session_ticket() -> (options: u32)
    ensures
        options == SSL_OP_NO_TICKET,
{
    SSL_OP_NO_TICKET
}

/// The protocol names in bytes, and the ALPN lists byte by byte.
pub proof fn lemma_protocol_names()
    ensures
        "h2".spec_bytes() == seq![104u8, 50u8],
        "http/1.1".spec_bytes() == seq![104u8, 116u8, 116u8, 112u8, 47u8, 49u8, 46u8, 49u8],
        alpn_protos(HttpVersionPref::Http2) == seq![2u8, 104u8, 50u8],
        alpn_protos(HttpVersionPref::Http1) == seq![
            8u8,
            104u8,
            116u8,
            116u8,
            112u8,
            47u8,
            49u8,
            46u8,
            49u8,
        ],
        alpn_protos(HttpVersionPref::All) == seq![
            2u8,
            104u8,
            50u8,
            8u8,
            104u8,
            116u8,
            116u8,
            112u8,
            47u8,
            49u8,
            46u8,
            49u8,
        ],
{
    reveal_strlit("h2");
    reveal_strlit("http/1.1");
    vstd::string::is_ascii_spec_bytes("h2");
    vstd::string::is_ascii_spec_bytes("http/1.1");
    assert("h2".spec_bytes() =~= seq![104u8, 50u8]);
    assert("http/1.1".spec_bytes() =~= seq![104u8, 116u8, 116u8, 112u8, 47u8, 49u8, 46u8, 49u8]);
    assert(alpn_protos(HttpVersionPref::Http2) =~= seq![2u8, 104u8, 50u8]);
    assert(alpn_protos(HttpVersionPref::Http1) =~= seq![
        8u8,
        104u8,
        116u8,
        116u8,
        112u8,
        47u8,
        49u8,
        46u8,
        49u8,
    ]);
    assert(alpn_protos(HttpVersionPref::All) =~= seq![
        2u8,
        104u8,
        50u8,
        8u8,
        104u8,
        116u8,
        116u8,
        112u8,
        47u8,
        49u8,
        46u8,
        49u8,
    ]);
}

} // verus!
