//! What identifies a TLS set-up.
//!
//! Connections are kept under the TLS set-up they were opened with. The
//! identity is a byte string made from every part of the connector, so
//! that connectors with the same parts have the same identity.

use vstd::prelude::*;
use vstd::string::StringSliceAdditionalSpecFns;
use crate::tls::connector::KeyLogPolicy;
use crate::tls::connector::KeyLogPolicyView;
use crate::tls::connector::TlsConnector;
use crate::tls::connector::TlsConnectorView;
use crate::tls::settings::CertCompressionAlgorithm;
use crate::tls::settings::HttpVersionPref;
use crate::tls::settings::SslCurve;
use crate::tls::settings::TlsSettings;
use crate::tls::settings::TlsSettingsView;
use crate::tls::settings::TlsVersion;

verus! {

/// The byte that ends a part of free length.
pub const END: u8 = 255;

/// The identity so far with a part of free length.
pub open spec fn with_bytes(acc: Seq<u8>, bytes: Seq<u8>) -> Seq<u8> {
    acc + bytes + seq![END]
}

/// The code of a flag.
pub open spec fn flag_code(flag: bool) -> u8 {
    if flag {
        1
    } else {
        0
    }
}

/// The code of a flag that may be unset.
pub open spec fn opt_flag_code(flag: Option<bool>) -> u8 {
    match flag {
        None => 0,
        Some(false) => 1,
        Some(true) => 2,
    }
}

/// The code of a TLS version that may be unset.
pub open spec fn version_code(version: Option<TlsVersion>) -> u8 {
    match version {
        None => 0,
        Some(TlsVersion::Tls1_0) => 1,
        Some(TlsVersion::Tls1_1) => 2,
        Some(TlsVersion::Tls1_2) => 3,
        Some(TlsVersion::Tls1_3) => 4,
    }
}

/// The code of an ALPN preference.
pub open spec fn pref_code(pref: HttpVersionPref) -> u8 {
    match pref {
        HttpVersionPref::Http1 => 1,
        HttpVersionPref::Http2 => 2,
        HttpVersionPref::All => 3,
    }
}

/// The code of a group.
pub open spec fn curve_code(curve: SslCurve) -> u8 {
    match curve {
        SslCurve::X25519 => 1,
        SslCurve::Secp256r1 => 2,
        SslCurve::Secp384r1 => 3,
        SslCurve::Secp521r1 => 4,
        SslCurve::X25519Kyber768Draft00 => 5,
        SslCurve::X25519MlKem768 => 6,
    }
}

/// The code of a certificate compression algorithm that may be unset.
pub open spec fn compression_code(algorithm: Option<CertCompressionAlgorithm>) -> u8 {
    match algorithm {
        None => 0,
        Some(CertCompressionAlgorithm::Brotli) => 1,
        Some(CertCompressionAlgorithm::Zlib) => 2,
        Some(CertCompressionAlgorithm::Zstd) => 3,
    }
}

/// The identity so far with a text that may be unset.
pub open spec fn with_text(acc: Seq<u8>, text: Option<Seq<char>>) -> Seq<u8> {
    match text {
        None => acc.push(0),
        Some(t) => with_bytes(acc.push(1), vstd::utf8::encode_utf8(t)),
    }
}

/// The identity so far with bytes that may be unset.
pub open spec fn with_opt_bytes(acc: Seq<u8>, bytes: Option<Seq<u8>>) -> Seq<u8> {
    match bytes {
        None => acc.push(0),
        Some(b) => with_bytes(acc.push(1), b),
    }
}

/// The identity so far with the groups, in order.
pub open spec fn with_curves(acc: Seq<u8>, curves: Option<Seq<SslCurve>>) -> Seq<u8> {
    match curves {
        None => acc.push(0),
        Some(c) => with_bytes(acc.push(1), c.map_values(|x: SslCurve| curve_code(x))),
    }
}

/// The identity so far with each of the parts, in order.
pub open spec fn with_each(acc: Seq<u8>, parts: Seq<Seq<u8>>) -> Seq<u8>
    decreases parts.len(),
{
    if parts.len() == 0 {
        acc
    } else {
        with_bytes(with_each(acc, parts.drop_last()), parts.last())
    }
}

/// The identity so far with the trusted certificates.
pub open spec fn with_certs(acc: Seq<u8>, certs: Option<Seq<Seq<u8>>>) -> Seq<u8> {
    match certs {
        None => acc.push(0),
        Some(c) => with_each(acc.push(1), c).push(END),
    }
}

/// The identity so far with where keys are logged.
pub open spec fn with_keylog(acc: Seq<u8>, keylog: Option<KeyLogPolicyView>) -> Seq<u8> {
    match keylog {
        None => acc.push(0),
        Some(KeyLogPolicyView::Environment) => acc.push(1),
        Some(KeyLogPolicyView::File(path)) => with_bytes(acc.push(2), vstd::utf8::encode_utf8(path)),
    }
}

/// The identity so far with the knobs of a profile.
pub open spec fn with_settings(acc: Seq<u8>, s: TlsSettingsView) -> Seq<u8> {
    let a = acc.push(flag_code(s.certs_verification)).push(flag_code(s.tls_sni)).push(
        pref_code(s.http_version_pref),
    ).push(version_code(s.min_tls_version)).push(version_code(s.max_tls_version)).push(
        flag_code(s.application_settings),
    ).push(flag_code(s.pre_shared_key)).push(flag_code(s.enable_ech_grease)).push(
        flag_code(s.permute_extensions),
    ).push(opt_flag_code(s.grease_enabled)).push(flag_code(s.enable_ocsp_stapling)).push(
        flag_code(s.enable_signed_cert_timestamps),
    ).push(compression_code(s.cert_compression_algorithm));
    with_text(with_text(with_curves(a, s.curves), s.sigalgs_list), s.cipher_list)
}

/// What identifies a TLS connector: its knobs, where its keys are logged,
/// its client certificate, its trusted certificates and its own flags.
pub open spec fn identity_of(c: TlsConnectorView) -> Seq<u8> {
    let a = with_settings(Seq::empty(), c.tls_config);
    let b = with_certs(with_opt_bytes(with_keylog(a, c.keylog), c.identity), c.cert_store);
    b.push(flag_code(c.cert_verification)).push(flag_code(c.tls_sni)).push(
        flag_code(c.verify_hostname),
    )
}

fn push_flag(out: &mut Vec<u8>, flag: bool)
    ensures
        final(out)@ == old(out)@.push(flag_code(flag)),
{
    if flag {
        out.push(1);
    } else {
        out.push(0);
    }
}

fn push_bytes(out: &mut Vec<u8>, bytes: &[u8])
    ensures
        final(out)@ == with_bytes(old(out)@, bytes@),
{
    out.extend_from_slice(bytes);
    out.push(END);
}

fn push_version(out: &mut Vec<u8>, version: Option<TlsVersion>)
    ensures
        final(out)@ == old(out)@.push(version_code(version)),
{
    let code: u8 = match version {
        None => 0,
        Some(TlsVersion::Tls1_0) => 1,
        Some(TlsVersion::Tls1_1) => 2,
        Some(TlsVersion::Tls1_2) => 3,
        Some(TlsVersion::Tls1_3) => 4,
    };
    out.push(code);
}

fn push_text(out: &mut Vec<u8>, text: &Option<String>)
    ensures
        final(out)@ == with_text(old(out)@, crate::text::opt_text(*text)),
{
    match text {
        None => {
            out.push(0);
        },
        Some(t) => {
            out.push(1);
            push_bytes(out, t.as_str().as_bytes());
        },
    }
}

fn push_curves(out: &mut Vec<u8>, curves: &Option<Vec<SslCurve>>)
    ensures
        final(out)@ == with_curves(
            old(out)@,
            match *curves {
                Some(c) => Some(c@),
                None => None,
            },
        ),
{
    match curves {
        None => {
            out.push(0);
        },
        Some(list) => {
            out.push(1);
            let ghost start = out@;
            let mut i: usize = 0;
            while i < list.len()
                invariant
                    i <= list.len(),
                    out@ == start + list@.subrange(0, i as int).map_values(
                        |x: SslCurve| curve_code(x),
                    ),
                decreases list.len() - i,
            {
                let code: u8 = match list[i] {
                    SslCurve::X25519 => 1,
                    SslCurve::Secp256r1 => 2,
                    SslCurve::Secp384r1 => 3,
                    SslCurve::Secp521r1 => 4,
                    SslCurve::X25519Kyber768Draft00 => 5,
                    SslCurve::X25519MlKem768 => 6,
                };
                out.push(code);
                proof {
                    assert(list@.subrange(0, i + 1).map_values(|x: SslCurve| curve_code(x))
                        =~= list@.subrange(0, i as int).map_values(
                        |x: SslCurve| curve_code(x),
                    ).push(code));
                }
                i += 1;
            }
            proof {
                assert(list@.subrange(0, list.len() as int) =~= list@);
            }
            out.push(END);
        },
    }
}

fn push_settings(out: &mut Vec<u8>, s: &TlsSettings)
    ensures
        final(out)@ == with_settings(old(out)@, s@),
{
    push_flag(out, s.certs_verification);
    push_flag(out, s.tls_sni);
    let pref: u8 = match s.http_version_pref {
        HttpVersionPref::Http1 => 1,
        HttpVersionPref::Http2 => 2,
        HttpVersionPref::All => 3,
    };
    out.push(pref);
    push_version(out, s.min_tls_version);
    push_version(out, s.max_tls_version);
    push_flag(out, s.application_settings);
    push_flag(out, s.pre_shared_key);
    push_flag(out, s.enable_ech_grease);
    push_flag(out, s.permute_extensions);
    let grease: u8 = match s.grease_enabled {
        None => 0,
        Some(false) => 1,
        Some(true) => 2,
    };
    out.push(grease);
    push_flag(out, s.enable_ocsp_stapling);
    push_flag(out, s.enable_signed_cert_timestamps);
    let compression: u8 = match s.cert_compression_algorithm {
        None => 0,
        Some(CertCompressionAlgorithm::Brotli) => 1,
        Some(CertCompressionAlgorithm::Zlib) => 2,
        Some(CertCompressionAlgorithm::Zstd) => 3,
    };
    out.push(compression);
    push_curves(out, &s.curves);
    push_text(out, &s.sigalgs_list);
    push_text(out, &s.cipher_list);
}

fn push_keylog(out: &mut Vec<u8>, keylog: &Option<KeyLogPolicy>)
    ensures
        final(out)@ == with_keylog(old(out)@, crate::tls::connector::opt_keylog_view(*keylog)),
{
    match keylog {
        None => {
            out.push(0);
        },
        Some(KeyLogPolicy::Environment) => {
            out.push(1);
        },
        Some(KeyLogPolicy::File(path)) => {
            out.push(2);
            push_bytes(out, path.as_str().as_bytes());
        },
    }
}

fn push_client_certificate(out: &mut Vec<u8>, identity: &Option<crate::tls::connector::Identity>)
    ensures
        final(out)@ == with_opt_bytes(
            old(out)@,
            crate::tls::connector::opt_identity_view(*identity),
        ),
{
    match identity {
        None => {
            out.push(0);
        },
        Some(identity) => {
            out.push(1);
            push_bytes(out, identity.encoded.as_slice());
        },
    }
}

fn push_certs(out: &mut Vec<u8>, cert_store: &Option<crate::tls::connector::CertStore>)
    ensures
        final(out)@ == with_certs(old(out)@, crate::tls::connector::opt_store_view(*cert_store)),
{
    match cert_store {
        None => {
            out.push(0);
        },
        Some(store) => {
            out.push(1);
            let ghost start = out@;
            let ghost ders = store.ders();
            let mut i: usize = 0;
            while i < store.certs.len()
                invariant
                    i <= store.certs.len(),
                    ders == store.ders(),
                    out@ == with_each(start, ders.subrange(0, i as int)),
                decreases store.certs.len() - i,
            {
                push_bytes(out, store.certs[i].as_slice());
                proof {
                    let upto = ders.subrange(0, i + 1);
                    assert(upto.drop_last() =~= ders.subrange(0, i as int));
                    assert(upto.last() == store.certs[i as int]@);
                }
                i += 1;
            }
            proof {
                assert(ders.subrange(0, store.certs.len() as int) =~= ders);
            }
            out.push(END);
        },
    }
}

/// Makes the identity of a TLS connector.
pub fn tls_identity(connector: &TlsConnector) -> (id: Vec<u8>)
    ensures
        id@ == identity_of(connector@),
{
    let mut out: Vec<u8> = Vec::new();
    push_settings(&mut out, &connector.tls_config);
    push_keylog(&mut out, &connector.keylog);
    push_client_certificate(&mut out, &connector.identity);
    push_certs(&mut out, &connector.cert_store);
    push_flag(&mut out, connector.cert_verification);
    push_flag(&mut out, connector.tls_sni);
    push_flag(&mut out, connector.verify_hostname);
    out
}

} // verus!
