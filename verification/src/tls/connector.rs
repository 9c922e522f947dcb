//! What a TLS connector is built from.

use vstd::prelude::*;
use crate::tls::settings::AlpnProtos;
use crate::tls::settings::TlsConfig;
use crate::tls::settings::TlsSettingsView;
use crate::tls::settings::TlsVersion;

verus! {

/// Where the keys of TLS sessions are logged.
#[derive(Debug)]
pub enum KeyLogPolicy {
    /// To the file named by the environment.
    Environment,
    /// To the file at this path.
    File(String),
}

/// The keys a log policy names, to contracts.
pub ghost enum KeyLogPolicyView {
    Environment,
    File(Seq<char>),
}

impl View for KeyLogPolicy {
    type V = KeyLogPolicyView;

    open spec fn view(&self) -> KeyLogPolicyView {
        match self {
            KeyLogPolicy::Environment => KeyLogPolicyView::Environment,
            KeyLogPolicy::File(path) => KeyLogPolicyView::File(path@),
        }
    }
}

impl KeyLogPolicy {
    /// A copy of this policy.
    pub fn copy(&self) -> (policy: KeyLogPolicy)
        ensures
            policy@ == self@,
    {
        match self {
            KeyLogPolicy::Environment => KeyLogPolicy::Environment,
            KeyLogPolicy::File(path) => KeyLogPolicy::File(path.clone()),
        }
    }
}

/// The view of an optional log policy.
pub open spec fn opt_keylog_view(policy: Option<KeyLogPolicy>) -> Option<KeyLogPolicyView> {
    match policy {
        Some(p) => Some(p@),
        None => None,
    }
}

/// A client certificate with its key, in an encoded form.
#[derive(Debug)]
pub struct Identity {
    pub encoded: Vec<u8>,
}

impl Identity {
    /// A copy of this identity.
    pub fn copy(&self) -> (identity: Identity)
        ensures
            identity.encoded@ == self.encoded@,
    {
        Identity { encoded: self.encoded.clone() }
    }
}

/// The encoded form of an optional identity.
pub open spec fn opt_identity_view(identity: Option<Identity>) -> Option<Seq<u8>> {
    match identity {
        Some(i) => Some(i.encoded@),
        None => None,
    }
}

/// Trusted certificates, each in DER form.
#[derive(Debug)]
pub struct CertStore {
    pub certs: Vec<Vec<u8>>,
}

impl CertStore {
    /// The certificates in DER form.
    pub open spec fn ders(&self) -> Seq<Seq<u8>> {
        self.certs@.map_values(|c: Vec<u8>| c@)
    }

    /// A store of the given certificates. Fails where one of them is empty:
    /// no certificate has an empty encoding.
    pub fn from_der_certs(certs: Vec<Vec<u8>>) -> (store: Option<CertStore>)
        ensures
            store is Some == (forall|i: int| 0 <= i < certs@.len() ==> (#[trigger] certs@[i])@.len()
                > 0),
            store matches Some(s) ==> s.certs == certs,
    {
        let mut i: usize = 0;
        while i < certs.len()
            invariant
                i <= certs.len(),
                forall|k: int| 0 <= k < i ==> (#[trigger] certs@[k])@.len() > 0,
            decreases certs.len() - i,
        {
            if certs[i].len() == 0 {
                return None;
            }
            i += 1;
        }
        Some(CertStore { certs })
    }

    /// A copy of this store.
    pub fn copy(&self) -> (store: CertStore)
        ensures
            store.ders() == self.ders(),
    {
        let mut certs: Vec<Vec<u8>> = Vec::new();
        let mut i: usize = 0;
        while i < self.certs.len()
            invariant
                i <= self.certs.len(),
                certs@.len() == i,
                forall|k: int| 0 <= k < i ==> (#[trigger] certs@[k])@ == self.certs@[k]@,
            decreases self.certs.len() - i,
        {
            certs.push(self.certs[i].clone());
            i += 1;
        }
        let store = CertStore { certs };
        proof {
            assert(store.ders() =~= self.ders());
        }
        store
    }
}

impl Default for CertStore {
    /// The store that trusts what the system trusts: it names no
    /// certificate of its own.
    fn default() -> (store: CertStore)
        ensures
            store.certs@.len() == 0,
    {
        CertStore { certs: Vec::new() }
    }
}

/// The certificates of an optional store.
pub open spec fn opt_store_view(store: Option<CertStore>) -> Option<Seq<Seq<u8>>> {
    match store {
        Some(s) => Some(s.ders()),
        None => None,
    }
}

/// What is known of a TLS connection once it is up.
#[derive(Debug)]
pub struct TlsInfo {
    /// The peer's certificate in DER form.
    pub peer_certificate: Option<Vec<u8>>,
}

/// What to report of a TLS connection whose peer presented the certificate
/// `der`: nothing where it presented none.
pub fn tls_info(der: Option<Vec<u8>>) -> (info: Option<TlsInfo>)
    ensures
        info is Some == der is Some,
        info matches Some(i) ==> i.peer_certificate == der,
{
    match der {
        Some(c) => Some(TlsInfo { peer_certificate: Some(c) }),
        None => None,
    }
}

/// What a TLS connector is built from: the knobs of the profile and the
/// choices of the client.
#[derive(Debug)]
pub struct TlsConnector {
    pub tls_config: TlsConfig,
    pub keylog: Option<KeyLogPolicy>,
    pub identity: Option<Identity>,
    pub cert_store: Option<CertStore>,
    pub cert_verification: bool,
    pub tls_sni: bool,
    pub verify_hostname: bool,
}

/// A TLS connector, to contracts.
pub ghost struct TlsConnectorView {
    pub tls_config: TlsSettingsView,
    pub keylog: Option<KeyLogPolicyView>,
    pub identity: Option<Seq<u8>>,
    pub cert_store: Option<Seq<Seq<u8>>>,
    pub cert_verification: bool,
    pub tls_sni: bool,
    pub verify_hostname: bool,
}

impl View for TlsConnector {
    type V = TlsConnectorView;

    open spec fn view(&self) -> TlsConnectorView {
        TlsConnectorView {
            tls_config: self.tls_config@,
            keylog: opt_keylog_view(self.keylog),
            identity: opt_identity_view(self.identity),
            cert_store: opt_store_view(self.cert_store),
            cert_verification: self.cert_verification,
            tls_sni: self.tls_sni,
            verify_hostname: self.verify_hostname,
        }
    }
}

/// The knobs of a profile as a client's own choices change them: the
/// client's ALPN preference and version bounds, where it has any, take the
/// place of the profile's.
pub open spec fn with_client_choices(
    profile: TlsSettingsView,
    alpn_protos: Option<AlpnProtos>,
    min_tls_version: Option<TlsVersion>,
    max_tls_version: Option<TlsVersion>,
) -> TlsSettingsView {
    TlsSettingsView {
        http_version_pref: match alpn_protos {
            Some(a) => a,
            None => profile.http_version_pref,
        },
        min_tls_version: if min_tls_version is Some {
            min_tls_version
        } else {
            profile.min_tls_version
        },
        max_tls_version: if max_tls_version is Some {
            max_tls_version
        } else {
            profile.max_tls_version
        },
        ..profile
    }
}

/// Applies a client's own choices to the knobs of a profile.
pub fn apply_client_choices(
    tls_config: TlsConfig,
    alpn_protos: Option<AlpnProtos>,
    min_tls_version: Option<TlsVersion>,
    max_tls_version: Option<TlsVersion>,
) -> (changed: TlsConfig)
    ensures
        changed@ == with_client_choices(
            tls_config@,
            alpn_protos,
            min_tls_version,
            max_tls_version,
        ),
{
    let mut tls_config = tls_config;
    match alpn_protos {
        Some(a) => {
            tls_config.http_version_pref = a;
        },
        None => {},
    }
    if min_tls_version.is_some() {
        tls_config.min_tls_version = min_tls_version;
    }
    if max_tls_version.is_some() {
        tls_config.max_tls_version = max_tls_version;
    }
    tls_config
}

impl TlsConnector {
    /// A connector for the given knobs that logs no keys, presents no
    /// identity, trusts what the system trusts, and verifies certificate
    /// and host name.
    pub fn builder(tls_config: TlsConfig) -> (connector: TlsConnector)
        ensures
            connector@ == (TlsConnectorView {
                tls_config: tls_config@,
                keylog: None,
                identity: None,
                cert_store: None,
                cert_verification: true,
                tls_sni: true,
                verify_hostname: true,
            }),
    {
        TlsConnector {
            tls_config,
            keylog: None,
            identity: None,
            cert_store: None,
            cert_verification: true,
            tls_sni: true,
            verify_hostname: true,
        }
    }

    /// Sets where session keys are logged.
    pub fn keylog(self, policy: Option<KeyLogPolicy>) -> (connector: TlsConnector)
        ensures
            connector@ == (TlsConnectorView { keylog: opt_keylog_view(policy), ..self@ }),
    {
        let mut connector = self;
        connector.keylog = policy;
        connector
    }

    /// Sets the identity to present.
    pub fn identity(self, identity: Option<Identity>) -> (connector: TlsConnector)
        ensures
            connector@ == (TlsConnectorView { identity: opt_identity_view(identity), ..self@ }),
    {
        let mut connector = self;
        connector.identity = identity;
        connector
    }

    /// Sets the certificates to trust.
    pub fn cert_store(self, store: Option<CertStore>) -> (connector: TlsConnector)
        ensures
            connector@ == (TlsConnectorView { cert_store: opt_store_view(store), ..self@ }),
    {
        let mut connector = self;
        connector.cert_store = store;
        connector
    }

    /// Sets whether certificates are verified.
    pub fn cert_verification(self, enabled: bool) -> (connector: TlsConnector)
        ensures
            connector@ == (TlsConnectorView { cert_verification: enabled, ..self@ }),
    {
        let mut connector = self;
        connector.cert_verification = enabled;
        connector
    }

    /// Sets whether the server name is sent.
    pub fn tls_sni(self, enabled: bool) -> (connector: TlsConnector)
        ensures
            connector@ == (TlsConnectorView { tls_sni: enabled, ..self@ }),
    {
        let mut connector = self;
        connector.tls_sni = enabled;
        connector
    }

    /// Sets whether the host name is verified.
    pub fn verify_hostname(self, enabled: bool) -> (connector: TlsConnector)
        ensures
            connector@ == (TlsConnectorView { verify_hostname: enabled, ..self@ }),
    {
        let mut connector = self;
        connector.verify_hostname = enabled;
        connector
    }

    /// The finished connector.
    pub fn build(self) -> (connector: TlsConnector)
        ensures
            connector == self,
    {
        self
    }

    /// A copy of this connector.
    pub fn copy(&self) -> (connector: TlsConnector)
        ensures
            connector@ == self@,
    {
        TlsConnector {
            tls_config: self.tls_config.copy(),
            keylog: match &self.keylog {
                Some(k) => Some(k.copy()),
                None => None,
            },
            identity: match &self.identity {
                Some(i) => Some(i.copy()),
                None => None,
            },
            cert_store: match &self.cert_store {
                Some(s) => Some(s.copy()),
                None => None,
            },
            cert_verification: self.cert_verification,
            tls_sni: self.tls_sni,
            verify_hostname: self.verify_hostname,
        }
    }
}

} // verus!
