//! OkHttp 3.13.

use vstd::prelude::*;
use vstd::string::StringSliceAdditionalSpecFns;
use crate::tls::impersonate::ImpersonateSettings;
use crate::tls::impersonate::okhttp::is_build;
use crate::tls::impersonate::okhttp::settings_for;

verus! {

/// The cipher suites OkHttp 3.13 offers, in order.
pub const CIPHER_LIST: &'static str = "TLS_AES_128_GCM_SHA256:TLS_AES_256_GCM_SHA384:TLS_CHACHA20_POLY1305_SHA256:TLS_AES_128_CCM_SHA256:TLS_AES_256_CCM_8_SHA256:TLS_ECDHE_ECDSA_WITH_AES_128_GCM_SHA256:TLS_ECDHE_RSA_WITH_AES_128_GCM_SHA256:TLS_ECDHE_ECDSA_WITH_AES_256_GCM_SHA384:TLS_ECDHE_RSA_WITH_AES_256_GCM_SHA384:TLS_ECDHE_ECDSA_WITH_CHACHA20_POLY1305_SHA256:TLS_ECDHE_RSA_WITH_CHACHA20_POLY1305_SHA256:TLS_ECDHE_RSA_WITH_AES_128_CBC_SHA:TLS_ECDHE_RSA_WITH_AES_256_CBC_SHA:TLS_RSA_WITH_AES_128_GCM_SHA256:TLS_RSA_WITH_AES_256_GCM_SHA384:TLS_RSA_WITH_AES_128_CBC_SHA:TLS_RSA_WITH_AES_256_CBC_SHA:TLS_RSA_WITH_3DES_EDE_CBC_SHA";

/// The user agent an application built on OkHttp 3.13 sends.
pub const USER_AGENT: &'static str = "GM-Android/6.112.2 (240590300; M:Google Pixel 7a; O:34; D:2b045e03986fa6dc) ObsoleteUrlFactory/1.0 OkHttp/3.13.0";

/// The settings of OkHttp 3.13, with its headers where `with_headers` asks for
/// them.
pub fn get_settings(with_headers: bool) -> (settings: ImpersonateSettings)
    ensures
        is_build(Ok(settings), with_headers, CIPHER_LIST@, USER_AGENT.spec_bytes()),
{
    proof {
        lemma_user_agent_is_header_value();
    }
    let settings = settings_for(CIPHER_LIST, USER_AGENT, with_headers);
    settings.unwrap()
}

/// The user agent is a header value.
pub proof fn lemma_user_agent_is_header_value()
    ensures
        crate::header::is_header_value(USER_AGENT.spec_bytes()),
{
    reveal_strlit("GM-Android/6.112.2 (240590300; M:Google Pixel 7a; O:34; D:2b045e03986fa6dc) ObsoleteUrlFactory/1.0 OkHttp/3.13.0");
    crate::header::lemma_printable_is_header_value(USER_AGENT);
}

} // verus!
