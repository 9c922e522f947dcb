//! OkHttp 3.9.

use vstd::prelude::*;
use vstd::string::StringSliceAdditionalSpecFns;
use crate::tls::impersonate::ImpersonateSettings;
use crate::tls::impersonate::okhttp::is_build;
use crate::tls::impersonate::okhttp::settings_for;

verus! {

/// The cipher suites OkHttp 3.9 offers, in order.
pub const CIPHER_LIST: &'static str = "TLS_ECDHE_ECDSA_WITH_AES_128_GCM_SHA256:TLS_ECDHE_RSA_WITH_AES_128_GCM_SHA256:TLS_ECDHE_ECDSA_WITH_AES_256_GCM_SHA384:TLS_ECDHE_RSA_WITH_AES_256_GCM_SHA384:TLS_ECDHE_ECDSA_WITH_CHACHA20_POLY1305_SHA256:TLS_ECDHE_RSA_WITH_CHACHA20_POLY1305_SHA256:TLS_ECDHE_ECDSA_WITH_AES_128_CBC_SHA:TLS_ECDHE_RSA_WITH_AES_128_CBC_SHA:TLS_ECDHE_ECDSA_WITH_AES_256_CBC_SHA:TLS_ECDHE_RSA_WITH_AES_256_CBC_SHA:TLS_RSA_WITH_AES_128_GCM_SHA256:TLS_RSA_WITH_AES_256_GCM_SHA384:TLS_RSA_WITH_AES_128_CBC_SHA:TLS_RSA_WITH_AES_256_CBC_SHA:TLS_RSA_WITH_3DES_EDE_CBC_SHA";

/// The user agent an application built on OkHttp 3.9 sends.
pub const USER_AGENT: &'static str = "MaiMemo/4.4.50_639 okhttp/3.9 Android/5.0 Channel/WanDouJia Device/alps+M8+Emulator (armeabi-v7a) Screen/4.44 Resolution/480x800 DId/aa6cde19def3806806d5374c4e5fd617 RAM/0.94 ROM/4.91 Theme/Day";

/// The settings of OkHttp 3.9, with its headers where `with_headers` asks for
/// them.
pub fn get_settings(with_headers: bool) -> (settings: ImpersonateSettings)
    ensures
        is_build(Ok(settings), with_headers, CIPHER_LIST@, USER_AGENT.spec_bytes()),
{
    proof {
        lemma_user_agent_is_header_value();
    }
    let settings = settings_for(CIPHER_LIST, USER_AGENT, with_headers);
    settings.unwrap()
}

/// The user agent is a header value.
pub proof fn lemma_user_agent_is_header_value()
    ensures
        crate::header::is_header_value(USER_AGENT.spec_bytes()),
{
    reveal_strlit("MaiMemo/4.4.50_639 okhttp/3.9 Android/5.0 Channel/WanDouJia Device/alps+M8+Emulator (armeabi-v7a) Screen/4.44 Resolution/480x800 DId/aa6cde19def3806806d5374c4e5fd617 RAM/0.94 ROM/4.91 Theme/Day");
    crate::header::lemma_printable_is_header_value(USER_AGENT);
}

} // verus!
