//! OkHttp 3.14.

use vstd::prelude::*;
use vstd::string::StringSliceAdditionalSpecFns;
use crate::tls::impersonate::ImpersonateSettings;
use crate::tls::impersonate::okhttp::is_build;
use crate::tls::impersonate::okhttp::settings_for;
use crate::tls::impersonate::okhttp::CIPHER_LIST;

verus! {

/// The user agent an application built on OkHttp 3.14 sends.
pub const USER_AGENT: &'static str = "DS podcast/2.0.1 (be.standaard.audio; build:9; Android 11; Sdk:30; Manufacturer:samsung; Model: SM-A405FN) OkHttp/3.14.0";

/// The settings of OkHttp 3.14, with its headers where `with_headers` asks for
/// them.
pub fn get_settings(with_headers: bool) -> (settings: ImpersonateSettings)
    ensures
        is_build(Ok(settings), with_headers, CIPHER_LIST@, USER_AGENT.spec_bytes()),
{
    proof {
        lemma_user_agent_is_header_value();
    }
    let settings = settings_for(CIPHER_LIST, USER_AGENT, with_headers);
    settings.unwrap()
}

/// The user agent is a header value.
pub proof fn lemma_user_agent_is_header_value()
    ensures
        crate::header::is_header_value(USER_AGENT.spec_bytes()),
{
    reveal_strlit("DS podcast/2.0.1 (be.standaard.audio; build:9; Android 11; Sdk:30; Manufacturer:samsung; Model: SM-A405FN) OkHttp/3.14.0");
    crate::header::lemma_printable_is_header_value(USER_AGENT);
}

} // verus!
