//! OkHttp 4.10.

use vstd::prelude::*;
use vstd::string::StringSliceAdditionalSpecFns;
use crate::tls::impersonate::ImpersonateSettings;
use crate::tls::impersonate::okhttp::is_build;
use crate::tls::impersonate::okhttp::settings_for;
use crate::tls::impersonate::okhttp::CIPHER_LIST;

verus! {

/// The user agent an application built on OkHttp 4.10 sends.
pub const USER_AGENT: &'static str = "GM-Android/6.112.2 (240590300; M:samsung SM-G781U1; O:33; D:edb34792871638d8) ObsoleteUrlFactory/1.0 OkHttp/4.10.0";

/// The settings of OkHttp 4.10, with its headers where `with_headers` asks for
/// them.
pub fn get_settings(with_headers: bool) -> (settings: ImpersonateSettings)
    ensures
        is_build(Ok(settings), with_headers, CIPHER_LIST@, USER_AGENT.spec_bytes()),
{
    proof {
        lemma_user_agent_is_header_value();
    }
    let settings = settings_for(CIPHER_LIST, USER_AGENT, with_headers);
    settings.unwrap()
}

/// The user agent is a header value.
pub proof fn lemma_user_agent_is_header_value()
    ensures
        crate::header::is_header_value(USER_AGENT.spec_bytes()),
{
    reveal_strlit("GM-Android/6.112.2 (240590300; M:samsung SM-G781U1; O:33; D:edb34792871638d8) ObsoleteUrlFactory/1.0 OkHttp/4.10.0");
    crate::header::lemma_printable_is_header_value(USER_AGENT);
}

} // verus!
