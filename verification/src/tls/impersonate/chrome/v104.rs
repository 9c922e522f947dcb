//! Chrome 104.

use vstd::prelude::*;
use vstd::string::StringSliceAdditionalSpecFns;
use crate::error::Error;
use crate::header::ACCEPT;
use crate::header::ACCEPT_ENCODING;
use crate::header::ACCEPT_LANGUAGE;
use crate::header::DNT;
use crate::header::SEC_CH_UA;
use crate::header::SEC_CH_UA_MOBILE;
use crate::header::SEC_CH_UA_PLATFORM;
use crate::header::SEC_FETCH_DEST;
use crate::header::SEC_FETCH_MODE;
use crate::header::SEC_FETCH_SITE;
use crate::header::SEC_FETCH_USER;
use crate::header::UPGRADE_INSECURE_REQUESTS;
use crate::header::USER_AGENT;
use crate::header::has_room;
use crate::header::header_fields;
use crate::header::lemma_room_after_insert;
use crate::header::headers_full;
use crate::header::insert_header;
use crate::header::lemma_known_names;
use crate::header::new_headers;
use crate::header::no_fields;
use crate::tls::impersonate::ImpersonateConfig;
use crate::tls::impersonate::ImpersonateSettings;
use crate::tls::settings::Http2Settings;

verus! {

/// The value of the `sec-ch-ua` header.
pub const SEC_CH_UA_VALUE: &'static str = "\"Chromium\";v=\"104\", \" Not A;Brand\";v=\"99\", \"Google Chrome\";v=\"104\"";

/// The value of the `sec-ch-ua-mobile` header.
pub const SEC_CH_UA_MOBILE_VALUE: &'static str = "?0";

/// The value of the `sec-ch-ua-platform` header.
pub const SEC_CH_UA_PLATFORM_VALUE: &'static str = "\"Windows\"";

/// The value of the `dnt` header.
pub const DNT_VALUE: &'static str = "1";

/// The value of the `upgrade-insecure-requests` header.
pub const UPGRADE_INSECURE_REQUESTS_VALUE: &'static str = "1";

/// The value of the `user-agent` header.
pub const USER_AGENT_VALUE: &'static str = "Mozilla/5.0 (Windows NT 10.0; Win64; x64) AppleWebKit/537.36 (KHTML, like Gecko) Chrome/104.0.0.0 Safari/537.36";

/// The value of the `accept` header.
pub const ACCEPT_VALUE: &'static str = "text/html,application/xhtml+xml,application/xml;q=0.9,image/avif,image/webp,image/apng,*/*;q=0.8,application/signed-exchange;v=b3;q=0.9";

/// The value of the `sec-fetch-site` header.
pub const SEC_FETCH_SITE_VALUE: &'static str = "none";

/// The value of the `sec-fetch-mode` header.
pub const SEC_FETCH_MODE_VALUE: &'static str = "navigate";

/// The value of the `sec-fetch-user` header.
pub const SEC_FETCH_USER_VALUE: &'static str = "?1";

/// The value of the `sec-fetch-dest` header.
pub const SEC_FETCH_DEST_VALUE: &'static str = "document";

/// The value of the `accept-encoding` header.
pub const ACCEPT_ENCODING_VALUE: &'static str = "gzip, deflate, br";

/// The value of the `accept-language` header.
pub const ACCEPT_LANGUAGE_VALUE: &'static str = "en-US,en;q=0.9";

/// The header fields of a request after the headers of Chrome 104 were set.
pub open spec fn with_headers(fields: Map<Seq<char>, Seq<Seq<u8>>>) -> Map<
    Seq<char>,
    Seq<Seq<u8>>,
> {
    fields.insert(
        SEC_CH_UA@,
        seq![SEC_CH_UA_VALUE.spec_bytes()],
    ).insert(
        SEC_CH_UA_MOBILE@,
        seq![SEC_CH_UA_MOBILE_VALUE.spec_bytes()],
    ).insert(
        SEC_CH_UA_PLATFORM@,
        seq![SEC_CH_UA_PLATFORM_VALUE.spec_bytes()],
    ).insert(
        DNT@,
        seq![DNT_VALUE.spec_bytes()],
    ).insert(
        UPGRADE_INSECURE_REQUESTS@,
        seq![UPGRADE_INSECURE_REQUESTS_VALUE.spec_bytes()],
    ).insert(
        USER_AGENT@,
        seq![USER_AGENT_VALUE.spec_bytes()],
    ).insert(
        ACCEPT@,
        seq![ACCEPT_VALUE.spec_bytes()],
    ).insert(
        SEC_FETCH_SITE@,
        seq![SEC_FETCH_SITE_VALUE.spec_bytes()],
    ).insert(
        SEC_FETCH_MODE@,
        seq![SEC_FETCH_MODE_VALUE.spec_bytes()],
    ).insert(
        SEC_FETCH_USER@,
        seq![SEC_FETCH_USER_VALUE.spec_bytes()],
    ).insert(
        SEC_FETCH_DEST@,
        seq![SEC_FETCH_DEST_VALUE.spec_bytes()],
    ).insert(
        ACCEPT_ENCODING@,
        seq![ACCEPT_ENCODING_VALUE.spec_bytes()],
    ).insert(
        ACCEPT_LANGUAGE@,
        seq![ACCEPT_LANGUAGE_VALUE.spec_bytes()],
    )
}

/// Sets the headers that Chrome 104 sends with every request, each in place
/// of what `headers` held under its name.
///
/// Fails only when the header map is too full, and never where it has
/// room for the headers.
pub fn header_initializer(headers: &mut http::HeaderMap) -> (done: Result<(), Error>)
    ensures
        done is Ok ==> header_fields(*final(headers)) == with_headers(header_fields(*old(headers))),
        done matches Err(e) ==> e@ == headers_full(),
        has_room(header_fields(*old(headers)), 13) ==> done is Ok,
{
    proof {
        lemma_known_names();
        lemma_values();
    }
    let ghost room = has_room(header_fields(*headers), 13);
    let ghost at0 = header_fields(*headers);
    match insert_header(headers, SEC_CH_UA, SEC_CH_UA_VALUE.as_bytes()) {
        Ok(_) => {},
        Err(e) => {
            return Err(e);
        },
    }
    proof {
        if room {
            lemma_room_after_insert(at0, SEC_CH_UA@, seq![SEC_CH_UA_VALUE.spec_bytes()], 12);
        }
    }
    let ghost at1 = header_fields(*headers);
    match insert_header(headers, SEC_CH_UA_MOBILE, SEC_CH_UA_MOBILE_VALUE.as_bytes()) {
        Ok(_) => {},
        Err(e) => {
            return Err(e);
        },
    }
    proof {
        if room {
            lemma_room_after_insert(at1, SEC_CH_UA_MOBILE@, seq![SEC_CH_UA_MOBILE_VALUE.spec_bytes()], 11);
        }
    }
    let ghost at2 = header_fields(*headers);
    match insert_header(headers, SEC_CH_UA_PLATFORM, SEC_CH_UA_PLATFORM_VALUE.as_bytes()) {
        Ok(_) => {},
        Err(e) => {
            return Err(e);
        },
    }
    proof {
        if room {
            lemma_room_after_insert(at2, SEC_CH_UA_PLATFORM@, seq![SEC_CH_UA_PLATFORM_VALUE.spec_bytes()], 10);
        }
    }
    let ghost at3 = header_fields(*headers);
    match insert_header(headers, DNT, DNT_VALUE.as_bytes()) {
        Ok(_) => {},
        Err(e) => {
            return Err(e);
        },
    }
    proof {
        if room {
            lemma_room_after_insert(at3, DNT@, seq![DNT_VALUE.spec_bytes()], 9);
        }
    }
    let ghost at4 = header_fields(*headers);
    match insert_header(headers, UPGRADE_INSECURE_REQUESTS, UPGRADE_INSECURE_REQUESTS_VALUE.as_bytes()) {
        Ok(_) => {},
        Err(e) => {
            return Err(e);
        },
    }
    proof {
        if room {
            lemma_room_after_insert(at4, UPGRADE_INSECURE_REQUESTS@, seq![UPGRADE_INSECURE_REQUESTS_VALUE.spec_bytes()], 8);
        }
    }
    let ghost at5 = header_fields(*headers);
    match insert_header(headers, USER_AGENT, USER_AGENT_VALUE.as_bytes()) {
        Ok(_) => {},
        Err(e) => {
            return Err(e);
        },
    }
    proof {
        if room {
            lemma_room_after_insert(at5, USER_AGENT@, seq![USER_AGENT_VALUE.spec_bytes()], 7);
        }
    }
    let ghost at6 = header_fields(*headers);
    match insert_header(headers, ACCEPT, ACCEPT_VALUE.as_bytes()) {
        Ok(_) => {},
        Err(e) => {
            return Err(e);
        },
    }
    proof {
        if room {
            lemma_room_after_insert(at6, ACCEPT@, seq![ACCEPT_VALUE.spec_bytes()], 6);
        }
    }
    let ghost at7 = header_fields(*headers);
    match insert_header(headers, SEC_FETCH_SITE, SEC_FETCH_SITE_VALUE.as_bytes()) {
        Ok(_) => {},
        Err(e) => {
            return Err(e);
        },
    }
    proof {
        if room {
            lemma_room_after_insert(at7, SEC_FETCH_SITE@, seq![SEC_FETCH_SITE_VALUE.spec_bytes()], 5);
        }
    }
    let ghost at8 = header_fields(*headers);
    match insert_header(headers, SEC_FETCH_MODE, SEC_FETCH_MODE_VALUE.as_bytes()) {
        Ok(_) => {},
        Err(e) => {
            return Err(e);
        },
    }
    proof {
        if room {
            lemma_room_after_insert(at8, SEC_FETCH_MODE@, seq![SEC_FETCH_MODE_VALUE.spec_bytes()], 4);
        }
    }
    let ghost at9 = header_fields(*headers);
    match insert_header(headers, SEC_FETCH_USER, SEC_FETCH_USER_VALUE.as_bytes()) {
        Ok(_) => {},
        Err(e) => {
            return Err(e);
        },
    }
    proof {
        if room {
            lemma_room_after_insert(at9, SEC_FETCH_USER@, seq![SEC_FETCH_USER_VALUE.spec_bytes()], 3);
        }
    }
    let ghost at10 = header_fields(*headers);
    match insert_header(headers, SEC_FETCH_DEST, SEC_FETCH_DEST_VALUE.as_bytes()) {
        Ok(_) => {},
        Err(e) => {
            return Err(e);
        },
    }
    proof {
        if room {
            lemma_room_after_insert(at10, SEC_FETCH_DEST@, seq![SEC_FETCH_DEST_VALUE.spec_bytes()], 2);
        }
    }
    let ghost at11 = header_fields(*headers);
    match insert_header(headers, ACCEPT_ENCODING, ACCEPT_ENCODING_VALUE.as_bytes()) {
        Ok(_) => {},
        Err(e) => {
            return Err(e);
        },
    }
    proof {
        if room {
            lemma_room_after_insert(at11, ACCEPT_ENCODING@, seq![ACCEPT_ENCODING_VALUE.spec_bytes()], 1);
        }
    }
    let ghost at12 = header_fields(*headers);
    match insert_header(headers, ACCEPT_LANGUAGE, ACCEPT_LANGUAGE_VALUE.as_bytes()) {
        Ok(_) => {},
        Err(e) => {
            return Err(e);
        },
    }
    proof {
        if room {
            lemma_room_after_insert(at12, ACCEPT_LANGUAGE@, seq![ACCEPT_LANGUAGE_VALUE.spec_bytes()], 0);
        }
    }
    Ok(())
}

/// The HTTP/2 settings of Chrome 104, with the priority and the orders that
/// `settings` names.
pub open spec fn http2_settings(settings: ImpersonateConfig) -> Http2Settings {
    Http2Settings {
        initial_stream_window_size: Some(6291456u32),
        initial_connection_window_size: Some(15728640u32),
        max_concurrent_streams: Some(1000u32),
        max_header_list_size: Some(262144u32),
        header_table_size: Some(65536u32),
        headers_priority: settings.http2_headers_priority,
        headers_pseudo_order: settings.http2_headers_pseudo_order,
        settings_order: settings.http2_settings_order,
        ..Http2Settings::unset()
    }
}

/// The settings of Chrome 104: the TLS settings that `settings` carries,
/// the build's HTTP/2 settings and its headers.
///
/// A new header map always has room for the headers.
pub fn get_settings(settings: ImpersonateConfig) -> (result: ImpersonateSettings)
    ensures
        result.tls == settings.tls,
        result.http2 == http2_settings(settings),
        result.headers matches Some(h) && header_fields(h) == with_headers(no_fields()),
{
    let mut headers = new_headers();
    let done = header_initializer(&mut headers);
    done.unwrap();
    let mut http2 = Http2Settings::default();
    http2.initial_stream_window_size = Some(6291456);
    http2.initial_connection_window_size = Some(15728640);
    http2.max_concurrent_streams = Some(1000);
    http2.max_header_list_size = Some(262144);
    http2.header_table_size = Some(65536);
    http2.headers_priority = settings.http2_headers_priority;
    http2.headers_pseudo_order = settings.http2_headers_pseudo_order;
    http2.settings_order = settings.http2_settings_order;
    ImpersonateSettings { tls: settings.tls, http2, headers: Some(headers) }
}

/// The values of the headers are header values.
pub proof fn lemma_values()
    ensures
        crate::header::is_header_value(SEC_CH_UA_VALUE.spec_bytes()),
        crate::header::is_header_value(SEC_CH_UA_MOBILE_VALUE.spec_bytes()),
        crate::header::is_header_value(SEC_CH_UA_PLATFORM_VALUE.spec_bytes()),
        crate::header::is_header_value(DNT_VALUE.spec_bytes()),
        crate::header::is_header_value(UPGRADE_INSECURE_REQUESTS_VALUE.spec_bytes()),
        crate::header::is_header_value(USER_AGENT_VALUE.spec_bytes()),
        crate::header::is_header_value(ACCEPT_VALUE.spec_bytes()),
        crate::header::is_header_value(SEC_FETCH_SITE_VALUE.spec_bytes()),
        crate::header::is_header_value(SEC_FETCH_MODE_VALUE.spec_bytes()),
        crate::header::is_header_value(SEC_FETCH_USER_VALUE.spec_bytes()),
        crate::header::is_header_value(SEC_FETCH_DEST_VALUE.spec_bytes()),
        crate::header::is_header_value(ACCEPT_ENCODING_VALUE.spec_bytes()),
        crate::header::is_header_value(ACCEPT_LANGUAGE_VALUE.spec_bytes()),
{
    reveal_strlit("\"Chromium\";v=\"104\", \" Not A;Brand\";v=\"99\", \"Google Chrome\";v=\"104\"");
    crate::header::lemma_printable_is_header_value(SEC_CH_UA_VALUE);
    reveal_strlit("?0");
    crate::header::lemma_printable_is_header_value(SEC_CH_UA_MOBILE_VALUE);
    reveal_strlit("\"Windows\"");
    crate::header::lemma_printable_is_header_value(SEC_CH_UA_PLATFORM_VALUE);
    reveal_strlit("1");
    crate::header::lemma_printable_is_header_value(DNT_VALUE);
    reveal_strlit("1");
    crate::header::lemma_printable_is_header_value(UPGRADE_INSECURE_REQUESTS_VALUE);
    reveal_strlit("Mozilla/5.0 (Windows NT 10.0; Win64; x64) AppleWebKit/537.36 (KHTML, like Gecko) Chrome/104.0.0.0 Safari/537.36");
    crate::header::lemma_printable_is_header_value(USER_AGENT_VALUE);
    reveal_strlit("text/html,application/xhtml+xml,application/xml;q=0.9,image/avif,image/webp,image/apng,*/*;q=0.8,application/signed-exchange;v=b3;q=0.9");
    crate::header::lemma_printable_is_header_value(ACCEPT_VALUE);
    reveal_strlit("none");
    crate::header::lemma_printable_is_header_value(SEC_FETCH_SITE_VALUE);
    reveal_strlit("navigate");
    crate::header::lemma_printable_is_header_value(SEC_FETCH_MODE_VALUE);
    reveal_strlit("?1");
    crate::header::lemma_printable_is_header_value(SEC_FETCH_USER_VALUE);
    reveal_strlit("document");
    crate::header::lemma_printable_is_header_value(SEC_FETCH_DEST_VALUE);
    reveal_strlit("gzip, deflate, br");
    crate::header::lemma_printable_is_header_value(ACCEPT_ENCODING_VALUE);
    reveal_strlit("en-US,en;q=0.9");
    crate::header::lemma_printable_is_header_value(ACCEPT_LANGUAGE_VALUE);
}

} // verus!
