//! Safari 18.

use vstd::prelude::*;
use vstd::string::StringSliceAdditionalSpecFns;
use crate::error::Error;
use crate::header::ACCEPT;
use crate::header::ACCEPT_ENCODING;
use crate::header::ACCEPT_LANGUAGE;
use crate::header::PRIORITY;
use crate::header::SEC_FETCH_DEST;
use crate::header::SEC_FETCH_MODE;
use crate::header::SEC_FETCH_SITE;
use crate::header::USER_AGENT;
use crate::header::has_room;
use crate::header::header_fields;
use crate::header::lemma_room_after_insert;
use crate::header::headers_full;
use crate::header::insert_header;
use crate::header::lemma_known_names;
use crate::header::new_headers;
use crate::header::no_fields;
use crate::tls::impersonate::ImpersonateConfig;
use crate::tls::impersonate::ImpersonateSettings;
use crate::tls::settings::Http2Settings;

verus! {

/// The value of the `sec-fetch-dest` header.
pub const SEC_FETCH_DEST_VALUE: &'static str = "document";

/// The value of the `user-agent` header.
pub const USER_AGENT_VALUE: &'static str = "Mozilla/5.0 (Macintosh; Intel Mac OS X 10_15_7) AppleWebKit/605.1.15 (KHTML, like Gecko) Version/18.0 Safari/605.1.15";

/// The value of the `accept` header.
pub const ACCEPT_VALUE: &'static str = "text/html,application/xhtml+xml,application/xml;q=0.9,*/*;q=0.8";

/// The value of the `sec-fetch-site` header.
pub const SEC_FETCH_SITE_VALUE: &'static str = "none";

/// The value of the `sec-fetch-mode` header.
pub const SEC_FETCH_MODE_VALUE: &'static str = "navigate";

/// The value of the `accept-language` header.
pub const ACCEPT_LANGUAGE_VALUE: &'static str = "en-US,en;q=0.9";

/// The value of the `priority` header.
pub const PRIORITY_VALUE: &'static str = "u=0, i";

/// The value of the `accept-encoding` header.
pub const ACCEPT_ENCODING_VALUE: &'static str = "gzip, deflate, br";

/// The header fields of a request after the headers of Safari 18 were set.
pub open spec fn with_headers(fields: Map<Seq<char>, Seq<Seq<u8>>>) -> Map<
    Seq<char>,
    Seq<Seq<u8>>,
> {
    fields.insert(
        SEC_FETCH_DEST@,
        seq![SEC_FETCH_DEST_VALUE.spec_bytes()],
    ).insert(
        USER_AGENT@,
        seq![USER_AGENT_VALUE.spec_bytes()],
    ).insert(
        ACCEPT@,
        seq![ACCEPT_VALUE.spec_bytes()],
    ).insert(
        SEC_FETCH_SITE@,
        seq![SEC_FETCH_SITE_VALUE.spec_bytes()],
    ).insert(
        SEC_FETCH_MODE@,
        seq![SEC_FETCH_MODE_VALUE.spec_bytes()],
    ).insert(
        ACCEPT_LANGUAGE@,
        seq![ACCEPT_LANGUAGE_VALUE.spec_bytes()],
    ).insert(
        PRIORITY@,
        seq![PRIORITY_VALUE.spec_bytes()],
    ).insert(
        ACCEPT_ENCODING@,
        seq![ACCEPT_ENCODING_VALUE.spec_bytes()],
    )
}

/// Sets the headers that Safari 18 sends with every request, each in place
/// of what `headers` held under its name.
///
/// Fails only when the header map is too full, and never where it has
/// room for the headers.
pub fn header_initializer(headers: &mut http::HeaderMap) -> (done: Result<(), Error>)
    ensures
        done is Ok ==> header_fields(*final(headers)) == with_headers(header_fields(*old(headers))),
        done matches Err(e) ==> e@ == headers_full(),
        has_room(header_fields(*old(headers)), 8) ==> done is Ok,
{
    proof {
        lemma_known_names();
        lemma_values();
    }
    let ghost room = has_room(header_fields(*headers), 8);
    let ghost at0 = header_fields(*headers);
    match insert_header(headers, SEC_FETCH_DEST, SEC_FETCH_DEST_VALUE.as_bytes()) {
        Ok(_) => {},
        Err(e) => {
            return Err(e);
        },
    }
    proof {
        if room {
            lemma_room_after_insert(at0, SEC_FETCH_DEST@, seq![SEC_FETCH_DEST_VALUE.spec_bytes()], 7);
        }
    }
    let ghost at1 = header_fields(*headers);
    match insert_header(headers, USER_AGENT, USER_AGENT_VALUE.as_bytes()) {
        Ok(_) => {},
        Err(e) => {
            return Err(e);
        },
    }
    proof {
        if room {
            lemma_room_after_insert(at1, USER_AGENT@, seq![USER_AGENT_VALUE.spec_bytes()], 6);
        }
    }
    let ghost at2 = header_fields(*headers);
    match insert_header(headers, ACCEPT, ACCEPT_VALUE.as_bytes()) {
        Ok(_) => {},
        Err(e) => {
            return Err(e);
        },
    }
    proof {
        if room {
            lemma_room_after_insert(at2, ACCEPT@, seq![ACCEPT_VALUE.spec_bytes()], 5);
        }
    }
    let ghost at3 = header_fields(*headers);
    match insert_header(headers, SEC_FETCH_SITE, SEC_FETCH_SITE_VALUE.as_bytes()) {
        Ok(_) => {},
        Err(e) => {
            return Err(e);
        },
    }
    proof {
        if room {
            lemma_room_after_insert(at3, SEC_FETCH_SITE@, seq![SEC_FETCH_SITE_VALUE.spec_bytes()], 4);
        }
    }
    let ghost at4 = header_fields(*headers);
    match insert_header(headers, SEC_FETCH_MODE, SEC_FETCH_MODE_VALUE.as_bytes()) {
        Ok(_) => {},
        Err(e) => {
            return Err(e);
        },
    }
    proof {
        if room {
            lemma_room_after_insert(at4, SEC_FETCH_MODE@, seq![SEC_FETCH_MODE_VALUE.spec_bytes()], 3);
        }
    }
    let ghost at5 = header_fields(*headers);
    match insert_header(headers, ACCEPT_LANGUAGE, ACCEPT_LANGUAGE_VALUE.as_bytes()) {
        Ok(_) => {},
        Err(e) => {
            return Err(e);
        },
    }
    proof {
        if room {
            lemma_room_after_insert(at5, ACCEPT_LANGUAGE@, seq![ACCEPT_LANGUAGE_VALUE.spec_bytes()], 2);
        }
    }
    let ghost at6 = header_fields(*headers);
    match insert_header(headers, PRIORITY, PRIORITY_VALUE.as_bytes()) {
        Ok(_) => {},
        Err(e) => {
            return Err(e);
        },
    }
    proof {
        if room {
            lemma_room_after_insert(at6, PRIORITY@, seq![PRIORITY_VALUE.spec_bytes()], 1);
        }
    }
    let ghost at7 = header_fields(*headers);
    match insert_header(headers, ACCEPT_ENCODING, ACCEPT_ENCODING_VALUE.as_bytes()) {
        Ok(_) => {},
        Err(e) => {
            return Err(e);
        },
    }
    proof {
        if room {
            lemma_room_after_insert(at7, ACCEPT_ENCODING@, seq![ACCEPT_ENCODING_VALUE.spec_bytes()], 0);
        }
    }
    Ok(())
}

/// The HTTP/2 settings of Safari 18, with the priority and the orders that
/// `settings` names.
pub open spec fn http2_settings(settings: ImpersonateConfig) -> Http2Settings {
    Http2Settings {
        initial_stream_window_size: Some(2097152u32),
        initial_connection_window_size: Some(10485760u32),
        max_concurrent_streams: Some(100u32),
        enable_push: Some(false),
        unknown_setting8: Some(true),
        unknown_setting9: Some(true),
        headers_priority: settings.http2_headers_priority,
        headers_pseudo_order: settings.http2_headers_pseudo_order,
        settings_order: settings.http2_settings_order,
        ..Http2Settings::unset()
    }
}

/// The settings of Safari 18: the TLS settings that `settings` carries,
/// the build's HTTP/2 settings and its headers.
///
/// A new header map always has room for the headers.
pub fn get_settings(settings: ImpersonateConfig) -> (result: ImpersonateSettings)
    ensures
        result.tls == settings.tls,
        result.http2 == http2_settings(settings),
        result.headers matches Some(h) && header_fields(h) == with_headers(no_fields()),
{
    let mut headers = new_headers();
    let done = header_initializer(&mut headers);
    done.unwrap();
    let mut http2 = Http2Settings::default();
    http2.initial_stream_window_size = Some(2097152);
    http2.initial_connection_window_size = Some(10485760);
    http2.max_concurrent_streams = Some(100);
    http2.enable_push = Some(false);
    http2.unknown_setting8 = Some(true);
    http2.unknown_setting9 = Some(true);
    http2.headers_priority = settings.http2_headers_priority;
    http2.headers_pseudo_order = settings.http2_headers_pseudo_order;
    http2.settings_order = settings.http2_settings_order;
    ImpersonateSettings { tls: settings.tls, http2, headers: Some(headers) }
}

/// The values of the headers are header values.
pub proof fn lemma_values()
    ensures
        crate::header::is_header_value(SEC_FETCH_DEST_VALUE.spec_bytes()),
        crate::header::is_header_value(USER_AGENT_VALUE.spec_bytes()),
        crate::header::is_header_value(ACCEPT_VALUE.spec_bytes()),
        crate::header::is_header_value(SEC_FETCH_SITE_VALUE.spec_bytes()),
        crate::header::is_header_value(SEC_FETCH_MODE_VALUE.spec_bytes()),
        crate::header::is_header_value(ACCEPT_LANGUAGE_VALUE.spec_bytes()),
        crate::header::is_header_value(PRIORITY_VALUE.spec_bytes()),
        crate::header::is_header_value(ACCEPT_ENCODING_VALUE.spec_bytes()),
{
    reveal_strlit("document");
    crate::header::lemma_printable_is_header_value(SEC_FETCH_DEST_VALUE);
    reveal_strlit("Mozilla/5.0 (Macintosh; Intel Mac OS X 10_15_7) AppleWebKit/605.1.15 (KHTML, like Gecko) Version/18.0 Safari/605.1.15");
    crate::header::lemma_printable_is_header_value(USER_AGENT_VALUE);
    reveal_strlit("text/html,application/xhtml+xml,application/xml;q=0.9,*/*;q=0.8");
    crate::header::lemma_printable_is_header_value(ACCEPT_VALUE);
    reveal_strlit("none");
    crate::header::lemma_printable_is_header_value(SEC_FETCH_SITE_VALUE);
    reveal_strlit("navigate");
    crate::header::lemma_printable_is_header_value(SEC_FETCH_MODE_VALUE);
    reveal_strlit("en-US,en;q=0.9");
    crate::header::lemma_printable_is_header_value(ACCEPT_LANGUAGE_VALUE);
    reveal_strlit("u=0, i");
    crate::header::lemma_printable_is_header_value(PRIORITY_VALUE);
    reveal_strlit("gzip, deflate, br");
    crate::header::lemma_printable_is_header_value(ACCEPT_ENCODING_VALUE);
}

} // verus!
