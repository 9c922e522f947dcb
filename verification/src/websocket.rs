//! The WebSocket upgrade.
//!
//! A WebSocket connection begins as an HTTP/1.1 request that asks for the
//! upgrade and names a random key. The server agrees with status 101 and
//! the accept token that belongs to the key.

use vstd::prelude::*;
use vstd::string::StringSliceAdditionalSpecFns;
use crate::client::request::Request;
use crate::error::Cause;
use crate::error::Error;
use crate::error::ErrorView;
use crate::error::Kind;
use crate::header::first_value;
use crate::header::field_values;
use crate::header::has_room;
use crate::header::header_fields;
use crate::header::lemma_room_after_insert;
use crate::header::headers_full;
use crate::header::insert_header;
use crate::header::lemma_known_names;
use crate::header::CONNECTION;
use crate::header::SEC_WEBSOCKET_ACCEPT;
use crate::header::SEC_WEBSOCKET_KEY;
use crate::header::SEC_WEBSOCKET_VERSION;
use crate::header::UPGRADE;
use crate::method::Version;
use crate::proxy::base64;
use crate::proxy::base64_encode;
use crate::status::StatusCode;
use crate::text::bytes_eq;

verus! {

/// The header fields of a request after it was made to ask for the
/// upgrade with the key `key`.
pub open spec fn upgrade_fields(fields: Map<Seq<char>, Seq<Seq<u8>>>, key: Seq<u8>) -> Map<
    Seq<char>,
    Seq<Seq<u8>>,
> {
    fields.insert(CONNECTION@, seq!["upgrade".spec_bytes()]).insert(
        UPGRADE@,
        seq!["websocket".spec_bytes()],
    ).insert(SEC_WEBSOCKET_KEY@, seq![base64(key)]).insert(
        SEC_WEBSOCKET_VERSION@,
        seq!["13".spec_bytes()],
    )
}

/// Makes `request` ask for the upgrade: it is sent over HTTP/1.1 and
/// carries `Connection: upgrade`, `Upgrade: websocket`, the key in Base64
/// and version 13.
///
/// Fails only when the header map is too full, and never where it has
/// room for the four headers.
pub fn upgrade_request(request: Request, key: &[u8]) -> (result: Result<Request, Error>)
    ensures
        result matches Ok(r) ==> r == (Request {
            version: Some(Version::Http11),
            headers: r.headers,
            ..request
        }) && header_fields(r.headers) == upgrade_fields(header_fields(request.headers), key@),
        result matches Err(e) ==> e@ == headers_full(),
        has_room(header_fields(request.headers), 4) ==> result is Ok,
{
    let mut request = request;
    proof {
        lemma_known_names();
        lemma_upgrade_values();
        crate::proxy::lemma_base64_is_header_value(key@);
    }
    let ghost room = has_room(header_fields(request.headers), 4);
    request.version = Some(Version::Http11);
    let ghost at0 = header_fields(request.headers);
    match insert_header(&mut request.headers, CONNECTION, "upgrade".as_bytes()) {
        Ok(_) => {},
        Err(e) => {
            return Err(e);
        },
    }
    proof {
        if room {
            lemma_room_after_insert(
                at0,
                CONNECTION@,
                field_values(request.headers, CONNECTION@),
                3,
            );
        }
    }
    let ghost at1 = header_fields(request.headers);
    match insert_header(&mut request.headers, UPGRADE, "websocket".as_bytes()) {
        Ok(_) => {},
        Err(e) => {
            return Err(e);
        },
    }
    proof {
        if room {
            lemma_room_after_insert(
                at1,
                UPGRADE@,
                field_values(request.headers, UPGRADE@),
                2,
            );
        }
    }
    let encoded = base64_encode(key);
    let ghost at2 = header_fields(request.headers);
    match insert_header(&mut request.headers, SEC_WEBSOCKET_KEY, encoded.as_slice()) {
        Ok(_) => {},
        Err(e) => {
            return Err(e);
        },
    }
    proof {
        if room {
            lemma_room_after_insert(
                at2,
                SEC_WEBSOCKET_KEY@,
                field_values(request.headers, SEC_WEBSOCKET_KEY@),
                1,
            );
        }
    }
    let ghost at3 = header_fields(request.headers);
    match insert_header(&mut request.headers, SEC_WEBSOCKET_VERSION, "13".as_bytes()) {
        Ok(_) => {},
        Err(e) => {
            return Err(e);
        },
    }
    proof {
        if room {
            lemma_room_after_insert(
                at3,
                SEC_WEBSOCKET_VERSION@,
                field_values(request.headers, SEC_WEBSOCKET_VERSION@),
                0,
            );
        }
    }
    Ok(request)
}

/// The fixed values of the upgrade are header values.
pub proof fn lemma_upgrade_values()
    ensures
        crate::header::is_header_value("upgrade".spec_bytes()),
        crate::header::is_header_value("websocket".spec_bytes()),
        crate::header::is_header_value("13".spec_bytes()),
{
    reveal_strlit("upgrade");
    reveal_strlit("websocket");
    reveal_strlit("13");
    crate::header::lemma_printable_is_header_value("upgrade");
    crate::header::lemma_printable_is_header_value("websocket");
    crate::header::lemma_printable_is_header_value("13");
}

/// Whether a response agrees to the upgrade: its status is 101 and its
/// first `Sec-WebSocket-Accept` value is the expected token.
pub open spec fn agrees(status: StatusCode, fields: Map<Seq<char>, Seq<Seq<u8>>>, accept: Seq<u8>)
    -> bool {
    status.0 == 101 && fields.dom().contains(SEC_WEBSOCKET_ACCEPT@) && fields[SEC_WEBSOCKET_ACCEPT@].len()
        > 0 && fields[SEC_WEBSOCKET_ACCEPT@][0] == accept
}

/// The error for a response that does not agree to the upgrade.
pub open spec fn upgrade_refused() -> ErrorView {
    ErrorView { kind: Kind::Upgrade, cause: Cause::Unspecified, url: None, target: None }
}

/// Checks that a response agrees to the upgrade; `accept` is the token
/// that belongs to the key of the request.
pub fn check_upgrade(status: StatusCode, headers: &http::HeaderMap, accept: &[u8]) -> (result:
    Result<(), Error>)
    ensures
        result is Ok == agrees(status, header_fields(*headers), accept@),
        result matches Err(e) ==> e@ == upgrade_refused(),
{
    proof {
        lemma_known_names();
    }
    if status.as_u16() != 101 {
        return Err(Error::new(Kind::Upgrade, Cause::Unspecified));
    }
    match first_value(headers, SEC_WEBSOCKET_ACCEPT) {
        Some(value) => {
            if bytes_eq(value.as_slice(), accept) {
                Ok(())
            } else {
                Err(Error::new(Kind::Upgrade, Cause::Unspecified))
            }
        },
        None => Err(Error::new(Kind::Upgrade, Cause::Unspecified)),
    }
}

} // verus!
