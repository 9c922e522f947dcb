//! Header maps.
//!
//! The engine keeps request and response headers in `http::HeaderMap`. Verus
//! cannot look inside that type, so this module names what a map holds
//! ([`header_fields`]) and gives each map operation the engine uses a contract
//! over that name. Header names travel as lower-case strings and header values
//! as byte strings; the predicates [`is_header_name`] and [`is_header_value`]
//! say which of them a map accepts.

use vstd::prelude::*;
use vstd::string::StringSliceAdditionalSpecFns;
use crate::error::Cause;
use crate::error::Error;
use crate::error::ErrorView;
use crate::error::Kind;

verus! {

#[verifier::external_type_specification]
#[verifier::external_body]
#[verifier::reject_recursive_types(T)]
pub struct ExHeaderMap<T>(http::HeaderMap<T>);

#[verifier::external_type_specification]
#[verifier::external_body]
pub struct ExHeaderValue(http::HeaderValue);

#[verifier::external_type_specification]
#[verifier::external_body]
pub struct ExMaxSizeReached(http::header::MaxSizeReached);

pub const ACCEPT: &'static str = "accept";

pub const ACCEPT_ENCODING: &'static str = "accept-encoding";

pub const ACCEPT_LANGUAGE: &'static str = "accept-language";

pub const AUTHORIZATION: &'static str = "authorization";

pub const CONTENT_ENCODING: &'static str = "content-encoding";

pub const CONTENT_LENGTH: &'static str = "content-length";

pub const CONTENT_TYPE: &'static str = "content-type";

pub const COOKIE: &'static str = "cookie";

pub const COOKIE2: &'static str = "cookie2";

pub const LOCATION: &'static str = "location";

pub const PROXY_AUTHORIZATION: &'static str = "proxy-authorization";

pub const RANGE: &'static str = "range";

pub const REFERER: &'static str = "referer";

pub const SET_COOKIE: &'static str = "set-cookie";

pub const TRANSFER_ENCODING: &'static str = "transfer-encoding";

pub const USER_AGENT: &'static str = "user-agent";

pub const WWW_AUTHENTICATE: &'static str = "www-authenticate";

pub const DNT: &'static str = "dnt";

pub const PRIORITY: &'static str = "priority";

pub const SEC_CH_UA: &'static str = "sec-ch-ua";

pub const SEC_CH_UA_MOBILE: &'static str = "sec-ch-ua-mobile";

pub const SEC_CH_UA_PLATFORM: &'static str = "sec-ch-ua-platform";

pub const SEC_FETCH_DEST: &'static str = "sec-fetch-dest";

pub const SEC_FETCH_MODE: &'static str = "sec-fetch-mode";

pub const SEC_FETCH_SITE: &'static str = "sec-fetch-site";

pub const SEC_FETCH_USER: &'static str = "sec-fetch-user";

pub const UPGRADE_INSECURE_REQUESTS: &'static str = "upgrade-insecure-requests";

pub const CONNECTION: &'static str = "connection";

pub const SEC_WEBSOCKET_ACCEPT: &'static str = "sec-websocket-accept";

pub const SEC_WEBSOCKET_KEY: &'static str = "sec-websocket-key";

pub const SEC_WEBSOCKET_VERSION: &'static str = "sec-websocket-version";

pub const UPGRADE: &'static str = "upgrade";

/// The longest header name a map accepts.
pub const MAX_HEADER_NAME_LEN: usize = 65535;

/// Whether `c` may stand in the name of a field that a header map holds: a
/// lower-case letter, a digit, one of the token punctuation characters, or
/// the double quote, which the map admits in names made in lower case.
pub open spec fn is_name_char(c: char) -> bool {
    ||| 'a' <= c <= 'z'
    ||| '0' <= c <= '9'
    ||| c == '!'
    ||| c == '"'
    ||| c == '#'
    ||| c == '$'
    ||| c == '%'
    ||| c == '&'
    ||| c == '\''
    ||| c == '*'
    ||| c == '+'
    ||| c == '-'
    ||| c == '.'
    ||| c == '^'
    ||| c == '_'
    ||| c == '`'
    ||| c == '|'
    ||| c == '~'
}

/// Whether `name` is a header name in normal form: not empty, not longer than
/// [`MAX_HEADER_NAME_LEN`], and made of name characters only.
pub open spec fn is_header_name(name: Seq<char>) -> bool {
    &&& 0 < name.len() <= MAX_HEADER_NAME_LEN
    &&& forall|i: int| 0 <= i < name.len() ==> is_name_char(#[trigger] name[i])
}

/// Whether `b` may stand in a header value: a horizontal tab, or any byte from
/// 32 upwards but 127.
pub open spec fn is_value_byte(b: u8) -> bool {
    (b >= 32 && b != 127) || b == 9
}

/// Whether `value` is acceptable as a header value.
pub open spec fn is_header_value(value: Seq<u8>) -> bool {
    forall|i: int| 0 <= i < value.len() ==> is_value_byte(#[trigger] value[i])
}

/// Whether every value of `values` is acceptable as a header value.
pub open spec fn all_header_values(values: Seq<Seq<u8>>) -> bool {
    forall|i: int| 0 <= i < values.len() ==> is_header_value(#[trigger] values[i])
}

/// The bytes of each value in `values`.
pub open spec fn value_bytes(values: Seq<Vec<u8>>) -> Seq<Seq<u8>> {
    values.map_values(|v: Vec<u8>| v@)
}

/// What a header map holds: for each header name present, its values in the
/// order in which they were added.
pub uninterp spec fn header_fields(headers: http::HeaderMap) -> Map<Seq<char>, Seq<Seq<u8>>>;

/// Whether a header map holds `count` names.
pub open spec fn holds_names(headers: http::HeaderMap, count: nat) -> bool {
    header_fields(headers).dom().finite() && header_fields(headers).dom().len() == count
}

/// The fields of a map that holds nothing.
pub open spec fn no_fields() -> Map<Seq<char>, Seq<Seq<u8>>> {
    Map::empty()
}

/// The values stored under `name`, none if the name is absent.
pub open spec fn field_values(headers: http::HeaderMap, name: Seq<char>) -> Seq<Seq<u8>> {
    if header_fields(headers).dom().contains(name) {
        header_fields(headers)[name]
    } else {
        Seq::empty()
    }
}

/// Whether `name` is present in `map`.
pub open spec fn has_field(headers: http::HeaderMap, name: Seq<char>) -> bool {
    header_fields(headers).dom().contains(name)
}

/// Whether a header map is so full that it cannot take another field. This
/// rests on what the map holds and on how it came to hold it.
pub uninterp spec fn header_map_full(headers: http::HeaderMap) -> bool;

/// The number of names that a header map that is too full holds at least.
pub const FULL_NAMES: usize = 6554;

/// Whether a map with these fields has room for `more` names: it holds so
/// few names that it is not too full, and is not after `more` names were
/// added.
pub open spec fn has_room(fields: Map<Seq<char>, Seq<Seq<u8>>>, more: nat) -> bool {
    fields.dom().finite() && fields.dom().len() + more < FULL_NAMES
}

/// A map that has room for names has room afterwards for one name less.
pub proof fn lemma_room_after_insert(
    fields: Map<Seq<char>, Seq<Seq<u8>>>,
    name: Seq<char>,
    values: Seq<Seq<u8>>,
    more: nat,
)
    requires
        has_room(fields, more + 1),
    ensures
        has_room(fields.insert(name, values), more),
        has_room(fields, more),
{
    assert(fields.insert(name, values).dom() =~= fields.dom().insert(name));
}

/// Whether the fields `after` hold at most `more` names more than the
/// fields `before`, where those are finitely many.
pub open spec fn grows_by(
    before: Map<Seq<char>, Seq<Seq<u8>>>,
    after: Map<Seq<char>, Seq<Seq<u8>>>,
    more: nat,
) -> bool {
    before.dom().finite() ==> after.dom().finite() && after.dom().len() <= before.dom().len() + more
}

/// A field more is at most one name more.
pub proof fn lemma_grows_by_insert(
    fields: Map<Seq<char>, Seq<Seq<u8>>>,
    name: Seq<char>,
    values: Seq<Seq<u8>>,
)
    ensures
        grows_by(fields, fields.insert(name, values), 1),
        grows_by(fields, fields.remove(name), 0),
{
    assert(fields.insert(name, values).dom() =~= fields.dom().insert(name));
    assert(fields.remove(name).dom() =~= fields.dom().remove(name));
}

/// Fields that differ from others under one name only hold at most that
/// name more.
pub proof fn lemma_append_grows(
    before: Map<Seq<char>, Seq<Seq<u8>>>,
    after: Map<Seq<char>, Seq<Seq<u8>>>,
    name: Seq<char>,
)
    requires
        after.remove(name) == before.remove(name),
    ensures
        grows_by(before, after, 1),
{
    if before.dom().finite() {
        assert(after.remove(name).dom() =~= after.dom().remove(name));
        assert(before.remove(name).dom() =~= before.dom().remove(name));
        assert(after.dom().remove(name) == before.dom().remove(name));
        assert forall|n: Seq<char>| after.dom().contains(n) implies before.dom().insert(
            name,
        ).contains(n) by {
            if n != name {
                assert(after.dom().remove(name).contains(n));
                assert(before.dom().remove(name).contains(n));
            }
        }
        assert(after.dom().subset_of(before.dom().insert(name)));
        vstd::set_lib::lemma_len_subset(after.dom(), before.dom().insert(name));
    }
}

/// A map that has room for names has as much room without one of its
/// fields.
pub proof fn lemma_room_after_remove(
    fields: Map<Seq<char>, Seq<Seq<u8>>>,
    name: Seq<char>,
    more: nat,
)
    requires
        has_room(fields, more),
    ensures
        has_room(fields.remove(name), more),
{
    assert(fields.remove(name).dom() =~= fields.dom().remove(name));
}

/// Checks that `value` is acceptable as a header value.
pub fn valid_header_value(value: &[u8]) -> (ok: bool)
    ensures
        ok == is_header_value(value@),
{
    let mut i: usize = 0;
    while i < value.len()
        invariant
            i <= value.len(),
            forall|j: int| 0 <= j < i ==> is_value_byte(#[trigger] value@[j]),
        decreases value.len() - i,
    {
        let b = value[i];
        if !((b >= 32 && b != 127) || b == 9) {
            return false;
        }
        i += 1;
    }
    true
}

/// `HeaderMap::new`: a map without fields.
#[verifier::external_body]
pub(crate) fn map_new() -> (headers: http::HeaderMap)
    ensures
        header_fields(headers) == no_fields(),
{
    http::HeaderMap::new()
}

/// `HeaderMap::clone`: a map with the same fields.
#[verifier::external_body]
pub(crate) fn map_clone(headers: &http::HeaderMap) -> (copy: http::HeaderMap)
    ensures
        header_fields(copy) == header_fields(*headers),
{
    headers.clone()
}

/// `HeaderMap::contains_key`: whether a value is stored under `name`.
#[verifier::external_body]
pub(crate) fn map_contains_key(headers: &http::HeaderMap, name: &str) -> (found: bool)
    requires
        is_header_name(name@),
    ensures
        found == has_field(*headers, name@),
{
    headers.contains_key(http::HeaderName::from_lowercase(name.as_bytes()).unwrap())
}

/// `HeaderMap::get`: the first value stored under `name`.
#[verifier::external_body]
pub(crate) fn map_get(headers: &http::HeaderMap, name: &str) -> (first: Option<Vec<u8>>)
    requires
        is_header_name(name@),
    ensures
        first is Some == has_field(*headers, name@),
        first matches Some(v) ==> field_values(*headers, name@).len() > 0 && v@ == field_values(
            *headers,
            name@,
        )[0],
{
    let name = http::HeaderName::from_lowercase(name.as_bytes()).unwrap();
    headers.get(name).map(|v| v.as_bytes().to_vec())
}

/// `HeaderMap::get_all`: every value stored under `name`, in the order in
/// which they were added. Each of them is acceptable as a header value, and a
/// name that is present has at least one.
#[verifier::external_body]
pub(crate) fn map_get_all(headers: &http::HeaderMap, name: &str) -> (values: Vec<Vec<u8>>)
    requires
        is_header_name(name@),
    ensures
        value_bytes(values@) == field_values(*headers, name@),
        all_header_values(value_bytes(values@)),
        has_field(*headers, name@) ==> values.len() > 0,
{
    let name = http::HeaderName::from_lowercase(name.as_bytes()).unwrap();
    headers.get_all(name).iter().map(|v| v.as_bytes().to_vec()).collect()
}

/// `HeaderMap::keys`: each name present, once, in no stated order, so that
/// there are as many as the map holds names. Each of them is a name as
/// `HeaderName::from_lowercase` admits it, which every way of making a
/// name keeps to.
#[verifier::external_body]
pub(crate) fn map_keys(headers: &http::HeaderMap) -> (names: Vec<String>)
    ensures
        holds_names(*headers, names.len() as nat),
        forall|i: int| 0 <= i < names.len() ==> has_field(*headers, #[trigger] names[i]@),
        forall|i: int| 0 <= i < names.len() ==> is_header_name(#[trigger] names[i]@),
        forall|n: Seq<char>| #[trigger]
            has_field(*headers, n) ==> exists|i: int| 0 <= i < names.len() && names[i]@ == n,
        forall|i: int, j: int|
            0 <= i < j < names.len() ==> (#[trigger] names[i])@ != (#[trigger] names[j])@,
{
    headers.keys().map(|k| k.as_str().to_owned()).collect()
}

/// `HeaderMap::try_insert`: on success `value` becomes the only value under
/// `name`; it fails exactly when the map is too full, whatever the name,
/// and the fields are then as they were. A map is too full only where it
/// cannot grow to twice its size, which takes 6554 names at least.
#[verifier::external_body]
pub(crate) fn map_try_insert(headers: &mut http::HeaderMap, name: &str, value: &[u8]) -> (done: Result<
    (),
    http::header::MaxSizeReached,
>)
    requires
        is_header_name(name@),
        is_header_value(value@),
    ensures
        done is Ok ==> header_fields(*final(headers)) == header_fields(*old(headers)).insert(
            name@,
            seq![value@],
        ),
        done is Err ==> header_fields(*final(headers)) == header_fields(*old(headers)),
        done is Err == header_map_full(*old(headers)),
        done is Err ==> !has_room(header_fields(*old(headers)), 0),
{
    let name = http::HeaderName::from_lowercase(name.as_bytes()).unwrap();
    let value = http::HeaderValue::from_bytes(value).unwrap();
    headers.try_insert(name, value).map(|_| ())
}

/// `HeaderMap::try_append`: on success `value` is added behind the values
/// already stored under `name`; it fails exactly when the map is too full,
/// whatever the name, and the fields are then as they were.
#[verifier::external_body]
pub(crate) fn map_try_append(headers: &mut http::HeaderMap, name: &str, value: &[u8]) -> (done: Result<
    (),
    http::header::MaxSizeReached,
>)
    requires
        is_header_name(name@),
        is_header_value(value@),
    ensures
        done is Ok ==> header_fields(*final(headers)) == header_fields(*old(headers)).insert(
            name@,
            field_values(*old(headers), name@).push(value@),
        ),
        done is Err ==> header_fields(*final(headers)) == header_fields(*old(headers)),
        done is Err == header_map_full(*old(headers)),
        done is Err ==> !has_room(header_fields(*old(headers)), 0),
{
    let name = http::HeaderName::from_lowercase(name.as_bytes()).unwrap();
    let value = http::HeaderValue::from_bytes(value).unwrap();
    headers.try_append(name, value).map(|_| ())
}

/// `HeaderMap::remove`: afterwards nothing is stored under `name`, and the
/// other fields are as before.
#[verifier::external_body]
pub(crate) fn map_remove(headers: &mut http::HeaderMap, name: &str)
    requires
        is_header_name(name@),
    ensures
        header_fields(*final(headers)) == header_fields(*old(headers)).remove(name@),
{
    headers.remove(http::HeaderName::from_lowercase(name.as_bytes()).unwrap());
}


/// The names this crate refers to are header names in normal form.
pub proof fn lemma_known_names()
    ensures
        is_header_name(ACCEPT@),
        is_header_name(ACCEPT_ENCODING@),
        is_header_name(ACCEPT_LANGUAGE@),
        is_header_name(AUTHORIZATION@),
        is_header_name(CONTENT_ENCODING@),
        is_header_name(CONTENT_LENGTH@),
        is_header_name(CONTENT_TYPE@),
        is_header_name(COOKIE@),
        is_header_name(COOKIE2@),
        is_header_name(LOCATION@),
        is_header_name(PROXY_AUTHORIZATION@),
        is_header_name(RANGE@),
        is_header_name(REFERER@),
        is_header_name(SET_COOKIE@),
        is_header_name(TRANSFER_ENCODING@),
        is_header_name(USER_AGENT@),
        is_header_name(WWW_AUTHENTICATE@),
        is_header_name(CONNECTION@),
        is_header_name(SEC_WEBSOCKET_ACCEPT@),
        is_header_name(SEC_WEBSOCKET_KEY@),
        is_header_name(SEC_WEBSOCKET_VERSION@),
        is_header_name(UPGRADE@),
        is_header_name(DNT@),
        is_header_name(PRIORITY@),
        is_header_name(SEC_CH_UA@),
        is_header_name(SEC_CH_UA_MOBILE@),
        is_header_name(SEC_CH_UA_PLATFORM@),
        is_header_name(SEC_FETCH_DEST@),
        is_header_name(SEC_FETCH_MODE@),
        is_header_name(SEC_FETCH_SITE@),
        is_header_name(SEC_FETCH_USER@),
        is_header_name(UPGRADE_INSECURE_REQUESTS@),
{
    reveal_strlit("accept");
    reveal_strlit("accept-encoding");
    reveal_strlit("accept-language");
    reveal_strlit("authorization");
    reveal_strlit("content-encoding");
    reveal_strlit("content-length");
    reveal_strlit("content-type");
    reveal_strlit("cookie");
    reveal_strlit("cookie2");
    reveal_strlit("location");
    reveal_strlit("proxy-authorization");
    reveal_strlit("range");
    reveal_strlit("referer");
    reveal_strlit("set-cookie");
    reveal_strlit("transfer-encoding");
    reveal_strlit("user-agent");
    reveal_strlit("www-authenticate");
    reveal_strlit("connection");
    reveal_strlit("sec-websocket-accept");
    reveal_strlit("sec-websocket-key");
    reveal_strlit("sec-websocket-version");
    reveal_strlit("upgrade");
    reveal_strlit("dnt");
    reveal_strlit("priority");
    reveal_strlit("sec-ch-ua");
    reveal_strlit("sec-ch-ua-mobile");
    reveal_strlit("sec-ch-ua-platform");
    reveal_strlit("sec-fetch-dest");
    reveal_strlit("sec-fetch-mode");
    reveal_strlit("sec-fetch-site");
    reveal_strlit("sec-fetch-user");
    reveal_strlit("upgrade-insecure-requests");
}

/// The error reported when a header map cannot take another field.
pub open spec fn headers_full() -> ErrorView {
    ErrorView { kind: Kind::Builder, cause: Cause::HeadersFull, url: None, target: None }
}

/// The error reported for a header value that holds a forbidden byte.
pub open spec fn invalid_value() -> ErrorView {
    ErrorView { kind: Kind::Builder, cause: Cause::InvalidHeaderValue, url: None, target: None }
}

/// A header map without fields.
pub fn new_headers() -> (headers: http::HeaderMap)
    ensures
        header_fields(headers) == no_fields(),
{
    map_new()
}

/// A header map with the same fields.
pub fn copy_headers(headers: &http::HeaderMap) -> (copy: http::HeaderMap)
    ensures
        header_fields(copy) == header_fields(*headers),
{
    map_clone(headers)
}

/// Whether a value is stored under `name`.
pub fn contains_header(headers: &http::HeaderMap, name: &str) -> (found: bool)
    requires
        is_header_name(name@),
    ensures
        found == has_field(*headers, name@),
{
    map_contains_key(headers, name)
}

/// The first value stored under `name`.
pub fn first_value(headers: &http::HeaderMap, name: &str) -> (first: Option<Vec<u8>>)
    requires
        is_header_name(name@),
    ensures
        first is Some == has_field(*headers, name@),
        first matches Some(v) ==> field_values(*headers, name@).len() > 0 && v@ == field_values(
            *headers,
            name@,
        )[0],
{
    map_get(headers, name)
}

/// Every value stored under `name`, in the order in which they were added.
pub fn all_values(headers: &http::HeaderMap, name: &str) -> (values: Vec<Vec<u8>>)
    requires
        is_header_name(name@),
    ensures
        value_bytes(values@) == field_values(*headers, name@),
        all_header_values(value_bytes(values@)),
        has_field(*headers, name@) ==> values.len() > 0,
{
    map_get_all(headers, name)
}

/// Removes whatever is stored under `name`.
pub fn remove_header(headers: &mut http::HeaderMap, name: &str)
    requires
        is_header_name(name@),
    ensures
        header_fields(*final(headers)) == header_fields(*old(headers)).remove(name@),
{
    map_remove(headers, name)
}

/// Makes `value` the only value under `name`.
///
/// Fails, leaving the map as it was, exactly when `value` holds a byte that
/// no header value may hold or the map is too full; a map that has room
/// never is.
pub fn insert_header(headers: &mut http::HeaderMap, name: &str, value: &[u8]) -> (done: Result<
    (),
    Error,
>)
    requires
        is_header_name(name@),
    ensures
        done is Ok ==> is_header_value(value@) && header_fields(*final(headers)) == header_fields(
            *old(headers),
        ).insert(name@, seq![value@]),
        done is Err ==> header_fields(*final(headers)) == header_fields(*old(headers)),
        done matches Err(e) ==> (if is_header_value(value@) {
            e@ == headers_full()
        } else {
            e@ == invalid_value()
        }),
        done is Err == (!is_header_value(value@) || header_map_full(*old(headers))),
        is_header_value(value@) && has_room(header_fields(*old(headers)), 0) ==> done is Ok,
{
    if !valid_header_value(value) {
        return Err(Error::builder(Cause::InvalidHeaderValue));
    }
    match map_try_insert(headers, name, value) {
        Ok(_) => Ok(()),
        Err(_) => Err(Error::builder(Cause::HeadersFull)),
    }
}

/// Adds `value` behind the values already stored under `name`.
///
/// Fails, leaving the map as it was, exactly when `value` holds a byte that
/// no header value may hold or the map is too full; a map that has room
/// never is.
pub fn append_header(headers: &mut http::HeaderMap, name: &str, value: &[u8]) -> (done: Result<
    (),
    Error,
>)
    requires
        is_header_name(name@),
    ensures
        done is Ok ==> is_header_value(value@) && header_fields(*final(headers)) == header_fields(
            *old(headers),
        ).insert(name@, field_values(*old(headers), name@).push(value@)),
        done is Err ==> header_fields(*final(headers)) == header_fields(*old(headers)),
        done matches Err(e) ==> (if is_header_value(value@) {
            e@ == headers_full()
        } else {
            e@ == invalid_value()
        }),
        done is Err == (!is_header_value(value@) || header_map_full(*old(headers))),
        is_header_value(value@) && has_room(header_fields(*old(headers)), 0) ==> done is Ok,
{
    if !valid_header_value(value) {
        return Err(Error::builder(Cause::InvalidHeaderValue));
    }
    match map_try_append(headers, name, value) {
        Ok(_) => Ok(()),
        Err(_) => Err(Error::builder(Cause::HeadersFull)),
    }
}

/// The names present in `headers`, each once, in no stated order.
pub fn header_names(headers: &http::HeaderMap) -> (names: Vec<String>)
    ensures
        forall|i: int| 0 <= i < names.len() ==> has_field(*headers, #[trigger] names[i]@),
        forall|i: int| 0 <= i < names.len() ==> is_header_name(#[trigger] names[i]@),
        forall|n: Seq<char>| #[trigger]
            has_field(*headers, n) ==> exists|i: int| 0 <= i < names.len() && names[i]@ == n,
        forall|i: int, j: int|
            0 <= i < j < names.len() ==> (#[trigger] names[i])@ != (#[trigger] names[j])@,
{
    map_keys(headers)
}

/// The fields of `base` together with those fields of `defaults` whose name
/// `base` does not hold.
pub open spec fn with_defaults(
    base: Map<Seq<char>, Seq<Seq<u8>>>,
    defaults: Map<Seq<char>, Seq<Seq<u8>>>,
) -> Map<Seq<char>, Seq<Seq<u8>>> {
    defaults.union_prefer_right(base)
}

/// The fields after `values` were added, in order, behind the values
/// stored under `name`: unchanged where there is nothing to add.
pub open spec fn with_appended(
    fields: Map<Seq<char>, Seq<Seq<u8>>>,
    name: Seq<char>,
    values: Seq<Seq<u8>>,
) -> Map<Seq<char>, Seq<Seq<u8>>> {
    if values.len() == 0 {
        fields
    } else {
        let held = if fields.dom().contains(name) {
            fields[name]
        } else {
            Seq::empty()
        };
        fields.insert(name, held + values)
    }
}

/// Adds each of `values`, in order, behind the values already stored under
/// `name`.
///
/// Fails only when the map is too full, never where there is nothing to
/// add, and never where the map has room for one name. The values before
/// the one that found no room are added even then, and the fields under
/// other names stay as they were.
pub fn append_values(headers: &mut http::HeaderMap, name: &str, values: &Vec<Vec<u8>>) -> (done:
    Result<(), Error>)
    requires
        is_header_name(name@),
        all_header_values(value_bytes(values@)),
    ensures
        values.len() == 0 ==> done is Ok,
        done is Ok ==> header_fields(*final(headers)) == with_appended(
            header_fields(*old(headers)),
            name@,
            value_bytes(values@),
        ),
        done matches Err(e) ==> e@ == headers_full() && exists|k: int|
            0 <= k < values.len() && header_fields(*final(headers)) == #[trigger] with_appended(
                header_fields(*old(headers)),
                name@,
                value_bytes(values@).subrange(0, k),
            ),
        header_fields(*final(headers)).remove(name@) == header_fields(*old(headers)).remove(name@),
        has_room(header_fields(*old(headers)), 1) ==> done is Ok,
{
    let ghost start = header_fields(*headers);
    let ghost held = field_values(*headers, name@);
    let ghost vals = value_bytes(values@);
    let mut j: usize = 0;
    while j < values.len()
        invariant
            j <= values.len(),
            is_header_name(name@),
            vals == value_bytes(values@),
            all_header_values(vals),
            start == header_fields(*old(headers)),
            held == if start.dom().contains(name@) {
                start[name@]
            } else {
                Seq::empty()
            },
            j == 0 ==> header_fields(*headers) == start,
            j > 0 ==> header_fields(*headers) == start.insert(
                name@,
                held + vals.subrange(0, j as int),
            ),
            has_room(start, 1) ==> has_room(header_fields(*headers), 0),
        decreases values.len() - j,
    {
        let ghost now = header_fields(*headers);
        assert(is_header_value(values[j as int]@)) by {
            assert(vals[j as int] == values[j as int]@);
        }
        match map_try_append(headers, name, values[j].as_slice()) {
            Ok(_) => {},
            Err(_) => {
                proof {
                    assert(header_fields(*headers).remove(name@) =~= start.remove(name@));
                    assert(header_fields(*headers) == with_appended(
                        start,
                        name@,
                        vals.subrange(0, j as int),
                    ));
                }
                return Err(Error::builder(Cause::HeadersFull));
            },
        }
        proof {
            if has_room(start, 1) {
                lemma_room_after_insert(start, name@, held + vals.subrange(0, j + 1), 0);
            }
            assert(vals[j as int] == values[j as int]@);
            if j == 0 {
                assert(vals.subrange(0, 1) =~= seq![vals[0]]);
                assert(held.push(vals[0]) =~= held + vals.subrange(0, 1));
            } else {
                assert((held + vals.subrange(0, j as int)).push(vals[j as int]) =~= held
                    + vals.subrange(0, j + 1));
                assert(now.insert(name@, held + vals.subrange(0, j + 1)) =~= start.insert(
                    name@,
                    held + vals.subrange(0, j + 1),
                ));
            }
        }
        j += 1;
    }
    proof {
        assert(vals.subrange(0, vals.len() as int) =~= vals);
        assert(header_fields(*headers).remove(name@) =~= start.remove(name@));
    }
    Ok(())
}

/// Adds the values of every name of `defaults` that `headers` does not hold.
/// Names that `headers` holds keep their values.
///
/// Fails only when the map is too full, and never where it has room for
/// the names of `defaults`; the fields that `headers` held stay as they
/// were even then.
pub fn merge_defaults(headers: &mut http::HeaderMap, defaults: &http::HeaderMap) -> (done: Result<
    (),
    Error,
>)
    ensures
        done is Ok ==> header_fields(*final(headers)) == with_defaults(
            header_fields(*old(headers)),
            header_fields(*defaults),
        ),
        done matches Err(e) ==> e@ == headers_full(),
        forall|n: Seq<char>| #[trigger]
            has_field(*old(headers), n) ==> has_field(*final(headers), n) && field_values(
                *final(headers),
                n,
            ) == field_values(*old(headers), n),
        header_fields(*defaults).dom().subset_of(header_fields(*old(headers)).dom()) ==> done is Ok,
        has_room(header_fields(*old(headers)), header_fields(*defaults).dom().len()) ==> done is Ok,
        grows_by(
            header_fields(*old(headers)),
            header_fields(*final(headers)),
            header_fields(*defaults).dom().len(),
        ),
{
    let ghost before = *headers;
    let names = map_keys(defaults);
    let mut i: usize = 0;
    while i < names.len()
        invariant
            i <= names.len(),
            before == *old(headers),
            names.len() == header_fields(*defaults).dom().len(),
            has_room(header_fields(before), names.len() as nat) ==> has_room(
                header_fields(*headers),
                (names.len() - i) as nat,
            ),
            grows_by(header_fields(before), header_fields(*headers), i as nat),
            forall|k: int| 0 <= k < names.len() ==> has_field(*defaults, #[trigger] names[k]@),
            forall|k: int| 0 <= k < names.len() ==> is_header_name(#[trigger] names[k]@),
            forall|n: Seq<char>| #[trigger]
                has_field(*defaults, n) ==> exists|k: int| 0 <= k < names.len() && names[k]@ == n,
            forall|k: int, l: int|
                0 <= k < l < names.len() ==> (#[trigger] names[k])@ != (#[trigger] names[l])@,
            forall|n: Seq<char>| #[trigger]
                has_field(before, n) ==> has_field(*headers, n) && field_values(*headers, n)
                    == field_values(before, n),
            forall|k: int|
                0 <= k < i && !has_field(before, #[trigger] names[k]@) ==> has_field(
                    *headers,
                    names[k]@,
                ) && field_values(*headers, names[k]@) == field_values(*defaults, names[k]@),
            forall|n: Seq<char>| #[trigger]
                has_field(*headers, n) ==> has_field(before, n) || exists|k: int|
                    0 <= k < i && names[k]@ == n,
        decreases names.len() - i,
    {
        let name = names[i].as_str();
        let ghost start = *headers;
        if !map_contains_key(headers, name) {
            let values = map_get_all(defaults, name);
            let done = append_values(headers, name, &values);
            proof {
                lemma_append_grows(header_fields(start), header_fields(*headers), name@);
                if has_room(header_fields(before), names.len() as nat) {
                    assert(has_room(header_fields(start), 1));
                    lemma_room_after_insert(
                        header_fields(start),
                        name@,
                        field_values(start, name@) + value_bytes(values@),
                        (names.len() - i - 1) as nat,
                    );
                }
            }
            proof {
                assert forall|n: Seq<char>| #[trigger] has_field(before, n) implies has_field(
                    *headers,
                    n,
                ) && field_values(*headers, n) == field_values(before, n) by {
                    assert(has_field(start, n));
                    assert(n != name@);
                    assert(header_fields(*headers).remove(name@).dom().contains(n));
                    assert(header_fields(*headers).remove(name@)[n] == header_fields(start).remove(
                        name@,
                    )[n]);
                }
            }
            proof {
                assert(has_field(*defaults, names[i as int]@));
                assert(!has_field(before, name@)) by {
                    if has_field(before, name@) {
                        assert(has_field(start, name@));
                    }
                }
            }
            match done {
                Ok(_) => {},
                Err(e) => {
                    return Err(e);
                },
            }
            proof {
                assert(Seq::<Seq<u8>>::empty() + value_bytes(values@) =~= value_bytes(values@));
                assert forall|n: Seq<char>| #[trigger] has_field(*headers, n) implies has_field(
                    before,
                    n,
                ) || exists|k: int| 0 <= k < i + 1 && names[k]@ == n by {
                    if n == name@ {
                        assert(names[i as int]@ == n);
                    } else {
                        assert(header_fields(*headers).remove(name@).dom().contains(n));
                        assert(has_field(start, n));
                        if !has_field(before, n) {
                            let k = choose|k: int| 0 <= k < i && names[k]@ == n;
                            assert(0 <= k < i + 1 && names[k]@ == n);
                        }
                    }
                }
                assert forall|k: int|
                    0 <= k < i + 1 && !has_field(before, #[trigger] names[k]@) implies has_field(
                    *headers,
                    names[k]@,
                ) && field_values(*headers, names[k]@) == field_values(*defaults, names[k]@) by {
                    if k < i {
                        assert(names[k]@ != names[i as int]@);
                        assert(has_field(start, names[k]@));
                        assert(header_fields(*headers).remove(name@).dom().contains(names[k]@));
                        assert(header_fields(*headers).remove(name@)[names[k]@] == header_fields(
                            start,
                        ).remove(name@)[names[k]@]);
                    }
                }
            }
        } else {
            proof {
                assert forall|n: Seq<char>| #[trigger] has_field(*headers, n) implies has_field(
                    before,
                    n,
                ) || exists|k: int| 0 <= k < i + 1 && names[k]@ == n by {
                    if !has_field(before, n) {
                        let k = choose|k: int| 0 <= k < i && names[k]@ == n;
                        assert(0 <= k < i + 1 && names[k]@ == n);
                    }
                }
                assert forall|k: int|
                    0 <= k < i + 1 && !has_field(before, #[trigger] names[k]@) implies has_field(
                    *headers,
                    names[k]@,
                ) && field_values(*headers, names[k]@) == field_values(*defaults, names[k]@) by {
                    if k == i {
                        // The name is present although `before` lacks it: an
                        // earlier round added it, but every name occurs once.
                        let l = choose|l: int| 0 <= l < i && names[l]@ == names[i as int]@;
                        assert(names[l]@ != names[i as int]@);
                    }
                }
            }
        }
        i += 1;
    }
    proof {
        let merged = with_defaults(header_fields(before), header_fields(*defaults));
        assert forall|n: Seq<char>| merged.dom().contains(n) implies #[trigger] header_fields(
            *headers,
        ).dom().contains(n) && header_fields(*headers)[n] == merged[n] by {
            if has_field(before, n) {
                assert(field_values(*headers, n) == field_values(before, n));
            } else {
                assert(has_field(*defaults, n));
                let k = choose|k: int| 0 <= k < names.len() && names[k]@ == n;
                assert(!has_field(before, names[k]@));
                assert(field_values(*headers, names[k]@) == field_values(*defaults, names[k]@));
            }
        }
        assert forall|n: Seq<char>| #[trigger]
            header_fields(*headers).dom().contains(n) implies merged.dom().contains(n) by {
            assert(has_field(*headers, n));
            if !has_field(before, n) {
                let k = choose|k: int| 0 <= k < i && names[k]@ == n;
                assert(has_field(*defaults, names[k]@));
            }
        }
        assert(header_fields(*headers) =~= merged);
    }
    Ok(())
}

/// Copies a list of header names.
pub fn copy_names(names: &Vec<String>) -> (copy: Vec<String>)
    ensures
        name_texts(copy@) == name_texts(names@),
{
    let mut copy: Vec<String> = Vec::new();
    let mut i: usize = 0;
    while i < names.len()
        invariant
            i <= names.len(),
            copy@.len() == i,
            forall|k: int| 0 <= k < i ==> copy@[k]@ == names@[k]@,
        decreases names.len() - i,
    {
        copy.push(names[i].clone());
        i += 1;
    }
    proof {
        assert(name_texts(copy@) =~= name_texts(names@));
    }
    copy
}

/// The text of each name in a list.
pub open spec fn name_texts(names: Seq<String>) -> Seq<Seq<char>> {
    names.map_values(|n: String| n@)
}

/// The texts of an optional list of names.
pub open spec fn opt_name_texts(names: Option<Vec<String>>) -> Option<Seq<Seq<char>>> {
    match names {
        Some(n) => Some(name_texts(n@)),
        None => None,
    }
}

/// Copies an optional list of header names.
pub fn copy_opt_names(names: &Option<Vec<String>>) -> (copy: Option<Vec<String>>)
    ensures
        opt_name_texts(copy) == opt_name_texts(*names),
{
    match names {
        Some(n) => Some(copy_names(n)),
        None => None,
    }
}

/// Gives every name of `other` the values it has in `other`, in place of
/// whatever `headers` held under it. The other names keep their values.
///
/// Fails only when the map cannot grow.
pub fn extend_headers(headers: &mut http::HeaderMap, other: &http::HeaderMap) -> (done: Result<
    (),
    Error,
>)
    ensures
        done is Ok ==> header_fields(*final(headers)) == header_fields(
            *old(headers),
        ).union_prefer_right(header_fields(*other)),
        done matches Err(e) ==> e@ == headers_full(),
        forall|n: Seq<char>| #[trigger]
            has_field(*final(headers), n) && !has_field(*other, n) ==> has_field(*old(headers), n)
                && field_values(*final(headers), n) == field_values(*old(headers), n),
        forall|n: Seq<char>| #[trigger]
            has_field(*old(headers), n) && !has_field(*other, n) ==> has_field(*final(headers), n),
        has_room(header_fields(*old(headers)), header_fields(*other).dom().len()) ==> done is Ok,
        grows_by(
            header_fields(*old(headers)),
            header_fields(*final(headers)),
            header_fields(*other).dom().len(),
        ),
{
    let ghost before = *headers;
    let names = map_keys(other);
    let mut i: usize = 0;
    while i < names.len()
        invariant
            i <= names.len(),
            before == *old(headers),
            names.len() == header_fields(*other).dom().len(),
            has_room(header_fields(before), names.len() as nat) ==> has_room(
                header_fields(*headers),
                (names.len() - i) as nat,
            ),
            grows_by(header_fields(before), header_fields(*headers), i as nat),
            forall|k: int| 0 <= k < names.len() ==> has_field(*other, #[trigger] names[k]@),
            forall|k: int| 0 <= k < names.len() ==> is_header_name(#[trigger] names[k]@),
            forall|n: Seq<char>| #[trigger]
                has_field(*other, n) ==> exists|k: int| 0 <= k < names.len() && names[k]@ == n,
            forall|k: int, l: int|
                0 <= k < l < names.len() ==> (#[trigger] names[k])@ != (#[trigger] names[l])@,
            forall|n: Seq<char>|
                !has_field(*other, n) ==> (#[trigger] has_field(*headers, n)) == has_field(
                    before,
                    n,
                ),
            forall|n: Seq<char>| #[trigger]
                has_field(*headers, n) && !has_field(*other, n) ==> field_values(*headers, n)
                    == field_values(before, n),
            forall|k: int|
                0 <= k < i ==> has_field(*headers, #[trigger] names[k]@) && field_values(
                    *headers,
                    names[k]@,
                ) == field_values(*other, names[k]@),
            forall|k: int|
                i <= k < names.len() ==> has_field(*headers, #[trigger] names[k]@) == has_field(
                    before,
                    names[k]@,
                ),
        decreases names.len() - i,
    {
        let name = names[i].as_str();
        let ghost start = *headers;
        let values = map_get_all(other, name);
        map_remove(headers, name);
        let ghost removed = *headers;
        let done = append_values(headers, name, &values);
        proof {
            lemma_grows_by_insert(header_fields(start), name@, Seq::empty());
            lemma_append_grows(header_fields(removed), header_fields(*headers), name@);
            if has_room(header_fields(before), names.len() as nat) {
                lemma_room_after_remove(header_fields(start), name@, (names.len() - i) as nat);
                assert(has_room(header_fields(removed), 1));
                lemma_room_after_insert(
                    header_fields(removed),
                    name@,
                    field_values(removed, name@) + value_bytes(values@),
                    (names.len() - i - 1) as nat,
                );
            }
            assert(Seq::<Seq<u8>>::empty() + value_bytes(values@) =~= value_bytes(values@));
            assert forall|n: Seq<char>| n != name@ implies (#[trigger] has_field(*headers, n))
                == has_field(start, n) && field_values(*headers, n) == field_values(start, n) by {
                assert(header_fields(*headers).remove(name@).dom().contains(n) == header_fields(
                    removed,
                ).remove(name@).dom().contains(n));
                if has_field(start, n) {
                    assert(header_fields(*headers).remove(name@)[n] == header_fields(
                        removed,
                    ).remove(name@)[n]);
                }
            }
            assert(has_field(*other, name@));
            assert forall|n: Seq<char>| !has_field(*other, n) implies (#[trigger] has_field(
                *headers,
                n,
            )) == has_field(before, n) by {
                assert(n != name@);
                assert(has_field(start, n) == has_field(before, n));
            }
            assert forall|n: Seq<char>| #[trigger]
                has_field(*headers, n) && !has_field(*other, n) implies field_values(*headers, n)
                == field_values(before, n) by {
                assert(n != name@);
                assert(has_field(start, n));
            }
            assert forall|k: int| i < k < names.len() implies has_field(
                *headers,
                #[trigger] names[k]@,
            ) == has_field(before, names[k]@) by {
                assert(names[i as int]@ != names[k]@);
            }
            assert forall|k: int| 0 <= k < i implies has_field(*headers, #[trigger] names[k]@)
                && field_values(*headers, names[k]@) == field_values(*other, names[k]@) by {
                assert(names[k]@ != names[i as int]@);
            }
        }
        match done {
            Ok(_) => {},
            Err(e) => {
                return Err(e);
            },
        }
        i += 1;
    }
    proof {
        let merged = header_fields(before).union_prefer_right(header_fields(*other));
        assert forall|n: Seq<char>| merged.dom().contains(n) implies #[trigger] header_fields(
            *headers,
        ).dom().contains(n) && header_fields(*headers)[n] == merged[n] by {
            if has_field(*other, n) {
                let k = choose|k: int| 0 <= k < names.len() && names[k]@ == n;
                assert(field_values(*headers, names[k]@) == field_values(*other, names[k]@));
            } else {
                assert(has_field(before, n));
                assert(has_field(*headers, n));
                assert(field_values(*headers, n) == field_values(before, n));
            }
        }
        assert forall|n: Seq<char>| #[trigger]
            header_fields(*headers).dom().contains(n) implies merged.dom().contains(n) by {
            assert(has_field(*headers, n));
            if !has_field(*other, n) {
                assert(has_field(before, n));
            }
        }
        assert(header_fields(*headers) =~= merged);
    }
    Ok(())
}

/// The names of the headers that a redirect takes away are different from
/// one another and from the names of the headers it sets.
pub proof fn lemma_redirect_names_differ()
    ensures
        AUTHORIZATION@ != COOKIE@,
        PROXY_AUTHORIZATION@ != COOKIE@,
        WWW_AUTHENTICATE@ != COOKIE@,
        REFERER@ != COOKIE@,
        REFERER@ != AUTHORIZATION@,
        REFERER@ != PROXY_AUTHORIZATION@,
        REFERER@ != WWW_AUTHENTICATE@,
        TRANSFER_ENCODING@ != COOKIE@,
        CONTENT_ENCODING@ != COOKIE@,
        CONTENT_TYPE@ != COOKIE@,
        CONTENT_LENGTH@ != COOKIE@,
        TRANSFER_ENCODING@ != REFERER@,
        CONTENT_ENCODING@ != REFERER@,
        CONTENT_TYPE@ != REFERER@,
        CONTENT_LENGTH@ != REFERER@,
{
    reveal_strlit("authorization");
    reveal_strlit("cookie");
    reveal_strlit("proxy-authorization");
    reveal_strlit("www-authenticate");
    reveal_strlit("referer");
    reveal_strlit("transfer-encoding");
    reveal_strlit("content-encoding");
    reveal_strlit("content-type");
    reveal_strlit("content-length");
    assert(AUTHORIZATION@.len() == 13);
    assert(COOKIE@.len() == 6);
    assert(PROXY_AUTHORIZATION@.len() == 19);
    assert(WWW_AUTHENTICATE@.len() == 16);
    assert(REFERER@.len() == 7);
    assert(TRANSFER_ENCODING@.len() == 17);
    assert(CONTENT_ENCODING@.len() == 16);
    assert(CONTENT_TYPE@.len() == 12);
    assert(CONTENT_LENGTH@.len() == 14);
}

/// Text made of printable ASCII characters is a header value.
pub proof fn lemma_printable_is_header_value(text: &str)
    requires
        forall|i: int| 0 <= i < text@.len() ==> ' ' <= #[trigger] text@[i] <= '~',
    ensures
        is_header_value(text.spec_bytes()),
{
    assert(vstd::string::is_ascii(text)) by {
        assert forall|i: int| 0 <= i < text@.len() implies (#[trigger] text@[i] as u32) < 128 by {
            assert(' ' <= text@[i] <= '~');
        }
    }
    vstd::string::is_ascii_spec_bytes(text);
    assert forall|i: int| 0 <= i < text.spec_bytes().len() implies is_value_byte(
        #[trigger] text.spec_bytes()[i],
    ) by {
        assert(' ' <= text@[i] <= '~');
    }
}

} // verus!
