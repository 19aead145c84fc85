//! HTTP header names, values and maps, as the `http` crate represents them.
//!
//! The functions of this module that are marked `external_body` are the only
//! places where the library calls into `http`. Their contracts are taken from
//! that crate's source and are not proved here.

use http::header::{HeaderMap, HeaderName, HeaderValue};
use vstd::prelude::*;

verus! {

/// The longest header name that `http` accepts, in bytes.
pub const MAX_HEADER_NAME_LEN: usize = 65535;

/// The number of distinct names below which a header map always has room
/// for one more.
pub const HEADER_MAP_ROOM: usize = 6554;

/// `http::header::HeaderName`, the name of a header. Nothing is known of
/// what is inside one but what `name_bytes` tells.
#[verifier::external_type_specification]
#[verifier::external_body]
pub struct ExHeaderName(HeaderName);

/// `http::header::HeaderValue`, the value of a header. Nothing is known of
/// what is inside one but what `value_bytes` tells.
#[verifier::external_type_specification]
#[verifier::external_body]
pub struct ExHeaderValue(HeaderValue);

/// `http::header::HeaderMap`, the headers of a message. Nothing is known of
/// what is inside one but what `map_entries` tells.
#[verifier::external_type_specification]
#[verifier::external_body]
#[verifier::reject_recursive_types(T)]
pub struct ExHeaderMap<T>(HeaderMap<T>);

/// What a header name holds: its bytes, as `HeaderName::as_str` gives them.
pub uninterp spec fn name_bytes(name: HeaderName) -> Seq<u8>;

/// What a header value holds: its bytes, as `HeaderValue::as_bytes` gives
/// them.
pub uninterp spec fn value_bytes(value: HeaderValue) -> Seq<u8>;

/// The model of a header map: each name in it, with the values stored under
/// that name.
pub type Entries = Map<Seq<u8>, Seq<Seq<u8>>>;

/// What a header map holds: for each name in it, the values stored under
/// that name, in the order in which `HeaderMap::get_all` yields them.
pub uninterp spec fn map_entries(map: HeaderMap<HeaderValue>) -> Entries;

/// Whether `b` may occur in a header name: a letter, a digit, or one of
/// ``!#$%&'*+-.^_`|~``.
pub open spec fn is_name_byte(b: u8) -> bool {
    ||| 0x61 <= b <= 0x7a
    ||| 0x41 <= b <= 0x5a
    ||| 0x30 <= b <= 0x39
    ||| b == 0x21
    ||| 0x23 <= b <= 0x27
    ||| b == 0x2a
    ||| b == 0x2b
    ||| b == 0x2d
    ||| b == 0x2e
    ||| 0x5e <= b <= 0x60
    ||| b == 0x7c
    ||| b == 0x7e
}

/// The lower-case form of an ASCII letter; any other byte unchanged.
pub open spec fn lower(b: u8) -> u8 {
    if 0x41 <= b <= 0x5a {
        (b + 0x20) as u8
    } else {
        b
    }
}

/// Whether `bytes` is accepted as a header name.
pub open spec fn is_header_name(bytes: Seq<u8>) -> bool {
    &&& 1 <= bytes.len() <= MAX_HEADER_NAME_LEN
    &&& forall|i: int| 0 <= i < bytes.len() ==> is_name_byte(#[trigger] bytes[i])
}

/// The form in which a header name is stored: all letters in lower case.
pub open spec fn normalized(bytes: Seq<u8>) -> Seq<u8> {
    Seq::new(bytes.len(), |i: int| lower(bytes[i]))
}

/// Whether `b` may occur in a header value: a tab, or anything from the space
/// upwards except DEL.
pub open spec fn is_value_byte(b: u8) -> bool {
    (b >= 32 && b != 127) || b == 9
}

/// Whether `bytes` is accepted as a header value.
pub open spec fn is_header_value(bytes: Seq<u8>) -> bool {
    forall|i: int| 0 <= i < bytes.len() ==> is_value_byte(#[trigger] bytes[i])
}

/// `HeaderName::from_bytes`: a name is accepted when it has between 1 and
/// 65535 bytes, each of them a name byte, and is stored in lower case.
#[verifier::external_body]
pub(crate) fn parse_header_name(src: &[u8]) -> (name: Option<HeaderName>)
    ensures
        name is Some <==> is_header_name(src@),
        name matches Some(n) ==> name_bytes(n) == normalized(src@),
{
    match HeaderName::from_bytes(src) {
        Ok(name) => Some(name),
        Err(_) => None,
    }
}

/// `HeaderValue::from_bytes`: a value is accepted when each of its bytes is a
/// value byte, and is stored as it is.
#[verifier::external_body]
pub(crate) fn parse_header_value(src: &[u8]) -> (value: Option<HeaderValue>)
    ensures
        value is Some <==> is_header_value(src@),
        value matches Some(v) ==> value_bytes(v) == src@,
{
    match HeaderValue::from_bytes(src) {
        Ok(value) => Some(value),
        Err(_) => None,
    }
}

/// `HeaderMap::new`: a map that holds nothing.
#[verifier::external_body]
pub(crate) fn new_header_map() -> (map: HeaderMap<HeaderValue>)
    ensures
        map_entries(map) == Entries::empty(),
{
    HeaderMap::new()
}

/// `HeaderMap::try_insert`: where the value is taken, it is afterwards the
/// only value under `name`, and every other name holds what it held; where
/// it is not, the map holds what it held.
///
/// A value is refused only when the map cannot grow any further. Its table
/// is doubled on demand up to 32768 slots, and a doubling is asked for only
/// when at least a fifth of the slots are taken, so a map of fewer than
/// 6554 names takes every value.
#[verifier::external_body]
pub(crate) fn try_insert_header(map: &mut HeaderMap<HeaderValue>, name: HeaderName, value: HeaderValue) -> (done: bool)
    ensures
        done ==> map_entries(*final(map)) == map_entries(*old(map)).insert(name_bytes(name), seq![value_bytes(value)]),
        !done ==> map_entries(*final(map)) == map_entries(*old(map)),
        map_entries(*old(map)).dom().finite() && map_entries(*old(map)).dom().len() < HEADER_MAP_ROOM ==> done,
{
    match map.try_insert(name, value) {
        Ok(_) => true,
        Err(_) => false,
    }
}

} // verus!
