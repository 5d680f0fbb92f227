//! The calls this library makes into other crates.  Each contract states
//! what the call returns: a named result where the result is a function of
//! the arguments alone, and only the range or shape of the result where it
//! depends on the clock or on chance.
use vstd::prelude::*;

verus! {

/// What `murmurhash32::murmurhash3` returns for a key: a function of the key
/// bytes alone (a fixed seed, no state).
pub uninterp spec fn murmurhash3_of(key: Seq<u8>) -> u32;

/// Calls `murmurhash32::murmurhash3`, the 32-bit MurmurHash3 of the bytes with
/// the crate's fixed seed.  Claimed: the result is `murmurhash3_of` of the
/// bytes; the hash itself is not restated here.
#[verifier::external_body]
pub(crate) fn murmurhash3(key: &[u8]) -> (hash: u32)
    ensures
        hash == murmurhash3_of(key@),
{
    murmurhash32::murmurhash3(key)
}

/// The characters `nanoid::alphabet::SAFE` is made of: `_`, `-`, the digits,
/// and the lower- and upper-case ASCII letters.
pub open spec fn is_safe_id_char(c: char) -> bool {
    c == '_' || c == '-' || ('0' <= c && c <= '9') || ('a' <= c && c <= 'z') || ('A' <= c
        && c <= 'Z')
}

/// Calls `nanoid::format(nanoid::rngs::default, &nanoid::alphabet::SAFE, size)`,
/// which is what `nanoid!(size)` expands to.  The characters are drawn at
/// random; claimed is only what holds of every outcome: the loop in `format`
/// pushes characters of the alphabet until the string is `size` bytes long,
/// and every character of that alphabet is one ASCII byte, so the id has
/// `size` characters, each of the alphabet.  For size 0 it draws no bytes and
/// never returns, so that size is left out.
#[verifier::external_body]
pub(crate) fn nanoid_safe(size: usize) -> (id: String)
    requires
        size > 0,
    ensures
        id@.len() == size,
        forall|i: int| 0 <= i < id@.len() ==> is_safe_id_char(#[trigger] id@[i]),
{
    nanoid::format(nanoid::rngs::default, &nanoid::alphabet::SAFE, size)
}

/// The largest UNIX timestamp a `chrono::DateTime<Utc>` can have: that of
/// `DateTime::<Utc>::MAX_UTC`, 262142-12-31T23:59:59 (the last second of
/// `NaiveDate::MAX`).
pub const MAX_UTC_TIMESTAMP: i64 = 8_210_266_876_799;

/// Calls `chrono::Utc::now()` and takes its `timestamp()`, the whole seconds
/// since the UNIX epoch.  The value depends on the clock, so only its range is
/// claimed: `Utc::now` panics on a clock before the epoch (its
/// `duration_since(UNIX_EPOCH).expect(..)`), and no `DateTime<Utc>` lies past
/// `MAX_UTC`.
#[verifier::external_body]
pub(crate) fn utc_now_timestamp() -> (seconds: i64)
    ensures
        0 <= seconds <= MAX_UTC_TIMESTAMP,
{
    chrono::Utc::now().timestamp()
}

#[verifier::external_type_specification]
#[verifier::external_body]
pub struct ExNaiveDateTime(chrono::NaiveDateTime);

/// Calls `chrono::Utc::now()` and converts it with `naive_utc()`.  The value
/// depends on the clock; nothing is claimed of it.
#[verifier::external_body]
pub(crate) fn utc_now_naive() -> (now: chrono::NaiveDateTime) {
    chrono::Utc::now().naive_utc()
}

#[verifier::external_type_specification]
#[verifier::external_body]
pub struct ExValue(serde_json::Value);

/// The JSON string value `serde_json::Value::String` makes of some text.
pub uninterp spec fn json_string(text: Seq<char>) -> serde_json::Value;

/// Builds `serde_json::Value::String(text)`, the value `json!(text)` makes of
/// a string.  Claimed: the result is `json_string` of the text.
#[verifier::external_body]
pub(crate) fn json_string_value(text: &str) -> (value: serde_json::Value)
    ensures
        value == json_string(text@),
{
    serde_json::Value::String(text.to_string())
}

/// The JSON object with the single member `key`: `value`.
pub uninterp spec fn json_object1(key: Seq<char>, value: serde_json::Value) -> serde_json::Value;

/// Builds the JSON object `{ key: value }`, as `json!({ key: value })` does:
/// a `serde_json::Map` holding the one member, made a `Value::Object`.
/// Claimed: the result is `json_object1` of the key and value.
#[verifier::external_body]
pub(crate) fn json_object_value(key: &str, value: serde_json::Value) -> (object: serde_json::Value)
    ensures
        object == json_object1(key@, value),
{
    let mut members = serde_json::Map::new();
    members.insert(key.to_string(), value);
    serde_json::Value::Object(members)
}

/// Whether `url::Url::parse` accepts a text: a function of the text alone.
pub uninterp spec fn parses_as_url(text: Seq<char>) -> bool;

/// Calls `url::Url::parse` and reports whether it returned `Ok`.  Claimed:
/// the answer is `parses_as_url` of the text.
#[verifier::external_body]
pub(crate) fn url_parses(text: &str) -> (ok: bool)
    ensures
        ok == parses_as_url(text@),
{
    url::Url::parse(text).is_ok()
}

} // verus!
