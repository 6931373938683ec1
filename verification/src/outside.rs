//! The calls into other crates. Each function here is believed, not
//! proved: its body is the outside call, and its contract says what the
//! library takes that call to return.

use vstd::prelude::*;
use crate::agent::engine::traits::{ParamValue, ParamView};

verus! {

/// What `regex::Regex::captures_iter` yields for a pattern and a text: for
/// every match, in the order of the text, the text of each capture group
/// (group 0, the whole match, first), with `None` for a group that took no
/// part in the match. `None` as a whole where `regex::Regex::new` refuses
/// the pattern.
pub uninterp spec fn regex_captures(pattern: Seq<char>, text: Seq<char>) -> Option<
    Seq<Seq<Option<Seq<char>>>>,
>;

/// `regex::Regex::new` followed by `Regex::captures_iter`: compiles
/// `pattern` and collects the capture groups of all its successive
/// non-overlapping matches in `text`. The result depends on the two
/// arguments alone; the contract gives it a name and claims no more.
#[verifier::external_body]
pub(crate) fn captures_all(pattern: &str, text: &str) -> (r: Option<Vec<Vec<Option<String>>>>)
    ensures
        r.deep_view() == regex_captures(pattern@, text@),
{
    match regex::Regex::new(pattern) {
        Ok(re) => Some(
            re.captures_iter(text).map(
                |c| c.iter().map(|g| g.map(|m| m.as_str().to_owned())).collect(),
            ).collect(),
        ),
        Err(_) => None,
    }
}

/// `chrono::Utc::now` and `DateTime::timestamp_millis`: the time of the
/// call in milliseconds since the Unix epoch. Nothing is claimed of it.
#[verifier::external_body]
pub(crate) fn utc_now_millis() -> i64 {
    chrono::Utc::now().timestamp_millis()
}

/// `chrono::Local::now` and `DateTime::format`: the date of the call in the
/// machine's time zone, as year, month and day with their Chinese signs.
/// Nothing is claimed of it.
#[verifier::external_body]
pub(crate) fn local_date_text() -> String {
    chrono::Local::now().format("%Y年%m月%d日").to_string()
}

/// `uuid::Uuid::new_v4` and its `to_string`: a random identifier in the
/// hyphenated form, which always has 36 characters.
#[verifier::external_body]
pub(crate) fn new_uuid_text() -> (r: String)
    ensures
        r@.len() == 36,
{
    uuid::Uuid::new_v4().to_string()
}

/// What `Engine::encode` of `base64::engine::general_purpose::STANDARD`
/// returns for a sequence of bytes.
pub uninterp spec fn base64_text(data: Seq<u8>) -> Seq<char>;

/// `base64::Engine::encode` with the standard alphabet and padding. The
/// result depends on the bytes alone; the contract gives it a name.
#[verifier::external_body]
pub(crate) fn base64_encode(data: &[u8]) -> (r: String)
    ensures
        r@ == base64_text(data@),
{
    base64::Engine::encode(&base64::engine::general_purpose::STANDARD, data)
}

/// What `Engine::decode` of `base64::engine::general_purpose::STANDARD`
/// returns for a text: the bytes, or none where the text is no base64.
pub uninterp spec fn base64_bytes(text: Seq<char>) -> Option<Seq<u8>>;

/// `base64::Engine::decode` with the standard alphabet and padding. The
/// result depends on the text alone; the contract gives it a name.
#[verifier::external_body]
pub(crate) fn base64_decode(text: &str) -> (r: Option<Vec<u8>>)
    ensures
        r.deep_view() == base64_bytes(text@),
{
    match base64::Engine::decode(&base64::engine::general_purpose::STANDARD, text) {
        Ok(bytes) => Some(bytes),
        Err(_) => None,
    }
}

/// What `String::from_utf8_lossy` returns for a sequence of bytes.
pub uninterp spec fn utf8_lossy(bytes: Seq<u8>) -> Seq<char>;

/// `String::from_utf8_lossy`: the text that the bytes encode, with the
/// replacement character for what is no UTF-8. The result depends on the
/// bytes alone; the contract gives it a name.
#[verifier::external_body]
pub(crate) fn from_utf8_lossy(bytes: &[u8]) -> (r: String)
    ensures
        r@ == utf8_lossy(bytes@),
{
    String::from_utf8_lossy(bytes).into_owned()
}

/// What `serde_json::from_str` makes of a text, as far as operations read
/// it: a truth value, a non-negative integer or a string as such; a list
/// with each element that is a non-negative integer, and none for each
/// that is not; any other JSON value as `Other`; none where the text is
/// no JSON.
pub uninterp spec fn json_value(text: Seq<char>) -> Option<ParamView>;

/// `serde_json::from_str` into a `serde_json::Value`, whose variants are
/// told apart: `Bool` and `String` are taken as they are, a `Number` by
/// `Number::as_u64`, an `Array` by `Value::as_u64` on each element, and
/// whatever else is `Other`. The result depends on the text alone; the
/// contract gives it a name.
#[verifier::external_body]
pub(crate) fn json_value_of(text: &str) -> (r: Option<ParamValue>)
    ensures
        r.deep_view() == json_value(text@),
{
    match serde_json::from_str::<serde_json::Value>(text) {
        Ok(serde_json::Value::Bool(b)) => Some(ParamValue::Bool(b)),
        Ok(serde_json::Value::String(s)) => Some(ParamValue::Text(s)),
        Ok(serde_json::Value::Number(n)) => Some(n.as_u64().map_or(ParamValue::Other, ParamValue::Int)),
        Ok(serde_json::Value::Array(a)) => Some(
            ParamValue::List(a.iter().map(|v| v.as_u64()).collect()),
        ),
        Ok(_) => Some(ParamValue::Other),
        Err(_) => None,
    }
}

/// What `serde_json::from_str` makes of a text that is a JSON object:
/// its members in the order `serde_json::Map` yields them, each with its
/// value written as JSON; none where the text is no JSON object.
pub uninterp spec fn json_members(text: Seq<char>) -> Option<Seq<(Seq<char>, Seq<char>)>>;

/// `serde_json::from_str` into a `serde_json::Map`, and `Value::to_string`
/// on the value of each member. The result depends on the text alone; the
/// contract gives it a name.
#[verifier::external_body]
pub(crate) fn json_members_of(text: &str) -> (r: Option<Vec<(String, String)>>)
    ensures
        r.deep_view() == json_members(text@),
{
    match serde_json::from_str::<serde_json::Map<String, serde_json::Value>>(text) {
        Ok(map) => Some(map.into_iter().map(|(k, v)| (k, v.to_string())).collect()),
        Err(_) => None,
    }
}

} // verus!
