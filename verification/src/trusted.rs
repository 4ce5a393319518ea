use crate::headers::{entry_views, unique_keys};
use vstd::prelude::*;

verus! {

/// serde_json's JSON value type, carried opaquely through request bodies and
/// decoded responses; the library never inspects its contents.
#[verifier::external_type_specification]
#[verifier::external_body]
pub struct ExValue(serde_json::Value);

/// The outcome of parsing bytes as JSON: the parsed value when the bytes are
/// well-formed JSON, nothing otherwise.
pub uninterp spec fn json_parse(bytes: Seq<u8>) -> Option<serde_json::Value>;

/// Relies on serde_json::from_slice::<Value>: parsing is a function of the
/// bytes alone, succeeding exactly on well-formed JSON.
#[verifier::external_body]
pub fn parse_json(bytes: &[u8]) -> (r: Result<serde_json::Value, String>)
    ensures
        match r {
            Ok(v) => json_parse(bytes@) == Some(v),
            Err(_) => json_parse(bytes@) is None,
        },
{
    serde_json::from_slice(bytes).map_err(|e| e.to_string())
}

/// The mapping that parsing bytes as a JSON object of string fields yields,
/// when the bytes are such an object; nothing otherwise.
pub uninterp spec fn json_parse_string_map(bytes: Seq<u8>) -> Option<Map<Seq<char>, Seq<char>>>;

/// The mapping that a list of key-value entries denotes; later entries win.
pub open spec fn pairs_map(hs: Seq<(Seq<char>, Seq<char>)>) -> Map<Seq<char>, Seq<char>>
    decreases hs.len(),
{
    if hs.len() == 0 {
        Map::empty()
    } else {
        pairs_map(hs.drop_last()).insert(hs.last().0, hs.last().1)
    }
}

/// Relies on serde_json::from_slice::<HashMap<String, String>>: which mapping
/// the bytes denote is a function of the bytes alone; the order in which the
/// entries come back is not specified.
#[verifier::external_body]
pub fn parse_json_string_pairs(bytes: &[u8]) -> (r: Result<Vec<(String, String)>, String>)
    ensures
        match r {
            Ok(v) => json_parse_string_map(bytes@) == Some(pairs_map(entry_views(v@)))
                && unique_keys(entry_views(v@)),
            Err(_) => json_parse_string_map(bytes@) is None,
        },
{
    match serde_json::from_slice::<std::collections::HashMap<String, String>>(bytes) {
        Ok(m) => Ok(m.into_iter().collect()),
        Err(e) => Err(e.to_string()),
    }
}

/// The text that lossy UTF-8 decoding yields for the given bytes.
pub uninterp spec fn utf8_lossy(bytes: Seq<u8>) -> Seq<char>;

/// Relies on String::from_utf8_lossy: the decoding is a function of the bytes
/// alone and never fails; ill-formed sequences become replacement characters.
#[verifier::external_body]
pub fn decode_utf8_lossy(bytes: &[u8]) -> (r: String)
    ensures
        r@ == utf8_lossy(bytes@),
{
    String::from_utf8_lossy(bytes).into_owned()
}

/// The lower-cased form of a header name that the transport accepts as valid;
/// nothing when the transport refuses the name.
pub uninterp spec fn header_name_normal(name: Seq<char>) -> Option<Seq<char>>;

/// Relies on reqwest::header::HeaderName::from_bytes (the same check the
/// transport applies): acceptance is a function of the characters alone, and
/// an accepted name comes back in its normalized lower-case form.
#[verifier::external_body]
pub fn normalize_header_name(name: &str) -> (r: Option<String>)
    ensures
        match r {
            Some(n) => header_name_normal(name@) == Some(n@),
            None => header_name_normal(name@) is None,
        },
{
    match reqwest::header::HeaderName::from_bytes(name.as_bytes()) {
        Ok(h) => Some(h.as_str().to_string()),
        Err(_) => None,
    }
}

/// Whether the transport accepts the string as a header value.
pub uninterp spec fn valid_header_value(value: Seq<char>) -> bool;

/// Relies on reqwest::header::HeaderValue::from_str (the same check the
/// transport applies): acceptance is a function of the characters alone.
#[verifier::external_body]
pub fn check_header_value(value: &str) -> (r: bool)
    ensures
        r == valid_header_value(value@),
{
    reqwest::header::HeaderValue::from_str(value).is_ok()
}

} // verus!
