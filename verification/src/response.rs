use crate::errors::FunctionsError;
use crate::headers::{entry_views, lemma_lookup_found, lemma_lookup_missing, lookup, unique_keys};
use crate::models::{FunctionsResponse, ResponseData};
use crate::trusted::{
    decode_utf8_lossy, json_parse, json_parse_string_map, pairs_map, parse_json,
    parse_json_string_pairs, utf8_lossy,
};
use vstd::prelude::*;
use vstd::string::{StrSliceExecFns, StringExecFns};

verus! {

/// Whether the response carries the explicit relay failure signal: the
/// `x-relay-error` header present with the value exactly `true`.
pub open spec fn relay_flagged(hs: Seq<(Seq<char>, Seq<char>)>) -> bool {
    lookup(hs, "x-relay-error"@) == Some("true"@)
}

/// The HTTP success range.
pub open spec fn status_success(status: u16) -> bool {
    200 <= status < 300
}

/// The index of the first `;` in `s`, or `s`'s length when there is none.
pub open spec fn first_semi(s: Seq<char>) -> int
    decreases s.len(),
{
    if s.len() == 0 {
        0
    } else if s[0] == ';' {
        0
    } else {
        1 + first_semi(s.drop_first())
    }
}

/// The content type proper: everything before the first `;`, parameters such
/// as a charset stripped.
pub open spec fn essence(s: Seq<char>) -> Seq<char> {
    s.subrange(0, first_semi(s))
}

/// The content type a response declares: the `content-type` header's essence,
/// or `text/plain` when the header is absent.
pub open spec fn resolved_content_type(hs: Seq<(Seq<char>, Seq<char>)>) -> Seq<char> {
    match lookup(hs, "content-type"@) {
        Some(v) => essence(v),
        None => "text/plain"@,
    }
}

/// How a response body is decoded, as dictated by its declared content type.
pub enum PayloadKind {
    Json,
    Bytes,
    Text,
    Form,
}

/// The decoding each content type selects; everything unknown decodes as
/// text.
pub open spec fn decode_kind(ct: Seq<char>) -> PayloadKind {
    if ct == "application/json"@ {
        PayloadKind::Json
    } else if ct == "application/octet-stream"@ {
        PayloadKind::Bytes
    } else if ct == "text/event-stream"@ {
        PayloadKind::Text
    } else if ct == "multipart/form-data"@ {
        PayloadKind::Form
    } else {
        PayloadKind::Text
    }
}

/// `first_semi` is exactly the position scanning finds: no `;` before it, and
/// a `;` at it unless the string ends there.
pub proof fn lemma_first_semi(s: Seq<char>, i: int)
    requires
        0 <= i <= s.len(),
        forall|j: int| 0 <= j < i ==> s[j] != ';',
        i < s.len() ==> s[i] == ';',
    ensures
        first_semi(s) == i,
    decreases i,
{
    if i == 0 {
    } else {
        assert(s[0] != ';');
        assert forall|j: int| 0 <= j < i - 1 implies s.drop_first()[j] != ';' by {
            assert(s.drop_first()[j] == s[j + 1]);
        }
        if i - 1 < s.drop_first().len() {
            assert(s.drop_first()[i - 1] == s[i]);
        }
        lemma_first_semi(s.drop_first(), i - 1);
    }
}

/// The first value stored under `key`, scanning front to back.
pub fn find_header(hs: &Vec<(String, String)>, key: &String) -> (r: Option<String>)
    ensures
        match r {
            Some(v) => lookup(entry_views(hs@), key@) == Some(v@),
            None => lookup(entry_views(hs@), key@) is None,
        },
{
    let mut i: usize = 0;
    while i < hs.len()
        invariant
            0 <= i <= hs@.len(),
            forall|j: int| 0 <= j < i ==> entry_views(hs@)[j].0 != key@,
        decreases hs@.len() - i,
    {
        if hs[i].0 == *key {
            proof {
                assert(entry_views(hs@)[i as int] == (hs@[i as int].0@, hs@[i as int].1@));
                lemma_lookup_found(entry_views(hs@), key@, i as int);
            }
            return Some(hs[i].1.clone());
        }
        proof {
            assert(entry_views(hs@)[i as int].0 == hs@[i as int].0@);
        }
        i += 1;
    }
    proof {
        lemma_lookup_missing(entry_views(hs@), key@);
    }
    None
}

/// Strips the parameters from a content-type value: the text before the
/// first `;`.
pub fn content_type_essence(v: &str) -> (r: String)
    ensures
        r@ == essence(v@),
{
    let n = v.unicode_len();
    let mut i: usize = 0;
    while i < n && v.get_char(i) != ';'
        invariant
            0 <= i <= v@.len(),
            n == v@.len(),
            forall|j: int| 0 <= j < i ==> v@[j] != ';',
        decreases n - i,
    {
        i += 1;
    }
    proof {
        lemma_first_semi(v@, i as int);
    }
    let s = v.substring_char(0, i);
    String::from_str(s)
}

/// Classifies and decodes a received response. The relay check comes first:
/// a response flagged `x-relay-error: true` is a relay failure whatever its
/// status is. A non-2xx status is then an HTTP failure carrying the status
/// text. A delivered response decodes by its declared content type: JSON for
/// `application/json`, raw bytes for `application/octet-stream`, a JSON
/// object of string fields for `multipart/form-data`, and text for
/// `text/event-stream` and everything else, which never fails.
pub fn process_response(
    status: u16,
    status_text: String,
    headers: &Vec<(String, String)>,
    body: Vec<u8>,
) -> (r: Result<FunctionsResponse, FunctionsError>)
    ensures
        ({
            let hs = entry_views(headers@);
            if relay_flagged(hs) {
                r matches Err(FunctionsError::RelayError(m)) && m@
                    == "Relay Error invoking the Edge Function"@
            } else if !status_success(status) {
                r matches Err(FunctionsError::HttpError(m)) && m@ == status_text@
            } else {
                match decode_kind(resolved_content_type(hs)) {
                    PayloadKind::Json => match json_parse(body@) {
                        Some(v) => r matches Ok(FunctionsResponse::Success { data }) && data
                            == ResponseData::Json(v),
                        None => r matches Err(FunctionsError::FetchError(_)),
                    },
                    PayloadKind::Bytes => r matches Ok(FunctionsResponse::Success { data })
                        && data matches ResponseData::Bytes(b) && b@ == body@,
                    PayloadKind::Text => r matches Ok(FunctionsResponse::Success { data })
                        && data matches ResponseData::Text(t) && t@ == utf8_lossy(body@),
                    PayloadKind::Form => match json_parse_string_map(body@) {
                        Some(m) => r matches Ok(FunctionsResponse::Success { data })
                            && data matches ResponseData::FormData(fields) && pairs_map(
                            entry_views(fields@),
                        ) == m && unique_keys(entry_views(fields@)),
                        None => r matches Err(FunctionsError::FetchError(_)),
                    },
                }
            }
        }),
{
    match find_header(headers, &String::from_str("x-relay-error")) {
        Some(v) => {
            if v == String::from_str("true") {
                return Err(
                    FunctionsError::RelayError(
                        String::from_str("Relay Error invoking the Edge Function"),
                    ),
                );
            }
        },
        None => {},
    }
    if !(status >= 200 && status < 300) {
        return Err(FunctionsError::HttpError(status_text));
    }
    let ct = match find_header(headers, &String::from_str("content-type")) {
        Some(v) => content_type_essence(v.as_str()),
        None => String::from_str("text/plain"),
    };
    if ct == String::from_str("application/json") {
        match parse_json(body.as_slice()) {
            Ok(v) => Ok(FunctionsResponse::Success { data: ResponseData::Json(v) }),
            Err(m) => Err(FunctionsError::FetchError(m)),
        }
    } else if ct == String::from_str("application/octet-stream") {
        Ok(FunctionsResponse::Success { data: ResponseData::Bytes(body) })
    } else if ct == String::from_str("text/event-stream") {
        let t = decode_utf8_lossy(body.as_slice());
        Ok(FunctionsResponse::Success { data: ResponseData::Text(t) })
    } else if ct == String::from_str("multipart/form-data") {
        match parse_json_string_pairs(body.as_slice()) {
            Ok(fields) => Ok(FunctionsResponse::Success { data: ResponseData::FormData(fields) }),
            Err(m) => Err(FunctionsError::FetchError(m)),
        }
    } else {
        let t = decode_utf8_lossy(body.as_slice());
        Ok(FunctionsResponse::Success { data: ResponseData::Text(t) })
    }
}

/// A content type other than the three that decode structurally — and in
/// particular an absent one, which resolves to `text/plain` — selects the
/// text decoding, which `process_response` shows never fails.
pub proof fn lemma_unknown_content_type_text(hs: Seq<(Seq<char>, Seq<char>)>)
    requires
        match lookup(hs, "content-type"@) {
            Some(v) => essence(v) != "application/json"@ && essence(v)
                != "application/octet-stream"@ && essence(v) != "multipart/form-data"@,
            None => true,
        },
    ensures
        decode_kind(resolved_content_type(hs)) == PayloadKind::Text,
{
    match lookup(hs, "content-type"@) {
        Some(v) => {},
        None => {
            reveal_strlit("text/plain");
            reveal_strlit("application/json");
            reveal_strlit("application/octet-stream");
            reveal_strlit("text/event-stream");
            reveal_strlit("multipart/form-data");
            assert("text/plain"@.len() == 10);
            assert("application/json"@.len() == 16);
            assert("application/octet-stream"@.len() == 24);
            assert("text/event-stream"@.len() == 17);
            assert("multipart/form-data"@.len() == 19);
        },
    }
}

} // verus!
