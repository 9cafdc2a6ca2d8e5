//! Bridge payloads carry processed data only: a body whose JSON holds a
//! credential-like field anywhere is refused.
use crate::bridge::http::{decode_utf8_lossy, utf8_lossy};
use crate::json::{json_parse, parse_json, JsonValue};
use crate::text::{chars_of, eq_ignore_ascii_case, eq_ignore_ascii_case_chars};
use vstd::prelude::*;

verus! {

/// The field names that carry Suno or browser credentials, compared
/// without regard to ASCII case.
pub open spec fn credential_keys() -> Seq<Seq<char>> {
    seq![
        "cookie"@,
        "cookies"@,
        "set-cookie"@,
        "authorization"@,
        "browser-token"@,
        "browser_token"@,
        "browserToken"@,
        "device-id"@,
        "device_id"@,
        "deviceId"@,
        "session"@,
        "session_token"@,
        "sessionToken"@,
        "clerk_token"@,
        "clerkToken"@,
        "google_credentials"@,
        "googleCredentials"@,
    ]
}

pub fn credential_key_list() -> (res: [&'static str; 17])
    ensures
        crate::settings::strs_view(res@) == credential_keys(),
{
    let r = [
        "cookie",
        "cookies",
        "set-cookie",
        "authorization",
        "browser-token",
        "browser_token",
        "browserToken",
        "device-id",
        "device_id",
        "deviceId",
        "session",
        "session_token",
        "sessionToken",
        "clerk_token",
        "clerkToken",
        "google_credentials",
        "googleCredentials",
    ];
    assert(crate::settings::strs_view(r@) =~= credential_keys());
    r
}

/// `k` equals one of `keys`, ignoring ASCII case.
pub open spec fn matches_any(k: Seq<char>, keys: Seq<Seq<char>>) -> bool
    decreases keys.len(),
{
    keys.len() > 0 && (eq_ignore_ascii_case(k, keys[0]) || matches_any(k, keys.drop_first()))
}

pub open spec fn is_credential_key(k: Seq<char>) -> bool {
    matches_any(k, credential_keys())
}

/// The first credential-like field name in `v`: an object's entries are
/// searched in order, each key before the value under it; an array's
/// items in order.
pub open spec fn credential_in(v: JsonValue) -> Option<Seq<char>>
    decreases v,
{
    match v {
        JsonValue::Object(es) => credential_in_entries(es@),
        JsonValue::Array(items) => credential_in_items(items@),
        _ => None,
    }
}

pub open spec fn credential_in_entries(es: Seq<(String, JsonValue)>) -> Option<Seq<char>>
    decreases es,
{
    if es.len() == 0 {
        None
    } else if is_credential_key(es[0].0@) {
        Some(es[0].0@)
    } else {
        match credential_in(es[0].1) {
            Some(k) => Some(k),
            None => credential_in_entries(es.drop_first()),
        }
    }
}

pub open spec fn credential_in_items(items: Seq<JsonValue>) -> Option<Seq<char>>
    decreases items,
{
    if items.len() == 0 {
        None
    } else {
        match credential_in(items[0]) {
            Some(k) => Some(k),
            None => credential_in_items(items.drop_first()),
        }
    }
}

/// The credential-like field in a request body, if the body is JSON and
/// holds one.
pub open spec fn body_credential(body: Seq<u8>) -> Option<Seq<char>> {
    match json_parse(utf8_lossy(body)) {
        Ok(v) => credential_in(v),
        Err(_) => None,
    }
}

/// Whether `key` is a credential-like field name.
pub fn is_credential_field(key: &str) -> (res: bool)
    ensures
        res == is_credential_key(key@),
{
    let keys = credential_key_list();
    let k = chars_of(key);
    let mut i: usize = 0;
    assert(credential_keys().skip(0) =~= credential_keys());
    while i < keys.len()
        invariant
            i <= keys.len(),
            k@ == key@,
            crate::settings::strs_view(keys@) == credential_keys(),
            is_credential_key(key@) == matches_any(key@, credential_keys().skip(i as int)),
        decreases keys.len() - i,
    {
        let ghost rest = credential_keys().skip(i as int);
        assert(rest.drop_first() =~= credential_keys().skip(i + 1));
        assert(rest[0] == keys@[i as int]@);
        let c = chars_of(keys[i]);
        if eq_ignore_ascii_case_chars(k.as_slice(), c.as_slice()) {
            return true;
        }
        i = i + 1;
    }
    false
}

/// The first credential-like field name in a JSON value.
#[verifier::loop_isolation(false)]
pub fn find_credential_field(v: &JsonValue) -> (res: Option<String>)
    ensures
        crate::text::opt_view(res) == credential_in(*v),
    decreases v,
{
    match v {
        JsonValue::Object(es) => {
            let mut i: usize = 0;
            assert(es@.skip(0) =~= es@);
            while i < es.len()
                invariant
                    i <= es.len(),
                    credential_in_entries(es@) == credential_in_entries(es@.skip(i as int)),
                decreases es.len() - i,
            {
                assert(es@.skip(i as int).drop_first() =~= es@.skip(i + 1));
                assert(es@.skip(i as int)[0] == es@[i as int]);
                if is_credential_field(es[i].0.as_str()) {
                    return Some(es[i].0.clone());
                }
                proof {
                    assert(decreases_to!(*v => es));
                    assert(decreases_to!(es => es[i as int]));
                    assert(decreases_to!(es[i as int] => es[i as int].1));
                }
                match find_credential_field(&es[i].1) {
                    Some(k) => {
                        return Some(k);
                    },
                    None => {},
                }
                i = i + 1;
            }
            None
        },
        JsonValue::Array(items) => {
            let mut i: usize = 0;
            assert(items@.skip(0) =~= items@);
            while i < items.len()
                invariant
                    i <= items.len(),
                    credential_in_items(items@) == credential_in_items(items@.skip(i as int)),
                decreases items.len() - i,
            {
                assert(items@.skip(i as int).drop_first() =~= items@.skip(i + 1));
                assert(items@.skip(i as int)[0] == items@[i as int]);
                proof {
                    assert(decreases_to!(*v => items));
                    assert(decreases_to!(items => items[i as int]));
                }
                match find_credential_field(&items[i]) {
                    Some(k) => {
                        return Some(k);
                    },
                    None => {},
                }
                i = i + 1;
            }
            None
        },
        _ => None,
    }
}

/// The credential-like field in a request body: the body is read as text
/// and parsed as JSON; a body that is not JSON holds none.
pub fn body_credential_field(body: &[u8]) -> (res: Option<String>)
    ensures
        crate::text::opt_view(res) == body_credential(body@),
{
    let text = decode_utf8_lossy(body);
    match parse_json(text.as_str()) {
        Ok(v) => find_credential_field(&v),
        Err(_) => None,
    }
}

} // verus!
