//! JSON documents as the library reads them, and the one call that parses
//! text into them.
use crate::text::{is_blank, is_blank_str};
use vstd::prelude::*;

verus! {

/// A JSON value. Numbers keep their textual form; an object keeps its
/// entries in ascending key order with no key twice, as `serde_json`'s
/// default map does.
#[derive(Debug)]
pub enum JsonValue {
    Null,
    Bool(bool),
    Number(String),
    String(String),
    Array(Vec<JsonValue>),
    Object(Vec<(String, JsonValue)>),
}

#[verifier::external_type_specification]
#[verifier::external_body]
pub struct ExSerdeJsonValue(serde_json::Value);

/// What `serde_json::from_str::<serde_json::Value>` makes of `text`: the
/// value, or the text of the error.
pub uninterp spec fn json_parse(text: Seq<char>) -> Result<JsonValue, Seq<char>>;

/// Moves a `serde_json::Value` into a `JsonValue`, variant for variant.
#[verifier::external_body]
fn json_from_serde(v: serde_json::Value) -> JsonValue {
    match v {
        serde_json::Value::Null => JsonValue::Null,
        serde_json::Value::Bool(b) => JsonValue::Bool(b),
        serde_json::Value::Number(n) => JsonValue::Number(n.to_string()),
        serde_json::Value::String(s) => JsonValue::String(s),
        serde_json::Value::Array(a) => JsonValue::Array(a.into_iter().map(json_from_serde).collect()),
        serde_json::Value::Object(m) => JsonValue::Object(
            m.into_iter().map(|(k, x)| (k, json_from_serde(x))).collect(),
        ),
    }
}

/// Calls `serde_json::from_str::<serde_json::Value>` and moves the value it
/// returns into a `JsonValue` (or the error into its text). The contract
/// only names the result: it is a function of the text.
#[verifier::external_body]
pub(crate) fn parse_json(text: &str) -> (res: Result<JsonValue, String>)
    ensures
        match json_parse(text@) {
            Ok(v) => res == Ok::<JsonValue, String>(v),
            Err(m) => res matches Err(e) && e@ == m,
        },
{
    match serde_json::from_str::<serde_json::Value>(text) {
        Ok(v) => Ok(json_from_serde(v)),
        Err(e) => Err(e.to_string()),
    }
}

/// The value stored under `key` in a list of object entries.
pub open spec fn entry_lookup(es: Seq<(String, JsonValue)>, key: Seq<char>) -> Option<JsonValue>
    decreases es.len(),
{
    if es.len() == 0 {
        None
    } else if es[0].0@ == key {
        Some(es[0].1)
    } else {
        entry_lookup(es.drop_first(), key)
    }
}

/// `Value::get` with a string key: the member of an object, `None` for
/// anything else.
pub open spec fn json_get(v: JsonValue, key: Seq<char>) -> Option<JsonValue> {
    match v {
        JsonValue::Object(es) => entry_lookup(es@, key),
        _ => None,
    }
}

/// `Value::as_str` applied to an optional value.
pub open spec fn json_str(v: Option<JsonValue>) -> Option<Seq<char>> {
    match v {
        Some(JsonValue::String(s)) => Some(s@),
        _ => None,
    }
}

/// `Value::as_array`.
pub open spec fn json_array(v: Option<JsonValue>) -> Option<Seq<JsonValue>> {
    match v {
        Some(JsonValue::Array(items)) => Some(items@),
        _ => None,
    }
}

/// The value stored under `key` in a list of object entries.
pub fn lookup<'a>(es: &'a Vec<(String, JsonValue)>, key: &str) -> (res: Option<&'a JsonValue>)
    ensures
        match res {
            Some(r) => entry_lookup(es@, key@) == Some(*r),
            None => entry_lookup(es@, key@) is None,
        },
{
    let mut i: usize = 0;
    assert(es@.skip(0) =~= es@);
    while i < es.len()
        invariant
            i <= es.len(),
            entry_lookup(es@, key@) == entry_lookup(es@.skip(i as int), key@),
        decreases es.len() - i,
    {
        assert(es@.skip(i as int).drop_first() =~= es@.skip(i + 1));
        if crate::text::str_eq(es[i].0.as_str(), key) {
            return Some(&es[i].1);
        }
        i = i + 1;
    }
    None
}

/// The member of an object stored under `key`.
pub fn get<'a>(v: &'a JsonValue, key: &str) -> (res: Option<&'a JsonValue>)
    ensures
        match res {
            Some(r) => json_get(*v, key@) == Some(*r),
            None => json_get(*v, key@) is None,
        },
{
    match v {
        JsonValue::Object(es) => lookup(es, key),
        _ => None,
    }
}

/// The string a value holds, if it is a string.
pub fn as_str(v: Option<&JsonValue>) -> (res: Option<String>)
    ensures
        crate::text::opt_view(res) == json_str(
            match v {
                Some(x) => Some(*x),
                None => None,
            },
        ),
{
    match v {
        Some(JsonValue::String(s)) => Some(s.clone()),
        _ => None,
    }
}

/// The first of `a`, `b` that is present (`Option::or_else`).
pub open spec fn first_present(a: Option<JsonValue>, b: Option<JsonValue>) -> Option<JsonValue> {
    match a {
        Some(x) => Some(x),
        None => b,
    }
}

/// The string stored under `key`, falling back to `alt` when `key` is
/// absent (a non-string under `key` gives `None`).
pub fn str_member_or(v: &JsonValue, key: &str, alt: &str) -> (res: Option<String>)
    ensures
        crate::text::opt_view(res) == json_str(first_present(json_get(*v, key@), json_get(*v, alt@))),
{
    match get(v, key) {
        Some(x) => as_str(Some(x)),
        None => as_str(get(v, alt)),
    }
}

/// The string stored under `key`.
pub fn str_member(v: &JsonValue, key: &str) -> (res: Option<String>)
    ensures
        crate::text::opt_view(res) == json_str(json_get(*v, key@)),
{
    as_str(get(v, key))
}

// ---------------------------------------------------------------------
// Depth-first search for a named string
// ---------------------------------------------------------------------

/// The first of `keys` under which `es` holds a string that is not blank.
pub open spec fn direct_hit(es: Seq<(String, JsonValue)>, keys: Seq<Seq<char>>) -> Option<Seq<char>>
    decreases keys.len(),
{
    if keys.len() == 0 {
        None
    } else {
        match json_str(entry_lookup(es, keys[0])) {
            Some(s) => if !is_blank(s) {
                Some(s)
            } else {
                direct_hit(es, keys.drop_first())
            },
            None => direct_hit(es, keys.drop_first()),
        }
    }
}

/// The first non-blank string stored under one of `keys`, searching an
/// object's own members (in the order of `keys`) before its children (in
/// key order), and an array's items in order.
pub open spec fn first_string(v: JsonValue, keys: Seq<Seq<char>>) -> Option<Seq<char>>
    decreases v,
{
    match v {
        JsonValue::Object(es) => match direct_hit(es@, keys) {
            Some(s) => Some(s),
            None => first_string_entries(es@, keys),
        },
        JsonValue::Array(items) => first_string_items(items@, keys),
        _ => None,
    }
}

pub open spec fn first_string_entries(es: Seq<(String, JsonValue)>, keys: Seq<Seq<char>>) -> Option<
    Seq<char>,
>
    decreases es,
{
    if es.len() == 0 {
        None
    } else {
        match first_string(es[0].1, keys) {
            Some(s) => Some(s),
            None => first_string_entries(es.drop_first(), keys),
        }
    }
}

pub open spec fn first_string_items(items: Seq<JsonValue>, keys: Seq<Seq<char>>) -> Option<
    Seq<char>,
>
    decreases items,
{
    if items.len() == 0 {
        None
    } else {
        match first_string(items[0], keys) {
            Some(s) => Some(s),
            None => first_string_items(items.drop_first(), keys),
        }
    }
}

pub open spec fn keys_view(keys: Seq<&str>) -> Seq<Seq<char>> {
    keys.map_values(|k: &str| k@)
}

fn direct_hit_exec(es: &Vec<(String, JsonValue)>, keys: &[&str]) -> (res: Option<String>)
    ensures
        crate::text::opt_view(res) == direct_hit(es@, keys_view(keys@)),
{
    let mut k: usize = 0;
    assert(keys_view(keys@).skip(0) =~= keys_view(keys@));
    while k < keys.len()
        invariant
            k <= keys.len(),
            direct_hit(es@, keys_view(keys@)) == direct_hit(es@, keys_view(keys@).skip(k as int)),
        decreases keys.len() - k,
    {
        let ghost rest = keys_view(keys@).skip(k as int);
        assert(rest.drop_first() =~= keys_view(keys@).skip(k + 1));
        assert(rest[0] == keys@[k as int]@);
        match as_str(lookup(es, keys[k])) {
            Some(s) => {
                if !is_blank_str(s.as_str()) {
                    return Some(s);
                }
            },
            None => {},
        }
        k = k + 1;
    }
    None
}

/// The first non-blank string stored under one of `keys` anywhere in `v`,
/// searched depth first.
#[verifier::loop_isolation(false)]
pub fn first_string_for_keys(v: &JsonValue, keys: &[&str]) -> (res: Option<String>)
    ensures
        crate::text::opt_view(res) == first_string(*v, keys_view(keys@)),
    decreases v,
{
    match v {
        JsonValue::Object(es) => {
            match direct_hit_exec(es, keys) {
                Some(s) => {
                    return Some(s);
                },
                None => {},
            }
            let mut i: usize = 0;
            assert(es@.skip(0) =~= es@);
            while i < es.len()
                invariant
                    i <= es.len(),
                    first_string_entries(es@, keys_view(keys@)) == first_string_entries(
                        es@.skip(i as int),
                        keys_view(keys@),
                    ),
                decreases es.len() - i,
            {
                assert(es@.skip(i as int).drop_first() =~= es@.skip(i + 1));
                assert(es@.skip(i as int)[0] == es@[i as int]);
                proof {
                    assert(decreases_to!(*v => es));
                    assert(decreases_to!(es => es[i as int]));
                    assert(decreases_to!(es[i as int] => es[i as int].1));
                }
                match first_string_for_keys(&es[i].1, keys) {
                    Some(s) => {
                        return Some(s);
                    },
                    None => {},
                }
                i = i + 1;
            }
            None
        },
        JsonValue::Array(items) => {
            let mut i: usize = 0;
            assert(items@.skip(0) =~= items@);
            while i < items.len()
                invariant
                    i <= items.len(),
                    first_string_items(items@, keys_view(keys@)) == first_string_items(
                        items@.skip(i as int),
                        keys_view(keys@),
                    ),
                decreases items.len() - i,
            {
                assert(items@.skip(i as int).drop_first() =~= items@.skip(i + 1));
                assert(items@.skip(i as int)[0] == items@[i as int]);
                proof {
                    assert(decreases_to!(*v => items));
                    assert(decreases_to!(items => items[i as int]));
                }
                match first_string_for_keys(&items[i], keys) {
                    Some(s) => {
                        return Some(s);
                    },
                    None => {},
                }
                i = i + 1;
            }
            None
        },
        _ => None,
    }
}

} // verus!
