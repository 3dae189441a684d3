//! Trusted interface to `serde_json`, plus small verified helpers on it.
//!
//! JSON values are carried through the library as opaque `serde_json::Value`s.
//! What the verified code can observe of a value is expressed through a few
//! uninterpreted names (`json_of`, `j_get`, `j_str`, ...); each trusted
//! wrapper below ties one `serde_json` call to those names.

use serde_json::Value;
use vstd::prelude::*;

verus! {

#[verifier::external_type_specification]
#[verifier::external_body]
pub struct ExValue(serde_json::Value);

#[verifier::external_type_specification]
#[verifier::external_body]
#[verifier::reject_recursive_types(K)]
#[verifier::reject_recursive_types(V)]
pub struct ExJsonMap<K, V>(serde_json::Map<K, V>);

/// A JSON object under construction.
pub type JsonMap = serde_json::Map<String, Value>;

/// The JSON value that a piece of text parses to, if it is valid JSON.
pub uninterp spec fn json_of(s: Seq<char>) -> Option<Value>;

/// The member of a JSON value under a key, if the value is an object
/// holding that key.
pub uninterp spec fn j_get(v: Value, k: Seq<char>) -> Option<Value>;

/// The characters of a JSON value, if it is a string.
pub uninterp spec fn j_str(v: Value) -> Option<Seq<char>>;

/// The boolean a JSON value holds, if it is a boolean.
pub uninterp spec fn j_bool(v: Value) -> Option<bool>;

/// The signed integer a JSON value holds, if it is an integer in `i64` range.
pub uninterp spec fn j_i64(v: Value) -> Option<i64>;

/// The elements of a JSON value, if it is an array.
pub uninterp spec fn j_arr(v: Value) -> Option<Seq<Value>>;

/// Whether a JSON value is an object.
pub uninterp spec fn j_is_obj(v: Value) -> bool;

/// The serialized byte rendering of a JSON value.
pub uninterp spec fn json_bytes(v: Value) -> Seq<u8>;

/// The entries held by a `serde_json` object map.
pub uninterp spec fn map_entries(m: JsonMap) -> Map<Seq<char>, Value>;

/// Relies on `serde_json::from_str::<Value>`: parsing is a pure function of
/// the input text and succeeds exactly on valid JSON.
#[verifier::external_body]
pub fn parse_json(s: &str) -> (r: Result<Value, String>)
    ensures
        r matches Ok(v) ==> json_of(s@) == Some(v),
        r is Err ==> json_of(s@) is None,
{
    serde_json::from_str(s).map_err(|e| e.to_string())
}

/// Relies on `serde_json::Value::get`: returns the member under the key of
/// an object, `None` for other values or absent keys.
#[verifier::external_body]
pub fn get_field(v: &Value, k: &str) -> (r: Option<Value>)
    ensures
        r matches Some(f) ==> j_get(*v, k@) == Some(f),
        r is None ==> j_get(*v, k@) is None,
{
    v.get(k).cloned()
}

/// Relies on `serde_json::Value::as_str`: returns the characters of a JSON
/// string, `None` for any other value.
#[verifier::external_body]
pub fn as_str_string(v: &Value) -> (r: Option<String>)
    ensures
        r matches Some(s) ==> j_str(*v) == Some(s@),
        r is None ==> j_str(*v) is None,
{
    v.as_str().map(|s| s.to_string())
}

/// Relies on `serde_json::Value::as_bool`.
#[verifier::external_body]
pub fn as_bool_opt(v: &Value) -> (r: Option<bool>)
    ensures
        r == j_bool(*v),
{
    v.as_bool()
}

/// Relies on `serde_json::Value::as_i64`.
#[verifier::external_body]
pub fn as_i64_opt(v: &Value) -> (r: Option<i64>)
    ensures
        r == j_i64(*v),
{
    v.as_i64()
}

/// Relies on `serde_json::Value::as_array`: returns the elements of a JSON
/// array, `None` for any other value.
#[verifier::external_body]
pub fn as_array_vec(v: &Value) -> (r: Option<Vec<Value>>)
    ensures
        r matches Some(a) ==> j_arr(*v) == Some(a@),
        r is None ==> j_arr(*v) is None,
{
    v.as_array().cloned()
}

/// Relies on `serde_json::Value::is_object`.
#[verifier::external_body]
pub fn is_object(v: &Value) -> (r: bool)
    ensures
        r == j_is_obj(*v),
{
    v.is_object()
}

/// Relies on `serde_json::Value`'s derived `Clone`: the copy is the
/// same value.
pub assume_specification[ <Value as Clone>::clone ](v: &Value) -> (r: Value)
    ensures
        r == *v,
;

/// The entry map of an object that holds nothing.
pub open spec fn no_entries() -> Map<Seq<char>, Value> {
    Map::empty()
}

/// Relies on `serde_json::Map::new`: a fresh object map holds no entries.
#[verifier::external_body]
pub fn obj_new() -> (r: JsonMap)
    ensures
        map_entries(r) == no_entries(),
{
    serde_json::Map::new()
}

/// Relies on `serde_json::Map::insert`: the entry is added, all others kept.
#[verifier::external_body]
pub fn obj_insert(m: JsonMap, k: &str, v: Value) -> (r: JsonMap)
    ensures
        map_entries(r) == map_entries(m).insert(k@, v),
{
    let mut m = m;
    m.insert(k.to_string(), v);
    m
}

/// Relies on `serde_json::Value::Object` and `Value::get`: a member lookup
/// on an object value is a lookup in its entry map.
#[verifier::external_body]
pub fn obj_to_value(m: JsonMap) -> (r: Value)
    ensures
        forall|k: Seq<char>|
            #[trigger] j_get(r, k) == (if map_entries(m).dom().contains(k) {
                Some(map_entries(m)[k])
            } else {
                None::<Value>
            }),
{
    Value::Object(m)
}

/// Relies on `serde_json::Value::String` and `Value::as_str`.
#[verifier::external_body]
pub fn str_to_value(s: &str) -> (r: Value)
    ensures
        j_str(r) == Some(s@),
{
    Value::String(s.to_string())
}

/// Relies on `serde_json::Value::Bool` and `Value::as_bool`.
#[verifier::external_body]
pub fn bool_to_value(b: bool) -> (r: Value)
    ensures
        j_bool(r) == Some(b),
{
    Value::Bool(b)
}

/// Relies on `serde_json::Value::from` for `i64` and `Value::as_i64`.
#[verifier::external_body]
pub fn i64_to_value(i: i64) -> (r: Value)
    ensures
        j_i64(r) == Some(i),
{
    Value::from(i)
}

/// Relies on `serde_json::Value::Array` and `Value::as_array`.
#[verifier::external_body]
pub fn arr_to_value(xs: Vec<Value>) -> (r: Value)
    ensures
        j_arr(r) == Some(xs@),
{
    Value::Array(xs)
}

/// Relies on `serde_json::Value::Null`: null is not a string, array,
/// boolean or integer.
#[verifier::external_body]
pub fn null_value() -> (r: Value)
    ensures
        j_str(r) is None,
        j_arr(r) is None,
        j_bool(r) is None,
        j_i64(r) is None,
{
    Value::Null
}

/// Relies on `serde_json::to_vec`: serialization of a JSON value is a pure
/// function of the value.
#[verifier::external_body]
pub fn to_json_bytes(v: &Value) -> (r: Result<Vec<u8>, String>)
    ensures
        r matches Ok(b) ==> b@ == json_bytes(*v),
{
    serde_json::to_vec(v).map_err(|e| e.to_string())
}

/// The wire member names the codecs use are pairwise distinct, so a
/// lookup in a built object resolves past the other insertions.
pub proof fn lemma_wire_keys_distinct()
    ensures
        "timeout"@ != "memory"@,
        "timeout"@ != "logsize"@,
        "timeout"@ != "concurrency"@,
        "memory"@ != "logsize"@,
        "memory"@ != "concurrency"@,
        "logsize"@ != "concurrency"@,
        "kind"@ != "code"@,
        "kind"@ != "image"@,
        "kind"@ != "init"@,
        "kind"@ != "main"@,
        "kind"@ != "components"@,
        "kind"@ != "binary"@,
        "code"@ != "image"@,
        "code"@ != "init"@,
        "code"@ != "main"@,
        "code"@ != "components"@,
        "code"@ != "binary"@,
        "image"@ != "init"@,
        "image"@ != "main"@,
        "image"@ != "components"@,
        "image"@ != "binary"@,
        "init"@ != "main"@,
        "init"@ != "components"@,
        "init"@ != "binary"@,
        "main"@ != "components"@,
        "main"@ != "binary"@,
        "components"@ != "binary"@,
        "namespace"@ != "name"@,
        "namespace"@ != "version"@,
        "namespace"@ != "error"@,
        "namespace"@ != "publish"@,
        "namespace"@ != "updated"@,
        "namespace"@ != "limits"@,
        "namespace"@ != "exec"@,
        "namespace"@ != "annotations"@,
        "name"@ != "version"@,
        "name"@ != "error"@,
        "name"@ != "publish"@,
        "name"@ != "updated"@,
        "name"@ != "limits"@,
        "name"@ != "exec"@,
        "name"@ != "annotations"@,
        "version"@ != "error"@,
        "version"@ != "publish"@,
        "version"@ != "updated"@,
        "version"@ != "limits"@,
        "version"@ != "exec"@,
        "version"@ != "annotations"@,
        "error"@ != "publish"@,
        "error"@ != "updated"@,
        "error"@ != "limits"@,
        "error"@ != "exec"@,
        "error"@ != "annotations"@,
        "publish"@ != "updated"@,
        "publish"@ != "limits"@,
        "publish"@ != "exec"@,
        "publish"@ != "annotations"@,
        "updated"@ != "limits"@,
        "updated"@ != "exec"@,
        "updated"@ != "annotations"@,
        "limits"@ != "exec"@,
        "limits"@ != "annotations"@,
        "exec"@ != "annotations"@,
        "key"@ != "value"@,
        "namespace"@ != "parameters"@,
        "name"@ != "parameters"@,
        "version"@ != "parameters"@,
        "publish"@ != "parameters"@,
        "updated"@ != "parameters"@,
        "annotations"@ != "parameters"@,
        "parameters"@ != "limits"@,
        "name"@ != "trigger"@,
        "name"@ != "action"@,
        "name"@ != "status"@,
        "trigger"@ != "action"@,
        "trigger"@ != "status"@,
        "action"@ != "status"@,
        "code"@ != "error"@,
{
    reveal_strlit("action");
    reveal_strlit("annotations");
    reveal_strlit("binary");
    reveal_strlit("code");
    reveal_strlit("components");
    reveal_strlit("concurrency");
    reveal_strlit("error");
    reveal_strlit("exec");
    reveal_strlit("image");
    reveal_strlit("init");
    reveal_strlit("key");
    reveal_strlit("kind");
    reveal_strlit("limits");
    reveal_strlit("logsize");
    reveal_strlit("main");
    reveal_strlit("memory");
    reveal_strlit("name");
    reveal_strlit("namespace");
    reveal_strlit("parameters");
    reveal_strlit("publish");
    reveal_strlit("status");
    reveal_strlit("timeout");
    reveal_strlit("trigger");
    reveal_strlit("updated");
    reveal_strlit("value");
    reveal_strlit("version");
    assert("action"@.len() == 6);
    assert("annotations"@.len() == 11);
    assert("binary"@.len() == 6);
    assert("code"@.len() == 4);
    assert("components"@.len() == 10);
    assert("concurrency"@.len() == 11);
    assert("error"@.len() == 5);
    assert("exec"@.len() == 4);
    assert("image"@.len() == 5);
    assert("init"@.len() == 4);
    assert("key"@.len() == 3);
    assert("kind"@.len() == 4);
    assert("limits"@.len() == 6);
    assert("logsize"@.len() == 7);
    assert("main"@.len() == 4);
    assert("memory"@.len() == 6);
    assert("name"@.len() == 4);
    assert("namespace"@.len() == 9);
    assert("parameters"@.len() == 10);
    assert("publish"@.len() == 7);
    assert("status"@.len() == 6);
    assert("timeout"@.len() == 7);
    assert("trigger"@.len() == 7);
    assert("updated"@.len() == 7);
    assert("value"@.len() == 5);
    assert("version"@.len() == 7);
    assert("timeout"@[0] == 't' && "logsize"@[0] == 'l');
    assert("timeout"@ != "logsize"@);
    assert("kind"@[0] == 'k' && "code"@[0] == 'c');
    assert("kind"@ != "code"@);
    assert("kind"@[0] == 'k' && "init"@[0] == 'i');
    assert("kind"@ != "init"@);
    assert("kind"@[0] == 'k' && "main"@[0] == 'm');
    assert("kind"@ != "main"@);
    assert("code"@[0] == 'c' && "init"@[0] == 'i');
    assert("code"@ != "init"@);
    assert("code"@[0] == 'c' && "main"@[0] == 'm');
    assert("code"@ != "main"@);
    assert("init"@[0] == 'i' && "main"@[0] == 'm');
    assert("init"@ != "main"@);
    assert("name"@[0] == 'n' && "exec"@[0] == 'e');
    assert("name"@ != "exec"@);
    assert("version"@[0] == 'v' && "publish"@[0] == 'p');
    assert("version"@ != "publish"@);
    assert("version"@[0] == 'v' && "updated"@[0] == 'u');
    assert("version"@ != "updated"@);
    assert("publish"@[0] == 'p' && "updated"@[0] == 'u');
    assert("publish"@ != "updated"@);
    assert("action"@[0] == 'a' && "status"@[0] == 's');
    assert("action"@ != "status"@);
}

/// The member under a key flattened to its characters: the empty sequence
/// when the key is absent or its member is not a string.
pub open spec fn field_str(v: Value, k: Seq<char>) -> Seq<char> {
    match j_get(v, k) {
        Some(f) => match j_str(f) {
            Some(s) => s,
            None => Seq::empty(),
        },
        None => Seq::empty(),
    }
}

/// The member under a key as characters, `None` when absent or not a string.
pub open spec fn field_str_opt(v: Value, k: Seq<char>) -> Option<Seq<char>> {
    match j_get(v, k) {
        Some(f) => j_str(f),
        None => None,
    }
}

/// The member under a key as a boolean, or the default.
pub open spec fn field_bool(v: Value, k: Seq<char>, d: bool) -> bool {
    match j_get(v, k) {
        Some(f) => match j_bool(f) {
            Some(b) => b,
            None => d,
        },
        None => d,
    }
}

/// The member under a key as an integer, or the default.
pub open spec fn field_i64(v: Value, k: Seq<char>, d: i64) -> i64 {
    match j_get(v, k) {
        Some(f) => match j_i64(f) {
            Some(i) => i,
            None => d,
        },
        None => d,
    }
}

/// The member under a key as a boolean, `None` when absent or not a
/// boolean.
pub open spec fn field_bool_opt(v: Value, k: Seq<char>) -> Option<bool> {
    match j_get(v, k) {
        Some(f) => j_bool(f),
        None => None,
    }
}

/// The characters of a JSON string value, empty for any other value.
pub open spec fn str_of(v: Value) -> Seq<char> {
    match j_str(v) {
        Some(s) => s,
        None => Seq::empty(),
    }
}

/// The elements of an array member, empty when absent or not an array.
pub open spec fn arr_items(v: Value, k: Seq<char>) -> Seq<Value> {
    match j_get(v, k) {
        Some(a) => match j_arr(a) {
            Some(xs) => xs,
            None => Seq::empty(),
        },
        None => Seq::empty(),
    }
}

/// The member under a key as an optional integer.
pub open spec fn field_i64_opt(v: Value, k: Seq<char>) -> Option<i64> {
    match j_get(v, k) {
        Some(f) => j_i64(f),
        None => None,
    }
}

/// Reads a string member, defaulting to the empty string.
pub fn get_str_field(v: &Value, k: &str) -> (r: String)
    ensures
        r@ == field_str(*v, k@),
{
    match get_field(v, k) {
        Some(f) => match as_str_string(&f) {
            Some(s) => s,
            None => String::new(),
        },
        None => String::new(),
    }
}

/// Reads a boolean member, defaulting when absent or of another type.
pub fn get_bool_field(v: &Value, k: &str, d: bool) -> (r: bool)
    ensures
        r == field_bool(*v, k@, d),
{
    match get_field(v, k) {
        Some(f) => match as_bool_opt(&f) {
            Some(b) => b,
            None => d,
        },
        None => d,
    }
}

/// Reads an integer member, defaulting when absent or of another type.
pub fn get_i64_field(v: &Value, k: &str, d: i64) -> (r: i64)
    ensures
        r == field_i64(*v, k@, d),
{
    match get_field(v, k) {
        Some(f) => match as_i64_opt(&f) {
            Some(i) => i,
            None => d,
        },
        None => d,
    }
}

/// Reads an optional integer member.
pub fn get_opt_i64_field(v: &Value, k: &str) -> (r: Option<i64>)
    ensures
        r == field_i64_opt(*v, k@),
{
    match get_field(v, k) {
        Some(f) => as_i64_opt(&f),
        None => None,
    }
}

/// Reads a member value as it stands, defaulting to JSON null when absent.
pub fn get_value_field_or_null(v: &Value, k: &str) -> (r: Value)
    ensures
        j_get(*v, k@) matches Some(f) ==> r == f,
        j_get(*v, k@) is None ==> j_str(r) is None && j_arr(r) is None && j_bool(r) is None
            && j_i64(r) is None,
{
    match get_field(v, k) {
        Some(f) => f,
        None => null_value(),
    }
}

} // verus!
