//! Trusted boundary to serde_json.
//!
//! JSON parsing is done by serde_json.  Each extractor below reads
//! one field of a document, named by the text and the key path alone:
//! serde_json is deterministic in its input, so each result below is
//! a function of the text and keys, and carries that function's name
//! in its contract.  Every decision about the values — defaults,
//! required fields, ranges — is made, and proved, in verified code.

use vstd::prelude::*;

verus! {

/// Whether a text is a well-formed JSON document, as serde_json
/// accepts it; the answer depends on the text alone.
pub uninterp spec fn json_text_ok(s: Seq<char>) -> bool;

/// The unsigned number under `key` of the document `s`, when there is
/// one.
pub uninterp spec fn json_u64_of(s: Seq<char>, key: Seq<char>) -> Option<u64>;

/// The boolean under `key` of the document `s`, when there is one.
pub uninterp spec fn json_bool_of(s: Seq<char>, key: Seq<char>) -> Option<bool>;

/// The string under `key` of the document `s`, when there is one.
pub uninterp spec fn json_str_of(s: Seq<char>, key: Seq<char>) -> Option<Seq<char>>;

/// The unsigned number under `k1.k2` of the document `s`, when there
/// is one.
pub uninterp spec fn json_u64_of2(s: Seq<char>, k1: Seq<char>, k2: Seq<char>) -> Option<u64>;

/// The signed number under `k1.k2` of the document `s`, when there is
/// one.
pub uninterp spec fn json_i64_of2(s: Seq<char>, k1: Seq<char>, k2: Seq<char>) -> Option<i64>;

/// The raw bit pattern of the number under `k1.k2` of the document
/// `s`, when there is one.
pub uninterp spec fn json_f64_bits_of2(s: Seq<char>, k1: Seq<char>, k2: Seq<char>) -> Option<u64>;

/// The string under `k1.k2.k3` of the document `s`, when there is
/// one.
pub uninterp spec fn json_str_of3(
    s: Seq<char>,
    k1: Seq<char>,
    k2: Seq<char>,
    k3: Seq<char>,
) -> Option<Seq<char>>;

/// Relies on serde_json::from_str::<Value>: parsing succeeds exactly
/// on well-formed JSON text.
#[verifier::external_body]
pub(crate) fn json_is_document(s: &str) -> (r: bool)
    ensures
        r == json_text_ok(s@),
{
    serde_json::from_str::<serde_json::Value>(s).is_ok()
}

/// Relies on serde_json's from_str, Value::get and Value::as_u64: the
/// unsigned number one key down, a function of text and key alone.
#[verifier::external_body]
pub(crate) fn json_u64_key(s: &str, key: &str) -> (r: Option<u64>)
    ensures
        r == json_u64_of(s@, key@),
{
    let v: serde_json::Value = match serde_json::from_str(s) {
        Ok(v) => v,
        Err(_) => return None,
    };
    v.get(key)?.as_u64()
}

/// Relies on serde_json's from_str, Value::get and Value::as_bool:
/// the boolean one key down, a function of text and key alone.
#[verifier::external_body]
pub(crate) fn json_bool_key(s: &str, key: &str) -> (r: Option<bool>)
    ensures
        r == json_bool_of(s@, key@),
{
    let v: serde_json::Value = match serde_json::from_str(s) {
        Ok(v) => v,
        Err(_) => return None,
    };
    v.get(key)?.as_bool()
}

/// Relies on serde_json's from_str, Value::get and Value::as_str: the
/// string one key down, a function of text and key alone.
#[verifier::external_body]
pub(crate) fn json_str_key(s: &str, key: &str) -> (r: Option<String>)
    ensures
        match r {
            Some(t) => json_str_of(s@, key@) == Some(t@),
            None => json_str_of(s@, key@) is None,
        },
{
    let v: serde_json::Value = match serde_json::from_str(s) {
        Ok(v) => v,
        Err(_) => return None,
    };
    v.get(key)?.as_str().map(|t| t.to_string())
}

/// Relies on serde_json's from_str, Value::get and Value::as_u64: the
/// unsigned number two keys down, a function of text and keys alone.
#[verifier::external_body]
pub(crate) fn json_u64_key2(s: &str, k1: &str, k2: &str) -> (r: Option<u64>)
    ensures
        r == json_u64_of2(s@, k1@, k2@),
{
    let v: serde_json::Value = match serde_json::from_str(s) {
        Ok(v) => v,
        Err(_) => return None,
    };
    v.get(k1)?.get(k2)?.as_u64()
}

/// Relies on serde_json's from_str, Value::get and Value::as_i64: the
/// signed number two keys down, a function of text and keys alone.
#[verifier::external_body]
pub(crate) fn json_i64_key2(s: &str, k1: &str, k2: &str) -> (r: Option<i64>)
    ensures
        r == json_i64_of2(s@, k1@, k2@),
{
    let v: serde_json::Value = match serde_json::from_str(s) {
        Ok(v) => v,
        Err(_) => return None,
    };
    v.get(k1)?.get(k2)?.as_i64()
}

/// Relies on serde_json's from_str, Value::get and Value::as_f64,
/// plus std's to_bits on the number: the raw bits of the number two
/// keys down, a function of text and keys alone.
#[verifier::external_body]
pub(crate) fn json_f64_bits_key2(s: &str, k1: &str, k2: &str) -> (r: Option<u64>)
    ensures
        r == json_f64_bits_of2(s@, k1@, k2@),
{
    let v: serde_json::Value = match serde_json::from_str(s) {
        Ok(v) => v,
        Err(_) => return None,
    };
    v.get(k1)?.get(k2)?.as_f64().map(|f| f.to_bits())
}

/// Relies on serde_json's from_str, Value::get and Value::as_str: the
/// string three keys down, a function of text and keys alone.
#[verifier::external_body]
pub(crate) fn json_str_key3(s: &str, k1: &str, k2: &str, k3: &str) -> (r: Option<String>)
    ensures
        match r {
            Some(t) => json_str_of3(s@, k1@, k2@, k3@) == Some(t@),
            None => json_str_of3(s@, k1@, k2@, k3@) is None,
        },
{
    let v: serde_json::Value = match serde_json::from_str(s) {
        Ok(v) => v,
        Err(_) => return None,
    };
    v.get(k1)?.get(k2)?.get(k3)?.as_str().map(|t| t.to_string())
}

} // verus!
