//! Trusted boundary to yaml-rust.
//!
//! The YAML configuration text is parsed by yaml-rust.  Each reader
//! below takes the text and a key path and extracts one value of the
//! first document: yaml-rust is deterministic in its input, so each
//! result is a function of the text and keys, and carries that
//! function's name in its contract.  Which settings are required,
//! and what they become, is decided in verified code.

use vstd::prelude::*;

verus! {

/// Whether a text is well-formed YAML, as yaml-rust scans it; the
/// answer depends on the text alone.
pub uninterp spec fn yaml_text_ok(s: Seq<char>) -> bool;

/// The integer under `k1.k2` of the text's first document, when there
/// is one.
pub uninterp spec fn yaml_i64_of2(s: Seq<char>, k1: Seq<char>, k2: Seq<char>) -> Option<i64>;

/// The integer under `k1.k2.k3` of the text's first document, when
/// there is one.
pub uninterp spec fn yaml_i64_of3(
    s: Seq<char>,
    k1: Seq<char>,
    k2: Seq<char>,
    k3: Seq<char>,
) -> Option<i64>;

/// The string under `k1.k2` of the text's first document, when there
/// is one.
pub uninterp spec fn yaml_str_of2(s: Seq<char>, k1: Seq<char>, k2: Seq<char>) -> Option<Seq<char>>;

/// Whether the text's first document holds anything at all under
/// `k1.k2`.
pub uninterp spec fn yaml_present_of2(s: Seq<char>, k1: Seq<char>, k2: Seq<char>) -> bool;

/// Relies on yaml_rust::YamlLoader::load_from_str: scanning succeeds
/// exactly on well-formed YAML text.
#[verifier::external_body]
pub(crate) fn yaml_is_document(s: &str) -> (r: bool)
    ensures
        r == yaml_text_ok(s@),
{
    yaml_rust::YamlLoader::load_from_str(s).is_ok()
}

/// Relies on yaml-rust's load_from_str, the `Index<&str>` impl and
/// Yaml::as_i64: the integer two keys down, a function of text and
/// keys alone.
#[verifier::external_body]
pub(crate) fn yaml_i64_key2(s: &str, k1: &str, k2: &str) -> (r: Option<i64>)
    ensures
        r == yaml_i64_of2(s@, k1@, k2@),
{
    let docs = match yaml_rust::YamlLoader::load_from_str(s) {
        Ok(d) => d,
        Err(_) => return None,
    };
    docs.get(0)?[k1][k2].as_i64()
}

/// Relies on yaml-rust's load_from_str, the `Index<&str>` impl and
/// Yaml::as_i64: the integer three keys down, a function of text and
/// keys alone.
#[verifier::external_body]
pub(crate) fn yaml_i64_key3(s: &str, k1: &str, k2: &str, k3: &str) -> (r: Option<i64>)
    ensures
        r == yaml_i64_of3(s@, k1@, k2@, k3@),
{
    let docs = match yaml_rust::YamlLoader::load_from_str(s) {
        Ok(d) => d,
        Err(_) => return None,
    };
    docs.get(0)?[k1][k2][k3].as_i64()
}

/// Relies on yaml-rust's load_from_str, the `Index<&str>` impl and
/// Yaml::as_str: the string two keys down, a function of text and
/// keys alone.
#[verifier::external_body]
pub(crate) fn yaml_str_key2(s: &str, k1: &str, k2: &str) -> (r: Option<String>)
    ensures
        match r {
            Some(t) => yaml_str_of2(s@, k1@, k2@) == Some(t@),
            None => yaml_str_of2(s@, k1@, k2@) is None,
        },
{
    let docs = match yaml_rust::YamlLoader::load_from_str(s) {
        Ok(d) => d,
        Err(_) => return None,
    };
    docs.get(0)?[k1][k2].as_str().map(|t| t.to_string())
}

/// Relies on yaml-rust's load_from_str, the `Index<&str>` impl and
/// Yaml::is_badvalue: whether anything stands two keys down, a
/// function of text and keys alone.
#[verifier::external_body]
pub(crate) fn yaml_present_key2(s: &str, k1: &str, k2: &str) -> (r: bool)
    ensures
        r == yaml_present_of2(s@, k1@, k2@),
{
    let docs = match yaml_rust::YamlLoader::load_from_str(s) {
        Ok(d) => d,
        Err(_) => return false,
    };
    match docs.get(0) {
        Some(doc) => !doc[k1][k2].is_badvalue(),
        None => false,
    }
}

} // verus!
