//! Trusted boundary to the outside crates.
//!
//! Each function here wraps exactly one call into an outside crate; Verus
//! believes the stated contract and never reads the body. Everything the rest
//! of the crate concludes from these contracts rests on the wrapped crate
//! behaving as its source shows.

use vstd::prelude::*;

verus! {

/// What `cookie::Cookie::parse` yields on a cookie string: the (name, value)
/// pair on success, nothing on a parse error. The result depends on the
/// characters of the string alone.
pub uninterp spec fn cookie_parse_of(s: Seq<char>) -> Option<(Seq<char>, Seq<char>)>;

/// Relies on `cookie::Cookie::parse` (and the `name`/`value` accessors of the
/// parsed cookie) to split one cookie string into its name/value pair;
/// malformed strings yield `None`.
#[verifier::external_body]
pub(crate) fn parse_cookie_pair(s: &str) -> (r: Option<(String, String)>)
    ensures
        match r {
            Some(pair) => cookie_parse_of(s@) == Some((pair.0@, pair.1@)),
            None => cookie_parse_of(s@) is None,
        },
{
    match cookie::Cookie::parse(s) {
        Ok(c) => Some((c.name().to_string(), c.value().to_string())),
        Err(_) => None,
    }
}

/// Whether `serde_json::from_str::<serde_json::Value>` accepts a string as
/// JSON; acceptance depends on the characters of the string alone.
pub uninterp spec fn json_parses(s: Seq<char>) -> bool;

/// Relies on `serde_json::from_str::<serde_json::Value>` to decide whether a
/// response body is JSON.
#[verifier::external_body]
pub(crate) fn json_accepts(s: &str) -> (r: bool)
    ensures
        r == json_parses(s@),
{
    serde_json::from_str::<serde_json::Value>(s).is_ok()
}

/// What probing one field of a body yields: nothing when the body is not JSON
/// or the field is absent or null, `Some(None)` for a field that is present
/// but not a boolean, and `Some(Some(b))` for a boolean field. The result
/// depends on the characters of the body and of the key alone.
pub uninterp spec fn json_field_bool_of(s: Seq<char>, key: Seq<char>) -> Option<Option<bool>>;

/// Relies on `serde_json::from_str::<serde_json::Value>` and on the `get`,
/// `is_null` and `as_bool` accessors of `serde_json::Value` to probe one
/// field of a JSON body.
#[verifier::external_body]
pub(crate) fn json_field_bool(body: &str, key: &str) -> (r: Option<Option<bool>>)
    ensures
        r == json_field_bool_of(body@, key@),
{
    let v: serde_json::Value = match serde_json::from_str(body) {
        Ok(v) => v,
        Err(_) => return None,
    };
    match v.get(key) {
        None => None,
        Some(f) => {
            if f.is_null() {
                None
            } else {
                Some(f.as_bool())
            }
        },
    }
}

} // verus!
