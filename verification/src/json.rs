//! Trusted extraction of top-level fields from JSON text.
//!
//! The server speaks JSON; the library reads single fields out of a
//! response body through the two wrappers below and reasons about them
//! through the two named extraction functions.

use vstd::prelude::*;

verus! {

/// The string value of the top-level member `key` of the JSON document
/// `body`, as serde_json reads it: `Some` exactly when `body` parses,
/// its top level is an object, and that object's `key` member is a JSON
/// string.  A fixed document and key always give the same answer.
pub uninterp spec fn json_string_field(body: Seq<char>, key: Seq<char>) -> Option<Seq<char>>;

/// The unsigned-integer value of the top-level member `key` of the JSON
/// document `body`, as serde_json reads it: `Some` exactly when `body`
/// parses, its top level is an object, and that object's `key` member is
/// a JSON number representable as a `u64`.
pub uninterp spec fn json_uint_field(body: Seq<char>, key: Seq<char>) -> Option<u64>;

/// Relies on `serde_json::from_str::<Value>`, `Value::get` and
/// `Value::as_str`: each is a pure function of its arguments, so the
/// whole lookup is a function of `body` and `key` alone.
#[verifier::external_body]
pub(crate) fn get_string_field(body: &str, key: &str) -> (r: Option<String>)
    ensures
        r matches Some(v) ==> json_string_field(body@, key@) == Some(v@),
        r is None ==> json_string_field(body@, key@) is None,
{
    let value: serde_json::Value = match serde_json::from_str(body) {
        Ok(v) => v,
        Err(_) => return None,
    };
    match value.get(key) {
        Some(field) => field.as_str().map(|s| s.to_string()),
        None => None,
    }
}

/// Relies on `serde_json::from_str::<Value>`, `Value::get` and
/// `Value::as_u64`: each is a pure function of its arguments, so the
/// whole lookup is a function of `body` and `key` alone.
#[verifier::external_body]
pub(crate) fn get_uint_field(body: &str, key: &str) -> (r: Option<u64>)
    ensures
        r matches Some(n) ==> json_uint_field(body@, key@) == Some(n),
        r is None ==> json_uint_field(body@, key@) is None,
{
    let value: serde_json::Value = match serde_json::from_str(body) {
        Ok(v) => v,
        Err(_) => return None,
    };
    match value.get(key) {
        Some(field) => field.as_u64(),
        None => None,
    }
}

} // verus!
