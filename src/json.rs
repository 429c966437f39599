//! Declarations of the JSON types of `serde_json` and the encoders that the
//! library relies on.

use vstd::prelude::*;

verus! {

/// `serde_json::Value`, carried through the library as an opaque value.
#[verifier::external_type_specification]
#[verifier::external_body]
pub struct ExJsonValue(serde_json::Value);

/// `serde_json::Error`, the cause of a failed serialization.
#[verifier::external_type_specification]
#[verifier::external_body]
pub struct ExJsonError(serde_json::Error);

/// The bytes of the JSON string literal that encodes `s`.
pub uninterp spec fn json_string_of(s: Seq<char>) -> Seq<u8>;

/// Relies on `serde_json::to_vec` on a `str`: the JSON string literal of `s`,
/// which depends on the characters of `s` alone. `to_vec` fails only where a
/// `Serialize` impl fails or a map has a non-string key; a `str` does
/// neither.
#[verifier::external_body]
pub(crate) fn encode_json_string(s: &str) -> (r: Result<Vec<u8>, serde_json::Error>)
    ensures
        r is Ok,
        r is Ok ==> r->Ok_0@ == json_string_of(s@),
{
    serde_json::to_vec(s)
}

/// Relies on `serde_json::to_vec` on a JSON value: its compact text. A
/// `Value` serializes without fail, since its maps are keyed by strings.
#[verifier::external_body]
pub(crate) fn encode_json_value(v: &serde_json::Value) -> (r: Result<Vec<u8>, serde_json::Error>)
    ensures
        r is Ok,
{
    serde_json::to_vec(v)
}

} // verus!
