//! JSON values as the library carries them: opaque, read and written only by
//! `serde_json`.

use serde_json::Value;
use vstd::prelude::*;

verus! {

#[verifier::external_type_specification]
#[verifier::external_body]
pub struct ExJsonValue(Value);

#[verifier::external_type_specification]
#[verifier::external_body]
pub struct ExJsonError(serde_json::Error);

/// The compact JSON text of a value, as `serde_json::to_string` writes it.
pub uninterp spec fn json_text(value: Value) -> Seq<char>;

/// The value that `serde_json::from_slice` reads from `bytes`; `None` where
/// it refuses them.
pub uninterp spec fn json_value(bytes: Seq<u8>) -> Option<Value>;

/// `Clone` for `Value`: the copy is the same value.
pub assume_specification[ <Value as Clone>::clone ](value: &Value) -> (copy: Value)
    ensures
        copy == *value,
;

/// `serde_json::to_string` on a `Value`: the value's compact JSON text. It
/// always succeeds: a `Value` has string keys only, a number that is not
/// finite is written as `null`, and writing into memory does not fail.
#[verifier::external_body]
pub(crate) fn json_to_string(value: &Value) -> (r: Result<String, serde_json::Error>)
    ensures
        r is Ok,
        r matches Ok(text) ==> text@ == json_text(*value),
{
    serde_json::to_string(value)
}

/// `serde_json::from_slice` at type `Value`: what it reads depends on the
/// bytes alone.
#[verifier::external_body]
pub(crate) fn json_from_slice(bytes: &[u8]) -> (r: Result<Value, serde_json::Error>)
    ensures
        r matches Ok(value) ==> json_value(bytes@) == Some(value),
        r is Err ==> json_value(bytes@) is None,
{
    serde_json::from_slice(bytes)
}

} // verus!
