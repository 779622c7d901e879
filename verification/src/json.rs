//! Trusted access to the JSON parsing primitives.
//!
//! The JSON parser is an external collaborator: a parsed document is opaque
//! to verification. Each primitive's result is a function of its arguments
//! alone, so it is given a name (`doc_of`, `member_of`, ...), and each
//! wrapper's contract ties its call to that name. The structural decoding
//! rules — which fields are required, and what a well-formed payload
//! yields — live in `esios` as verified code over these names.

use vstd::prelude::*;

verus! {

#[verifier::external_type_specification]
#[verifier::external_body]
pub struct ExValue(serde_json::Value);

#[verifier::external_type_specification]
#[verifier::external_body]
pub struct ExNumber(serde_json::Number);

/// The document `bytes` parse to, `None` when they are not valid JSON.
pub uninterp spec fn doc_of(bytes: Seq<u8>) -> Option<serde_json::Value>;

/// The member of object `v` under `key`, `None` when `v` is not an object
/// or has no such member.
pub uninterp spec fn member_of(v: serde_json::Value, key: Seq<char>) -> Option<serde_json::Value>;

/// The elements of `v`, `None` when `v` is not an array.
pub uninterp spec fn elems_of(v: serde_json::Value) -> Option<Seq<serde_json::Value>>;

/// The text of `v`, `None` when `v` is not a string.
pub uninterp spec fn str_of(v: serde_json::Value) -> Option<Seq<char>>;

/// The value of `v`, `None` when `v` is not an unsigned integer
/// representable in 64 bits.
pub uninterp spec fn u64_of(v: serde_json::Value) -> Option<u64>;

/// The number `v` holds, `None` when `v` is not a number.
pub uninterp spec fn number_of(v: serde_json::Value) -> Option<serde_json::Number>;

/// The decimal text denoting the number `n`.
pub uninterp spec fn text_of_number(n: serde_json::Number) -> Seq<char>;

/// Relies on serde_json::from_slice::<Value>: parses `bytes` as one JSON
/// document — the same bytes always parse to the same document; on failure
/// the parser's diagnostic message is preserved.
#[verifier::external_body]
pub(crate) fn json_from_slice(bytes: &Vec<u8>) -> (r: Result<serde_json::Value, String>)
    ensures
        r is Ok <==> doc_of(bytes@) is Some,
        r matches Ok(v) ==> doc_of(bytes@) matches Some(d) && v == d,
{
    serde_json::from_slice(bytes.as_slice()).map_err(|e| e.to_string())
}

/// Relies on serde_json::Value::get: the member of an object under `key`;
/// `None` when `v` is not an object or has no such member.
#[verifier::external_body]
pub(crate) fn value_get<'a>(v: &'a serde_json::Value, key: &str) -> (r: Option<
    &'a serde_json::Value,
>)
    ensures
        r is Some <==> member_of(*v, key@) is Some,
        r matches Some(m) ==> member_of(*v, key@) matches Some(d) && *m == d,
{
    v.get(key)
}

/// Relies on serde_json::Value::as_array: the elements when `v` is an
/// array, `None` otherwise.
#[verifier::external_body]
pub(crate) fn value_as_array<'a>(v: &'a serde_json::Value) -> (r: Option<
    &'a Vec<serde_json::Value>,
>)
    ensures
        r is Some <==> elems_of(*v) is Some,
        r matches Some(a) ==> elems_of(*v) matches Some(es) && a@ == es,
{
    v.as_array()
}

/// Relies on serde_json::Value::as_str: the text when `v` is a string,
/// `None` otherwise.
#[verifier::external_body]
pub(crate) fn value_as_str<'a>(v: &'a serde_json::Value) -> (r: Option<&'a str>)
    ensures
        r is Some <==> str_of(*v) is Some,
        r matches Some(s) ==> str_of(*v) matches Some(t) && s@ == t,
{
    v.as_str()
}

/// Relies on serde_json::Value::as_u64: the value when `v` is an unsigned
/// integer representable in 64 bits, `None` otherwise.
#[verifier::external_body]
pub(crate) fn value_as_u64(v: &serde_json::Value) -> (r: Option<u64>)
    ensures
        r == u64_of(*v),
{
    v.as_u64()
}

/// Relies on serde_json::Value::as_number: the number when `v` is one,
/// `None` otherwise.
#[verifier::external_body]
pub(crate) fn value_as_number<'a>(v: &'a serde_json::Value) -> (r: Option<&'a serde_json::Number>)
    ensures
        r is Some <==> number_of(*v) is Some,
        r matches Some(n) ==> number_of(*v) matches Some(d) && *n == d,
{
    v.as_number()
}

/// Relies on Display for serde_json::Number: the decimal text denoting the
/// number, the same on every machine.
#[verifier::external_body]
pub(crate) fn number_to_text(n: &serde_json::Number) -> (r: String)
    ensures
        r@ == text_of_number(*n),
{
    n.to_string()
}

} // verus!
