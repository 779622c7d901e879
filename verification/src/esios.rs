//! Typed results of the service's responses, and their decoders.
//!
//! Decoding is lenient towards extra fields and strict about required ones:
//! a payload missing a required field, or carrying it with the wrong type,
//! yields a `Decode` error — never a panic. Each decoder's contract states,
//! over the named results of the JSON primitives (see `json`), exactly when
//! it succeeds and what each field of its result is, in response order.

use vstd::prelude::*;
use vstd::string::StringExecFns;

use crate::error::Error;
use crate::json::doc_of;
use crate::json::elems_of;
use crate::json::json_from_slice;
use crate::json::member_of;
use crate::json::number_of;
use crate::json::number_to_text;
use crate::json::str_of;
use crate::json::text_of_number;
use crate::json::u64_of;
use crate::json::value_as_array;
use crate::json::value_as_number;
use crate::json::value_as_str;
use crate::json::value_as_u64;
use crate::json::value_get;

verus! {

/// One row of the indicator catalog.
#[derive(Debug)]
pub struct IndicatorsElem {
    pub name: String,
    pub description: String,
    pub id: u32,
}

/// The indicator catalog.
#[derive(Debug)]
pub struct Indicators {
    pub indicators: Vec<IndicatorsElem>,
}

/// One sample of an indicator's time series: the value's decimal text and
/// its timestamp.
#[derive(Debug)]
pub struct IndicatorInnerValue {
    pub value: String,
    pub datetime: String,
}

/// The time-series payload of one indicator over a queried range. The order
/// of `values` is the response's order, preserved.
#[derive(Debug)]
pub struct IndicatorInner {
    pub values_updated_at: String,
    pub values: Vec<IndicatorInnerValue>,
}

/// The indicator-detail response.
#[derive(Debug)]
pub struct Indicator {
    pub indicator: IndicatorInner,
}

/// The text of the member of `v` under `key`, `None` when absent or not a
/// string.
pub open spec fn member_str(v: serde_json::Value, key: Seq<char>) -> Option<Seq<char>> {
    match member_of(v, key) {
        Some(m) => str_of(m),
        None => None,
    }
}

/// The value of the member of `v` under `key`, `None` when absent or not an
/// unsigned 64-bit integer.
pub open spec fn member_u64(v: serde_json::Value, key: Seq<char>) -> Option<u64> {
    match member_of(v, key) {
        Some(m) => u64_of(m),
        None => None,
    }
}

/// The elements of the member of `v` under `key`, `None` when absent or not
/// an array.
pub open spec fn member_elems(v: serde_json::Value, key: Seq<char>) -> Option<
    Seq<serde_json::Value>,
> {
    match member_of(v, key) {
        Some(m) => elems_of(m),
        None => None,
    }
}

/// The decimal text of the member of `v` under `key`, `None` when absent or
/// not a number.
pub open spec fn member_number_text(v: serde_json::Value, key: Seq<char>) -> Option<Seq<char>> {
    match member_of(v, key) {
        Some(m) => match number_of(m) {
            Some(n) => Some(text_of_number(n)),
            None => None,
        },
        None => None,
    }
}

/// The elements of the catalog payload's `indicators` array, `None` when
/// the bytes do not parse or the array is absent.
pub open spec fn catalog_elems(bytes: Seq<u8>) -> Option<Seq<serde_json::Value>> {
    match doc_of(bytes) {
        Some(doc) => member_elems(doc, "indicators"@),
        None => None,
    }
}

/// Whether one catalog element carries the three required fields.
pub open spec fn summary_fields_ok(e: serde_json::Value) -> bool {
    &&& member_str(e, "name"@) is Some
    &&& member_str(e, "description"@) is Some
    &&& member_u64(e, "id"@) matches Some(i) && i <= u32::MAX
}

/// Whether `row` is the decoding of catalog element `e`.
pub open spec fn summary_matches(row: IndicatorsElem, e: serde_json::Value) -> bool {
    &&& member_str(e, "name"@) matches Some(n) && row.name@ == n
    &&& member_str(e, "description"@) matches Some(d) && row.description@ == d
    &&& member_u64(e, "id"@) matches Some(i) && row.id == i
}

/// Whether `bytes` are a well-formed catalog payload: valid JSON, an
/// `indicators` array, every element with its required fields.
pub open spec fn catalog_shape_ok(bytes: Seq<u8>) -> bool {
    &&& catalog_elems(bytes) is Some
    &&& forall|i: int|
        0 <= i < catalog_elems(bytes)->0.len() ==> summary_fields_ok(
            #[trigger] catalog_elems(bytes)->0[i],
        )
}

/// The `indicator` object of the detail payload, `None` when the bytes do
/// not parse or the object is absent.
pub open spec fn detail_inner(bytes: Seq<u8>) -> Option<serde_json::Value> {
    match doc_of(bytes) {
        Some(doc) => member_of(doc, "indicator"@),
        None => None,
    }
}

/// The elements of the detail payload's `values` array, `None` when absent.
pub open spec fn detail_values(bytes: Seq<u8>) -> Option<Seq<serde_json::Value>> {
    match detail_inner(bytes) {
        Some(inner) => member_elems(inner, "values"@),
        None => None,
    }
}

/// Whether one time-series element carries its two required fields.
pub open spec fn sample_fields_ok(e: serde_json::Value) -> bool {
    &&& member_number_text(e, "value"@) is Some
    &&& member_str(e, "datetime"@) is Some
}

/// Whether `sample` is the decoding of time-series element `e`.
pub open spec fn sample_matches(sample: IndicatorInnerValue, e: serde_json::Value) -> bool {
    &&& member_number_text(e, "value"@) matches Some(t) && sample.value@ == t
    &&& member_str(e, "datetime"@) matches Some(d) && sample.datetime@ == d
}

/// Whether `bytes` are a well-formed detail payload: valid JSON, an
/// `indicator` object with a `values_updated_at` string and a `values`
/// array, every element with its required fields.
pub open spec fn detail_shape_ok(bytes: Seq<u8>) -> bool {
    &&& detail_inner(bytes) is Some
    &&& member_str(detail_inner(bytes)->0, "values_updated_at"@) is Some
    &&& detail_values(bytes) is Some
    &&& forall|i: int|
        0 <= i < detail_values(bytes)->0.len() ==> sample_fields_ok(
            #[trigger] detail_values(bytes)->0[i],
        )
}

/// Assembles one catalog row from its extracted fields; `None` marks a
/// field that was missing or of the wrong type, and yields a decode error.
pub fn elem_from_fields(name: Option<&str>, description: Option<&str>, id: Option<u64>) -> (r:
    Result<IndicatorsElem, Error>)
    ensures
        r is Ok <==> (name is Some && description is Some && (id matches Some(i) && i
            <= u32::MAX)),
        r matches Ok(e) ==> {
            &&& name matches Some(n) && e.name@ == n@
            &&& description matches Some(ds) && e.description@ == ds@
            &&& id matches Some(i) && e.id == i
        },
        r matches Err(e) ==> e is Decode,
{
    match (name, description, id) {
        (Some(n), Some(ds), Some(i)) => {
            if i <= 0xffff_ffff {
                Ok(
                    IndicatorsElem {
                        name: String::from_str(n),
                        description: String::from_str(ds),
                        id: i as u32,
                    },
                )
            } else {
                Err(Error::Decode(String::from_str("indicator id out of range")))
            }
        },
        _ => Err(Error::Decode(String::from_str("indicator entry is missing a required field"))),
    }
}

/// Assembles one time-series sample from its extracted fields; `None` marks
/// a field that was missing or of the wrong type, and yields a decode error.
pub fn value_from_fields(value: Option<String>, datetime: Option<&str>) -> (r: Result<
    IndicatorInnerValue,
    Error,
>)
    ensures
        r is Ok <==> (value is Some && datetime is Some),
        r matches Ok(v) ==> {
            &&& value matches Some(t) && v.value@ == t@
            &&& datetime matches Some(dt) && v.datetime@ == dt@
        },
        r matches Err(e) ==> e is Decode,
{
    match (value, datetime) {
        (Some(t), Some(dt)) => Ok(IndicatorInnerValue { value: t, datetime: String::from_str(dt) }),
        _ => Err(Error::Decode(String::from_str("value entry is missing a required field"))),
    }
}

/// Decodes the indicator-catalog payload. Succeeds exactly on well-formed
/// catalog bytes, and then yields one row per element of the `indicators`
/// array, in response order, with the element's `name`, `description` and
/// `id`. Every failure is a decode error.
pub fn decode_indicators(body: &Vec<u8>) -> (r: Result<Indicators, Error>)
    ensures
        r is Ok <==> catalog_shape_ok(body@),
        r matches Ok(ind) ==> {
            &&& catalog_elems(body@) matches Some(es)
            &&& ind.indicators@.len() == es.len()
            &&& forall|i: int|
                0 <= i < es.len() ==> summary_matches(#[trigger] ind.indicators@[i], es[i])
        },
        r matches Err(e) ==> e is Decode,
{
    let doc = match json_from_slice(body) {
        Ok(v) => v,
        Err(msg) => {
            return Err(Error::Decode(msg));
        },
    };
    let list = match value_get(&doc, "indicators") {
        Some(v) => v,
        None => {
            return Err(Error::Decode(String::from_str("payload has no indicators field")));
        },
    };
    let arr = match value_as_array(list) {
        Some(a) => a,
        None => {
            return Err(Error::Decode(String::from_str("indicators is not an array")));
        },
    };
    proof {
        assert(catalog_elems(body@) matches Some(es) && es == arr@);
    }
    let mut indicators: Vec<IndicatorsElem> = Vec::new();
    let mut i: usize = 0;
    while i < arr.len()
        invariant
            catalog_elems(body@) matches Some(es) && es == arr@,
            i <= arr@.len(),
            indicators@.len() == i,
            forall|j: int| 0 <= j < i ==> summary_fields_ok(#[trigger] arr@[j]),
            forall|j: int| 0 <= j < i ==> summary_matches(#[trigger] indicators@[j], arr@[j]),
        decreases arr@.len() - i,
    {
        let entry = &arr[i];
        let name = match value_get(entry, "name") {
            Some(v) => value_as_str(v),
            None => None,
        };
        proof {
            assert(name is Some <==> member_str(arr@[i as int], "name"@) is Some);
        }
        let description = match value_get(entry, "description") {
            Some(v) => value_as_str(v),
            None => None,
        };
        let id = match value_get(entry, "id") {
            Some(v) => value_as_u64(v),
            None => None,
        };
        let elem = match elem_from_fields(name, description, id) {
            Ok(e) => e,
            Err(e) => {
                proof {
                    assert(!summary_fields_ok(arr@[i as int]));
                    assert(!catalog_shape_ok(body@));
                }
                return Err(e);
            },
        };
        indicators.push(elem);
        i = i + 1;
    }
    proof {
        assert(catalog_shape_ok(body@));
    }
    Ok(Indicators { indicators })
}

/// Decodes the indicator-detail payload. Succeeds exactly on well-formed
/// detail bytes, and then yields the `values_updated_at` text and one
/// sample per element of the `values` array, in response order, with the
/// element's `value` (as decimal text) and `datetime`. Every failure is a
/// decode error.
pub fn decode_indicator(body: &Vec<u8>) -> (r: Result<Indicator, Error>)
    ensures
        r is Ok <==> detail_shape_ok(body@),
        r matches Ok(ind) ==> {
            &&& member_str(detail_inner(body@)->0, "values_updated_at"@) matches Some(u)
                && ind.indicator.values_updated_at@ == u
            &&& detail_values(body@) matches Some(vs)
            &&& ind.indicator.values@.len() == vs.len()
            &&& forall|i: int|
                0 <= i < vs.len() ==> sample_matches(#[trigger] ind.indicator.values@[i], vs[i])
        },
        r matches Err(e) ==> e is Decode,
{
    let doc = match json_from_slice(body) {
        Ok(v) => v,
        Err(msg) => {
            return Err(Error::Decode(msg));
        },
    };
    let inner = match value_get(&doc, "indicator") {
        Some(v) => v,
        None => {
            return Err(Error::Decode(String::from_str("payload has no indicator field")));
        },
    };
    let values_updated_at = match value_get(inner, "values_updated_at") {
        Some(v) => match value_as_str(v) {
            Some(s) => String::from_str(s),
            None => {
                return Err(Error::Decode(String::from_str("values_updated_at is not a string")));
            },
        },
        None => {
            return Err(Error::Decode(String::from_str("indicator has no values_updated_at")));
        },
    };
    let list = match value_get(inner, "values") {
        Some(v) => v,
        None => {
            return Err(Error::Decode(String::from_str("indicator has no values field")));
        },
    };
    let arr = match value_as_array(list) {
        Some(a) => a,
        None => {
            return Err(Error::Decode(String::from_str("values is not an array")));
        },
    };
    proof {
        assert(detail_values(body@) matches Some(vs) && vs == arr@);
    }
    let mut values: Vec<IndicatorInnerValue> = Vec::new();
    let mut i: usize = 0;
    while i < arr.len()
        invariant
            detail_inner(body@) is Some,
            member_str(detail_inner(body@)->0, "values_updated_at"@) matches Some(u)
                && values_updated_at@ == u,
            detail_values(body@) matches Some(vs) && vs == arr@,
            i <= arr@.len(),
            values@.len() == i,
            forall|j: int| 0 <= j < i ==> sample_fields_ok(#[trigger] arr@[j]),
            forall|j: int| 0 <= j < i ==> sample_matches(#[trigger] values@[j], arr@[j]),
        decreases arr@.len() - i,
    {
        let entry = &arr[i];
        let value = match value_get(entry, "value") {
            Some(v) => match value_as_number(v) {
                Some(n) => Some(number_to_text(n)),
                None => None,
            },
            None => None,
        };
        proof {
            assert(value matches Some(t) ==> member_number_text(arr@[i as int], "value"@)
                matches Some(t2) && t@ == t2);
            assert(value is Some <==> member_number_text(arr@[i as int], "value"@) is Some);
        }
        let datetime = match value_get(entry, "datetime") {
            Some(v) => value_as_str(v),
            None => None,
        };
        let sample = match value_from_fields(value, datetime) {
            Ok(v) => v,
            Err(e) => {
                proof {
                    assert(!sample_fields_ok(arr@[i as int]));
                    assert(!detail_shape_ok(body@));
                }
                return Err(e);
            },
        };
        values.push(sample);
        i = i + 1;
    }
    proof {
        assert(detail_shape_ok(body@));
    }
    Ok(Indicator { indicator: IndicatorInner { values_updated_at, values } })
}

} // verus!
