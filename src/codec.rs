//! Decoding and encoding of records as JSON.
//!
//! Each record type describes how it is read from a JSON object: every field
//! has a canonical key and possibly alias keys, and a kind (text, number,
//! list, nested record, ...). The per-kind predicates here state when a field
//! is well formed, what it decodes to, and what a value encodes to; encoding
//! always writes the canonical key, with `null` for an absent optional value.

use vstd::prelude::*;
use crate::error::AzureError;
use crate::text::{decimal, decimal_string, int_value, lemma_decimal_round_trip, parse_i64};
use crate::json::{
    bad_field, copy_json, field, field_of, is_absent, key_views, lemma_same_json_symmetric,
    not_an_array, same_json, JsonValue,
};

verus! {

/// A record type with a JSON form.
pub trait JsonShape: Sized {
    /// Whether `j` is a well-formed JSON form of this type.
    spec fn decodable(j: JsonValue) -> bool;

    /// Whether `j` is well formed and decodes to `x`.
    spec fn decodes(j: JsonValue, x: Self) -> bool;

    /// Whether `j` is the canonical JSON form of this value.
    spec fn encodes(&self, j: JsonValue) -> bool;

    /// Decodes a JSON value, failing exactly on values that are not well
    /// formed.
    fn from_json(j: &JsonValue) -> (r: Result<Self, AzureError>)
        ensures
            match r {
                Ok(x) => Self::decodes(*j, x),
                Err(e) => !Self::decodable(*j) && e is JsonParse,
            },
    ;

    /// The canonical JSON form of this value.
    fn to_json(&self) -> (r: JsonValue)
        ensures
            self.encodes(r),
    ;

    /// The canonical form of a value decodes to that value.
    proof fn lemma_encoding_decodes(&self, j: JsonValue)
        requires
            self.encodes(j),
        ensures
            Self::decodable(j),
            Self::decodes(j, *self),
    ;
}

/// Re-encoding a decoded value and decoding the result gives back a value
/// equal to the first decode, whatever alias keys the original document used.
pub proof fn lemma_reencode_round_trip<T: JsonShape>(j: JsonValue, x: T, k: JsonValue)
    requires
        T::decodes(j, x),
        x.encodes(k),
    ensures
        T::decodable(k),
        T::decodes(k, x),
{
    x.lemma_encoding_decodes(k);
}

/// Any JSON value is a value of this type; decoding and encoding copy it.
impl JsonShape for JsonValue {
    open spec fn decodable(j: JsonValue) -> bool {
        true
    }

    open spec fn decodes(j: JsonValue, x: Self) -> bool {
        same_json(j, x)
    }

    open spec fn encodes(&self, j: JsonValue) -> bool {
        same_json(*self, j)
    }

    fn from_json(j: &JsonValue) -> (r: Result<Self, AzureError>) {
        Ok(copy_json(j))
    }

    fn to_json(&self) -> (r: JsonValue) {
        copy_json(self)
    }

    proof fn lemma_encoding_decodes(&self, j: JsonValue) {
        lemma_same_json_symmetric(*self, j);
    }
}

/// Decodes a top-level array of records, failing when it is not an array or
/// when any item is not well formed.
pub fn decode_list<T: JsonShape>(j: &JsonValue) -> (r: Result<Vec<T>, AzureError>)
    ensures
        match r {
            Ok(x) => dec_shapes(*j, x),
            Err(e) => !ok_shapes::<T>(*j) && e is JsonParse,
        },
{
    match shapes_elem::<T>(j) {
        Some(x) => Ok(x),
        None => Err(not_an_array()),
    }
}

/// Encodes a list of records as a JSON array.
pub fn encode_list<T: JsonShape>(x: &Vec<T>) -> (r: JsonValue)
    ensures
        enc_shapes(*x, r),
{
    shapes_json(x)
}

/// Whether `e` is a value of this kind.
pub open spec fn ok_str(e: JsonValue) -> bool {
    e is Str
}

/// Whether `e` decodes to `x`.
pub open spec fn dec_str(e: JsonValue, x: String) -> bool {
    e == JsonValue::Str(x)
}

/// Whether `e` is the encoding of `x`.
pub open spec fn enc_str(x: String, e: JsonValue) -> bool {
    e == JsonValue::Str(x)
}

/// Reads a value of this kind; none when `e` is not one.
fn str_elem(e: &JsonValue) -> (r: Option<String>)
    ensures
        match r {
            Some(x) => dec_str(*e, x),
            None => !ok_str(*e),
        },
{
    match e {
        JsonValue::Str(s) => Some(s.clone()),
        _ => None,
    }
}

/// Writes a value of this kind.
pub fn str_json(x: &String) -> (r: JsonValue)
    ensures
        enc_str(*x, r),
{
    JsonValue::Str(x.clone())
}

/// Whether a required field of this kind is present and well formed.
pub open spec fn ok_req_str(v: Option<JsonValue>) -> bool {
    v matches Some(e) && ok_str(e)
}

/// Whether a required field of this kind decodes to `x`.
pub open spec fn dec_req_str(v: Option<JsonValue>, x: String) -> bool {
    v matches Some(e) && dec_str(e, x)
}

/// Whether an optional field of this kind is absent, `null`, or well formed.
pub open spec fn ok_opt_str(v: Option<JsonValue>) -> bool {
    is_absent(v) || (v matches Some(e) && ok_str(e))
}

/// Whether an optional field of this kind decodes to `x`: none when absent
/// or `null`.
pub open spec fn dec_opt_str(v: Option<JsonValue>, x: Option<String>) -> bool {
    match x {
        None => is_absent(v),
        Some(x) => v matches Some(e) && dec_str(e, x),
    }
}

/// Whether `e` encodes the optional value `x`: `null` for none.
pub open spec fn enc_opt_str(x: Option<String>, e: JsonValue) -> bool {
    match x {
        None => e == JsonValue::Null,
        Some(x) => enc_str(x, e),
    }
}

/// Decodes a required field of this kind.
pub fn req_str(j: &JsonValue, keys: &[&str]) -> (r: Result<String, AzureError>)
    ensures
        match r {
            Ok(x) => dec_req_str(field_of(*j, key_views(keys@)), x),
            Err(e) => !ok_req_str(field_of(*j, key_views(keys@))) && e is JsonParse,
        },
{
    match field(j, keys) {
        Some(e) => match str_elem(e) {
            Some(x) => Ok(x),
            None => Err(bad_field(keys)),
        },
        None => Err(bad_field(keys)),
    }
}

/// Decodes an optional field of this kind: none when absent or `null`.
pub fn opt_str(j: &JsonValue, keys: &[&str]) -> (r: Result<Option<String>, AzureError>)
    ensures
        match r {
            Ok(x) => dec_opt_str(field_of(*j, key_views(keys@)), x),
            Err(e) => !ok_opt_str(field_of(*j, key_views(keys@))) && e is JsonParse,
        },
{
    match field(j, keys) {
        Some(e) => if matches!(e, JsonValue::Null) {
            Ok(None)
        } else {
            match str_elem(e) {
                Some(x) => Ok(Some(x)),
                None => Err(bad_field(keys)),
            }
        },
        None => Ok(None),
    }
}

/// Encodes an optional value of this kind: `null` for none.
pub fn opt_str_json(x: &Option<String>) -> (r: JsonValue)
    ensures
        enc_opt_str(*x, r),
{
    match x {
        Some(x) => str_json(x),
        None => JsonValue::Null,
    }
}

/// A present field holding the encoding of `x` decodes to `x`.
pub proof fn lemma_req_str(x: String, e: JsonValue)
    requires
        enc_str(x, e),
    ensures
        ok_req_str(Some(e)),
        dec_req_str(Some(e), x),
{
}

/// A field holding the encoding of the optional `x` decodes to `x`.
pub proof fn lemma_opt_str(x: Option<String>, e: JsonValue)
    requires
        enc_opt_str(x, e),
    ensures
        ok_opt_str(Some(e)),
        dec_opt_str(Some(e), x),
{
    match x {
        Some(x) => {

        },
        None => {},
    }
}

/// Whether `e` is a value of this kind.
pub open spec fn ok_bool(e: JsonValue) -> bool {
    e is Bool
}

/// Whether `e` decodes to `x`.
pub open spec fn dec_bool(e: JsonValue, x: bool) -> bool {
    e == JsonValue::Bool(x)
}

/// Whether `e` is the encoding of `x`.
pub open spec fn enc_bool(x: bool, e: JsonValue) -> bool {
    e == JsonValue::Bool(x)
}

/// Reads a value of this kind; none when `e` is not one.
fn bool_elem(e: &JsonValue) -> (r: Option<bool>)
    ensures
        match r {
            Some(x) => dec_bool(*e, x),
            None => !ok_bool(*e),
        },
{
    match e {
        JsonValue::Bool(b) => Some(*b),
        _ => None,
    }
}

/// Writes a value of this kind.
pub fn bool_json(x: &bool) -> (r: JsonValue)
    ensures
        enc_bool(*x, r),
{
    JsonValue::Bool(*x)
}

/// Whether an optional field of this kind is absent, `null`, or well formed.
pub open spec fn ok_opt_bool(v: Option<JsonValue>) -> bool {
    is_absent(v) || (v matches Some(e) && ok_bool(e))
}

/// Whether an optional field of this kind decodes to `x`: none when absent
/// or `null`.
pub open spec fn dec_opt_bool(v: Option<JsonValue>, x: Option<bool>) -> bool {
    match x {
        None => is_absent(v),
        Some(x) => v matches Some(e) && dec_bool(e, x),
    }
}

/// Whether `e` encodes the optional value `x`: `null` for none.
pub open spec fn enc_opt_bool(x: Option<bool>, e: JsonValue) -> bool {
    match x {
        None => e == JsonValue::Null,
        Some(x) => enc_bool(x, e),
    }
}

/// Decodes an optional field of this kind: none when absent or `null`.
pub fn opt_bool(j: &JsonValue, keys: &[&str]) -> (r: Result<Option<bool>, AzureError>)
    ensures
        match r {
            Ok(x) => dec_opt_bool(field_of(*j, key_views(keys@)), x),
            Err(e) => !ok_opt_bool(field_of(*j, key_views(keys@))) && e is JsonParse,
        },
{
    match field(j, keys) {
        Some(e) => if matches!(e, JsonValue::Null) {
            Ok(None)
        } else {
            match bool_elem(e) {
                Some(x) => Ok(Some(x)),
                None => Err(bad_field(keys)),
            }
        },
        None => Ok(None),
    }
}

/// Encodes an optional value of this kind: `null` for none.
pub fn opt_bool_json(x: &Option<bool>) -> (r: JsonValue)
    ensures
        enc_opt_bool(*x, r),
{
    match x {
        Some(x) => bool_json(x),
        None => JsonValue::Null,
    }
}

/// A field holding the encoding of the optional `x` decodes to `x`.
pub proof fn lemma_opt_bool(x: Option<bool>, e: JsonValue)
    requires
        enc_opt_bool(x, e),
    ensures
        ok_opt_bool(Some(e)),
        dec_opt_bool(Some(e), x),
{
    match x {
        Some(x) => {

        },
        None => {},
    }
}

/// Whether `e` is a value of this kind.
pub open spec fn ok_i32(e: JsonValue) -> bool {
    e matches JsonValue::Number(s) && int_value(s@) matches Some(n) && i32::MIN <= n
        <= i32::MAX
}

/// Whether `e` decodes to `x`.
pub open spec fn dec_i32(e: JsonValue, x: i32) -> bool {
    e matches JsonValue::Number(s) && int_value(s@) == Some(x as int)
}

/// Whether `e` is the encoding of `x`.
pub open spec fn enc_i32(x: i32, e: JsonValue) -> bool {
    e matches JsonValue::Number(s) && s@ == decimal(x as int)
}

/// Reads a value of this kind; none when `e` is not one.
fn i32_elem(e: &JsonValue) -> (r: Option<i32>)
    ensures
        match r {
            Some(x) => dec_i32(*e, x),
            None => !ok_i32(*e),
        },
{
    match e {
        JsonValue::Number(s) => match parse_i64(s.as_str()) {
            Some(n) => if i32::MIN as i64 <= n && n <= i32::MAX as i64 {
                Some(n as i32)
            } else {
                None
            },
            None => None,
        },
        _ => None,
    }
}

/// Writes a value of this kind.
pub fn i32_json(x: &i32) -> (r: JsonValue)
    ensures
        enc_i32(*x, r),
{
    JsonValue::Number(decimal_string(*x as i64))
}

/// Whether a required field of this kind is present and well formed.
pub open spec fn ok_req_i32(v: Option<JsonValue>) -> bool {
    v matches Some(e) && ok_i32(e)
}

/// Whether a required field of this kind decodes to `x`.
pub open spec fn dec_req_i32(v: Option<JsonValue>, x: i32) -> bool {
    v matches Some(e) && dec_i32(e, x)
}

/// Whether an optional field of this kind is absent, `null`, or well formed.
pub open spec fn ok_opt_i32(v: Option<JsonValue>) -> bool {
    is_absent(v) || (v matches Some(e) && ok_i32(e))
}

/// Whether an optional field of this kind decodes to `x`: none when absent
/// or `null`.
pub open spec fn dec_opt_i32(v: Option<JsonValue>, x: Option<i32>) -> bool {
    match x {
        None => is_absent(v),
        Some(x) => v matches Some(e) && dec_i32(e, x),
    }
}

/// Whether `e` encodes the optional value `x`: `null` for none.
pub open spec fn enc_opt_i32(x: Option<i32>, e: JsonValue) -> bool {
    match x {
        None => e == JsonValue::Null,
        Some(x) => enc_i32(x, e),
    }
}

/// Decodes a required field of this kind.
pub fn req_i32(j: &JsonValue, keys: &[&str]) -> (r: Result<i32, AzureError>)
    ensures
        match r {
            Ok(x) => dec_req_i32(field_of(*j, key_views(keys@)), x),
            Err(e) => !ok_req_i32(field_of(*j, key_views(keys@))) && e is JsonParse,
        },
{
    match field(j, keys) {
        Some(e) => match i32_elem(e) {
            Some(x) => Ok(x),
            None => Err(bad_field(keys)),
        },
        None => Err(bad_field(keys)),
    }
}

/// Decodes an optional field of this kind: none when absent or `null`.
pub fn opt_i32(j: &JsonValue, keys: &[&str]) -> (r: Result<Option<i32>, AzureError>)
    ensures
        match r {
            Ok(x) => dec_opt_i32(field_of(*j, key_views(keys@)), x),
            Err(e) => !ok_opt_i32(field_of(*j, key_views(keys@))) && e is JsonParse,
        },
{
    match field(j, keys) {
        Some(e) => if matches!(e, JsonValue::Null) {
            Ok(None)
        } else {
            match i32_elem(e) {
                Some(x) => Ok(Some(x)),
                None => Err(bad_field(keys)),
            }
        },
        None => Ok(None),
    }
}

/// Encodes an optional value of this kind: `null` for none.
pub fn opt_i32_json(x: &Option<i32>) -> (r: JsonValue)
    ensures
        enc_opt_i32(*x, r),
{
    match x {
        Some(x) => i32_json(x),
        None => JsonValue::Null,
    }
}

/// A present field holding the encoding of `x` decodes to `x`.
pub proof fn lemma_req_i32(x: i32, e: JsonValue)
    requires
        enc_i32(x, e),
    ensures
        ok_req_i32(Some(e)),
        dec_req_i32(Some(e), x),
{
    lemma_decimal_round_trip(x as int);
}

/// A field holding the encoding of the optional `x` decodes to `x`.
pub proof fn lemma_opt_i32(x: Option<i32>, e: JsonValue)
    requires
        enc_opt_i32(x, e),
    ensures
        ok_opt_i32(Some(e)),
        dec_opt_i32(Some(e), x),
{
    match x {
        Some(x) => {
        lemma_decimal_round_trip(x as int);
        },
        None => {},
    }
}

/// Whether `e` is a value of this kind.
pub open spec fn ok_i64(e: JsonValue) -> bool {
    e matches JsonValue::Number(s) && int_value(s@) matches Some(n) && i64::MIN <= n
        <= i64::MAX
}

/// Whether `e` decodes to `x`.
pub open spec fn dec_i64(e: JsonValue, x: i64) -> bool {
    e matches JsonValue::Number(s) && int_value(s@) == Some(x as int)
}

/// Whether `e` is the encoding of `x`.
pub open spec fn enc_i64(x: i64, e: JsonValue) -> bool {
    e matches JsonValue::Number(s) && s@ == decimal(x as int)
}

/// Reads a value of this kind; none when `e` is not one.
fn i64_elem(e: &JsonValue) -> (r: Option<i64>)
    ensures
        match r {
            Some(x) => dec_i64(*e, x),
            None => !ok_i64(*e),
        },
{
    match e {
        JsonValue::Number(s) => parse_i64(s.as_str()),
        _ => None,
    }
}

/// Writes a value of this kind.
pub fn i64_json(x: &i64) -> (r: JsonValue)
    ensures
        enc_i64(*x, r),
{
    JsonValue::Number(decimal_string(*x))
}

/// Whether an optional field of this kind is absent, `null`, or well formed.
pub open spec fn ok_opt_i64(v: Option<JsonValue>) -> bool {
    is_absent(v) || (v matches Some(e) && ok_i64(e))
}

/// Whether an optional field of this kind decodes to `x`: none when absent
/// or `null`.
pub open spec fn dec_opt_i64(v: Option<JsonValue>, x: Option<i64>) -> bool {
    match x {
        None => is_absent(v),
        Some(x) => v matches Some(e) && dec_i64(e, x),
    }
}

/// Whether `e` encodes the optional value `x`: `null` for none.
pub open spec fn enc_opt_i64(x: Option<i64>, e: JsonValue) -> bool {
    match x {
        None => e == JsonValue::Null,
        Some(x) => enc_i64(x, e),
    }
}

/// Decodes an optional field of this kind: none when absent or `null`.
pub fn opt_i64(j: &JsonValue, keys: &[&str]) -> (r: Result<Option<i64>, AzureError>)
    ensures
        match r {
            Ok(x) => dec_opt_i64(field_of(*j, key_views(keys@)), x),
            Err(e) => !ok_opt_i64(field_of(*j, key_views(keys@))) && e is JsonParse,
        },
{
    match field(j, keys) {
        Some(e) => if matches!(e, JsonValue::Null) {
            Ok(None)
        } else {
            match i64_elem(e) {
                Some(x) => Ok(Some(x)),
                None => Err(bad_field(keys)),
            }
        },
        None => Ok(None),
    }
}

/// Encodes an optional value of this kind: `null` for none.
pub fn opt_i64_json(x: &Option<i64>) -> (r: JsonValue)
    ensures
        enc_opt_i64(*x, r),
{
    match x {
        Some(x) => i64_json(x),
        None => JsonValue::Null,
    }
}

/// A field holding the encoding of the optional `x` decodes to `x`.
pub proof fn lemma_opt_i64(x: Option<i64>, e: JsonValue)
    requires
        enc_opt_i64(x, e),
    ensures
        ok_opt_i64(Some(e)),
        dec_opt_i64(Some(e), x),
{
    match x {
        Some(x) => {
        lemma_decimal_round_trip(x as int);
        },
        None => {},
    }
}

/// Whether `e` is a value of this kind.
pub open spec fn ok_strs(e: JsonValue) -> bool {
    e matches JsonValue::Array(items) && forall|i: int|
        0 <= i < items@.len() ==> (#[trigger] items@[i]) is Str
}

/// Whether `e` decodes to `x`.
pub open spec fn dec_strs(e: JsonValue, x: Vec<String>) -> bool {
    e matches JsonValue::Array(items) && items@.len() == x@.len()
        && forall|i: int| 0 <= i < items@.len() ==> #[trigger] items@[i] == JsonValue::Str(x@[i])
}

/// Whether `e` is the encoding of `x`.
pub open spec fn enc_strs(x: Vec<String>, e: JsonValue) -> bool {
    e matches JsonValue::Array(items) && items@.len() == x@.len()
        && forall|i: int| 0 <= i < items@.len() ==> #[trigger] items@[i] == JsonValue::Str(x@[i])
}

/// Reads a value of this kind; none when `e` is not one.
fn strs_elem(e: &JsonValue) -> (r: Option<Vec<String>>)
    ensures
        match r {
            Some(x) => dec_strs(*e, x),
            None => !ok_strs(*e),
        },
{
    match e {
        JsonValue::Array(items) => {
            let mut out: Vec<String> = Vec::new();
            let mut i: usize = 0;
            while i < items.len()
                invariant
                    i <= items@.len(),
                    *e == JsonValue::Array(*items),
                    out@.len() == i,
                    forall|q: int| 0 <= q < i ==> #[trigger] items@[q] == JsonValue::Str(out@[q]),
                decreases items@.len() - i,
            {
                match &items[i] {
                    JsonValue::Str(s) => out.push(s.clone()),
                    _ => {
                        return None;
                    },
                }
                i = i + 1;
            }
            Some(out)
        },
        _ => None,
    }
}

/// Writes a value of this kind.
pub fn strs_json(x: &Vec<String>) -> (r: JsonValue)
    ensures
        enc_strs(*x, r),
{
    let mut items: Vec<JsonValue> = Vec::new();
    let mut i: usize = 0;
    while i < x.len()
        invariant
            i <= x@.len(),
            items@.len() == i,
            forall|q: int| 0 <= q < i ==> #[trigger] items@[q] == JsonValue::Str(x@[q]),
        decreases x@.len() - i,
    {
        items.push(JsonValue::Str(x[i].clone()));
        i = i + 1;
    }
    JsonValue::Array(items)
}

/// Whether a required field of this kind is present and well formed.
pub open spec fn ok_req_strs(v: Option<JsonValue>) -> bool {
    v matches Some(e) && ok_strs(e)
}

/// Whether a required field of this kind decodes to `x`.
pub open spec fn dec_req_strs(v: Option<JsonValue>, x: Vec<String>) -> bool {
    v matches Some(e) && dec_strs(e, x)
}

/// Whether an optional field of this kind is absent, `null`, or well formed.
pub open spec fn ok_opt_strs(v: Option<JsonValue>) -> bool {
    is_absent(v) || (v matches Some(e) && ok_strs(e))
}

/// Whether an optional field of this kind decodes to `x`: none when absent
/// or `null`.
pub open spec fn dec_opt_strs(v: Option<JsonValue>, x: Option<Vec<String>>) -> bool {
    match x {
        None => is_absent(v),
        Some(x) => v matches Some(e) && dec_strs(e, x),
    }
}

/// Whether `e` encodes the optional value `x`: `null` for none.
pub open spec fn enc_opt_strs(x: Option<Vec<String>>, e: JsonValue) -> bool {
    match x {
        None => e == JsonValue::Null,
        Some(x) => enc_strs(x, e),
    }
}

/// Decodes a required field of this kind.
pub fn req_strs(j: &JsonValue, keys: &[&str]) -> (r: Result<Vec<String>, AzureError>)
    ensures
        match r {
            Ok(x) => dec_req_strs(field_of(*j, key_views(keys@)), x),
            Err(e) => !ok_req_strs(field_of(*j, key_views(keys@))) && e is JsonParse,
        },
{
    match field(j, keys) {
        Some(e) => match strs_elem(e) {
            Some(x) => Ok(x),
            None => Err(bad_field(keys)),
        },
        None => Err(bad_field(keys)),
    }
}

/// Decodes an optional field of this kind: none when absent or `null`.
pub fn opt_strs(j: &JsonValue, keys: &[&str]) -> (r: Result<Option<Vec<String>>, AzureError>)
    ensures
        match r {
            Ok(x) => dec_opt_strs(field_of(*j, key_views(keys@)), x),
            Err(e) => !ok_opt_strs(field_of(*j, key_views(keys@))) && e is JsonParse,
        },
{
    match field(j, keys) {
        Some(e) => if matches!(e, JsonValue::Null) {
            Ok(None)
        } else {
            match strs_elem(e) {
                Some(x) => Ok(Some(x)),
                None => Err(bad_field(keys)),
            }
        },
        None => Ok(None),
    }
}

/// Encodes an optional value of this kind: `null` for none.
pub fn opt_strs_json(x: &Option<Vec<String>>) -> (r: JsonValue)
    ensures
        enc_opt_strs(*x, r),
{
    match x {
        Some(x) => strs_json(x),
        None => JsonValue::Null,
    }
}

/// A present field holding the encoding of `x` decodes to `x`.
pub proof fn lemma_req_strs(x: Vec<String>, e: JsonValue)
    requires
        enc_strs(x, e),
    ensures
        ok_req_strs(Some(e)),
        dec_req_strs(Some(e), x),
{
}

/// A field holding the encoding of the optional `x` decodes to `x`.
pub proof fn lemma_opt_strs(x: Option<Vec<String>>, e: JsonValue)
    requires
        enc_opt_strs(x, e),
    ensures
        ok_opt_strs(Some(e)),
        dec_opt_strs(Some(e), x),
{
    match x {
        Some(x) => {

        },
        None => {},
    }
}

/// Whether `e` is a value of this kind.
pub open spec fn ok_str_map(e: JsonValue) -> bool {
    e matches JsonValue::Object(es) && forall|i: int|
        0 <= i < es@.len() ==> (#[trigger] es@[i]).1 is Str
}

/// Whether `e` decodes to `x`.
pub open spec fn dec_str_map(e: JsonValue, x: Vec<(String, String)>) -> bool {
    e matches JsonValue::Object(es) && es@.len() == x@.len() && forall|i: int|
        #![trigger es@[i]]
        0 <= i < es@.len() ==> x@[i].0 == es@[i].0 && es@[i].1 == JsonValue::Str(x@[i].1)
}

/// Whether `e` is the encoding of `x`.
pub open spec fn enc_str_map(x: Vec<(String, String)>, e: JsonValue) -> bool {
    e matches JsonValue::Object(es) && es@.len() == x@.len() && forall|i: int|
        #![trigger es@[i]]
        0 <= i < es@.len() ==> x@[i].0 == es@[i].0 && es@[i].1 == JsonValue::Str(x@[i].1)
}

/// Reads a value of this kind; none when `e` is not one.
fn str_map_elem(e: &JsonValue) -> (r: Option<Vec<(String, String)>>)
    ensures
        match r {
            Some(x) => dec_str_map(*e, x),
            None => !ok_str_map(*e),
        },
{
    match e {
        JsonValue::Object(es) => {
            let mut out: Vec<(String, String)> = Vec::new();
            let mut i: usize = 0;
            while i < es.len()
                invariant
                    i <= es@.len(),
                    *e == JsonValue::Object(*es),
                    out@.len() == i,
                    forall|q: int| #![trigger es@[q]]
                        0 <= q < i ==> out@[q].0 == es@[q].0 && es@[q].1 == JsonValue::Str(out@[q].1),
                decreases es@.len() - i,
            {
                match &es[i].1 {
                    JsonValue::Str(s) => out.push((es[i].0.clone(), s.clone())),
                    _ => {
                        assert(!(es@[i as int].1 is Str));
                        return None;
                    },
                }
                i = i + 1;
            }
            Some(out)
        },
        _ => None,
    }
}

/// Writes a value of this kind.
pub fn str_map_json(x: &Vec<(String, String)>) -> (r: JsonValue)
    ensures
        enc_str_map(*x, r),
{
    let mut es: Vec<(String, JsonValue)> = Vec::new();
    let mut i: usize = 0;
    while i < x.len()
        invariant
            i <= x@.len(),
            es@.len() == i,
            forall|q: int| #![trigger es@[q]]
                0 <= q < i ==> x@[q].0 == es@[q].0 && es@[q].1 == JsonValue::Str(x@[q].1),
        decreases x@.len() - i,
    {
        es.push((x[i].0.clone(), JsonValue::Str(x[i].1.clone())));
        i = i + 1;
    }
    JsonValue::Object(es)
}

/// Whether an optional field of this kind is absent, `null`, or well formed.
pub open spec fn ok_opt_str_map(v: Option<JsonValue>) -> bool {
    is_absent(v) || (v matches Some(e) && ok_str_map(e))
}

/// Whether an optional field of this kind decodes to `x`: none when absent
/// or `null`.
pub open spec fn dec_opt_str_map(v: Option<JsonValue>, x: Option<Vec<(String, String)>>) -> bool {
    match x {
        None => is_absent(v),
        Some(x) => v matches Some(e) && dec_str_map(e, x),
    }
}

/// Whether `e` encodes the optional value `x`: `null` for none.
pub open spec fn enc_opt_str_map(x: Option<Vec<(String, String)>>, e: JsonValue) -> bool {
    match x {
        None => e == JsonValue::Null,
        Some(x) => enc_str_map(x, e),
    }
}

/// Decodes an optional field of this kind: none when absent or `null`.
pub fn opt_str_map(j: &JsonValue, keys: &[&str]) -> (r: Result<Option<Vec<(String, String)>>, AzureError>)
    ensures
        match r {
            Ok(x) => dec_opt_str_map(field_of(*j, key_views(keys@)), x),
            Err(e) => !ok_opt_str_map(field_of(*j, key_views(keys@))) && e is JsonParse,
        },
{
    match field(j, keys) {
        Some(e) => if matches!(e, JsonValue::Null) {
            Ok(None)
        } else {
            match str_map_elem(e) {
                Some(x) => Ok(Some(x)),
                None => Err(bad_field(keys)),
            }
        },
        None => Ok(None),
    }
}

/// Encodes an optional value of this kind: `null` for none.
pub fn opt_str_map_json(x: &Option<Vec<(String, String)>>) -> (r: JsonValue)
    ensures
        enc_opt_str_map(*x, r),
{
    match x {
        Some(x) => str_map_json(x),
        None => JsonValue::Null,
    }
}

/// A field holding the encoding of the optional `x` decodes to `x`.
pub proof fn lemma_opt_str_map(x: Option<Vec<(String, String)>>, e: JsonValue)
    requires
        enc_opt_str_map(x, e),
    ensures
        ok_opt_str_map(Some(e)),
        dec_opt_str_map(Some(e), x),
{
    match x {
        Some(x) => {

        },
        None => {},
    }
}

/// Whether `e` is a value of this kind.
pub open spec fn ok_json_map(e: JsonValue) -> bool {
    e is Object
}

/// Whether `e` decodes to `x`.
pub open spec fn dec_json_map(e: JsonValue, x: Vec<(String, JsonValue)>) -> bool {
    e matches JsonValue::Object(es) && es@.len() == x@.len() && forall|i: int|
        #![trigger es@[i]]
        0 <= i < es@.len() ==> x@[i].0 == es@[i].0 && same_json(es@[i].1, x@[i].1)
}

/// Whether `e` is the encoding of `x`.
pub open spec fn enc_json_map(x: Vec<(String, JsonValue)>, e: JsonValue) -> bool {
    e matches JsonValue::Object(es) && es@.len() == x@.len() && forall|i: int|
        #![trigger es@[i]]
        0 <= i < es@.len() ==> x@[i].0 == es@[i].0 && same_json(x@[i].1, es@[i].1)
}

/// Reads a value of this kind; none when `e` is not one.
fn json_map_elem(e: &JsonValue) -> (r: Option<Vec<(String, JsonValue)>>)
    ensures
        match r {
            Some(x) => dec_json_map(*e, x),
            None => !ok_json_map(*e),
        },
{
    match e {
        JsonValue::Object(es) => {
            let mut out: Vec<(String, JsonValue)> = Vec::new();
            let mut i: usize = 0;
            while i < es.len()
                invariant
                    i <= es@.len(),
                    *e == JsonValue::Object(*es),
                    out@.len() == i,
                    forall|q: int| #![trigger es@[q]]
                        0 <= q < i ==> out@[q].0 == es@[q].0 && same_json(es@[q].1, out@[q].1),
                decreases es@.len() - i,
            {
                out.push((es[i].0.clone(), copy_json(&es[i].1)));
                i = i + 1;
            }
            Some(out)
        },
        _ => None,
    }
}

/// Writes a value of this kind.
pub fn json_map_json(x: &Vec<(String, JsonValue)>) -> (r: JsonValue)
    ensures
        enc_json_map(*x, r),
{
    let mut es: Vec<(String, JsonValue)> = Vec::new();
    let mut i: usize = 0;
    while i < x.len()
        invariant
            i <= x@.len(),
            es@.len() == i,
            forall|q: int| #![trigger es@[q]]
                0 <= q < i ==> x@[q].0 == es@[q].0 && same_json(x@[q].1, es@[q].1),
        decreases x@.len() - i,
    {
        es.push((x[i].0.clone(), copy_json(&x[i].1)));
        i = i + 1;
    }
    JsonValue::Object(es)
}

/// Whether an optional field of this kind is absent, `null`, or well formed.
pub open spec fn ok_opt_json_map(v: Option<JsonValue>) -> bool {
    is_absent(v) || (v matches Some(e) && ok_json_map(e))
}

/// Whether an optional field of this kind decodes to `x`: none when absent
/// or `null`.
pub open spec fn dec_opt_json_map(v: Option<JsonValue>, x: Option<Vec<(String, JsonValue)>>) -> bool {
    match x {
        None => is_absent(v),
        Some(x) => v matches Some(e) && dec_json_map(e, x),
    }
}

/// Whether `e` encodes the optional value `x`: `null` for none.
pub open spec fn enc_opt_json_map(x: Option<Vec<(String, JsonValue)>>, e: JsonValue) -> bool {
    match x {
        None => e == JsonValue::Null,
        Some(x) => enc_json_map(x, e),
    }
}

/// Decodes an optional field of this kind: none when absent or `null`.
pub fn opt_json_map(j: &JsonValue, keys: &[&str]) -> (r: Result<Option<Vec<(String, JsonValue)>>, AzureError>)
    ensures
        match r {
            Ok(x) => dec_opt_json_map(field_of(*j, key_views(keys@)), x),
            Err(e) => !ok_opt_json_map(field_of(*j, key_views(keys@))) && e is JsonParse,
        },
{
    match field(j, keys) {
        Some(e) => if matches!(e, JsonValue::Null) {
            Ok(None)
        } else {
            match json_map_elem(e) {
                Some(x) => Ok(Some(x)),
                None => Err(bad_field(keys)),
            }
        },
        None => Ok(None),
    }
}

/// Encodes an optional value of this kind: `null` for none.
pub fn opt_json_map_json(x: &Option<Vec<(String, JsonValue)>>) -> (r: JsonValue)
    ensures
        enc_opt_json_map(*x, r),
{
    match x {
        Some(x) => json_map_json(x),
        None => JsonValue::Null,
    }
}

/// A field holding the encoding of the optional `x` decodes to `x`.
pub proof fn lemma_opt_json_map(x: Option<Vec<(String, JsonValue)>>, e: JsonValue)
    requires
        enc_opt_json_map(x, e),
    ensures
        ok_opt_json_map(Some(e)),
        dec_opt_json_map(Some(e), x),
{
    match x {
        Some(x) => {
        let es = e->Object_0;
        assert forall|i: int| #![trigger es@[i]] 0 <= i < es@.len() implies x@[i].0 == es@[i].0
            && same_json(es@[i].1, x@[i].1) by {
            lemma_same_json_symmetric(x@[i].1, es@[i].1);
        }
        },
        None => {},
    }
}

/// Whether `e` has the shape `T`.
pub open spec fn ok_shape<T: JsonShape>(e: JsonValue) -> bool {
    T::decodable(e)
}

/// Whether `e` has the shape `T` and decodes to `x`.
pub open spec fn dec_shape<T: JsonShape>(e: JsonValue, x: T) -> bool {
    T::decodes(e, x)
}

/// Whether `e` is the encoding of `x`.
pub open spec fn enc_shape<T: JsonShape>(x: T, e: JsonValue) -> bool {
    x.encodes(e)
}

/// Whether `e` is an array of values of the shape `T`.
pub open spec fn ok_shapes<T: JsonShape>(e: JsonValue) -> bool {
    e matches JsonValue::Array(items) && forall|i: int|
        0 <= i < items@.len() ==> T::decodable(#[trigger] items@[i])
}

/// Whether `e` is an array that decodes, item by item, to `x`.
pub open spec fn dec_shapes<T: JsonShape>(e: JsonValue, x: Vec<T>) -> bool {
    e matches JsonValue::Array(items) && items@.len() == x@.len() && forall|i: int|
        #![trigger items@[i]]
        0 <= i < items@.len() ==> T::decodes(items@[i], x@[i])
}

/// Whether `e` is the encoding of `x`, item by item.
pub open spec fn enc_shapes<T: JsonShape>(x: Vec<T>, e: JsonValue) -> bool {
    e matches JsonValue::Array(items) && items@.len() == x@.len() && forall|i: int|
        #![trigger items@[i]]
        0 <= i < items@.len() ==> x@[i].encodes(items@[i])
}

/// Reads a record of type `T`; none when `e` is not one.
fn shape_elem<T: JsonShape>(e: &JsonValue) -> (r: Option<T>)
    ensures
        match r {
            Some(x) => T::decodes(*e, x),
            None => !T::decodable(*e),
        },
{
    match T::from_json(e) {
        Ok(x) => Some(x),
        Err(_) => None,
    }
}

/// Reads an array of records of type `T`; none when `e` is not one.
fn shapes_elem<T: JsonShape>(e: &JsonValue) -> (r: Option<Vec<T>>)
    ensures
        match r {
            Some(x) => dec_shapes(*e, x),
            None => !ok_shapes::<T>(*e),
        },
{
    match e {
        JsonValue::Array(items) => {
            let mut out: Vec<T> = Vec::new();
            let mut i: usize = 0;
            while i < items.len()
                invariant
                    i <= items@.len(),
                    *e == JsonValue::Array(*items),
                    out@.len() == i,
                    forall|q: int| #![trigger items@[q]] 0 <= q < i ==> T::decodes(items@[q], out@[q]),
                decreases items@.len() - i,
            {
                match T::from_json(&items[i]) {
                    Ok(x) => out.push(x),
                    Err(_) => {
                        assert(!T::decodable(e->Array_0@[i as int]));
                        return None;
                    },
                }
                i = i + 1;
            }
            Some(out)
        },
        _ => None,
    }
}

/// Writes a list of records as an array.
pub fn shapes_json<T: JsonShape>(x: &Vec<T>) -> (r: JsonValue)
    ensures
        enc_shapes(*x, r),
{
    let mut items: Vec<JsonValue> = Vec::new();
    let mut i: usize = 0;
    while i < x.len()
        invariant
            i <= x@.len(),
            items@.len() == i,
            forall|q: int| #![trigger items@[q]] 0 <= q < i ==> x@[q].encodes(items@[q]),
        decreases x@.len() - i,
    {
        let v = x[i].to_json();
        items.push(v);
        i = i + 1;
    }
    JsonValue::Array(items)
}

/// Writes a record.
pub fn shape_json<T: JsonShape>(x: &T) -> (r: JsonValue)
    ensures
        enc_shape(*x, r),
{
    x.to_json()
}

/// Whether a required field of this kind is present and well formed.
pub open spec fn ok_req_shape<T: JsonShape>(v: Option<JsonValue>) -> bool {
    v matches Some(e) && ok_shape::<T>(e)
}

/// Whether a required field of this kind decodes to `x`.
pub open spec fn dec_req_shape<T: JsonShape>(v: Option<JsonValue>, x: T) -> bool {
    v matches Some(e) && dec_shape(e, x)
}

/// Whether an optional field of this kind is absent, `null`, or well formed.
pub open spec fn ok_opt_shape<T: JsonShape>(v: Option<JsonValue>) -> bool {
    is_absent(v) || (v matches Some(e) && ok_shape::<T>(e))
}

/// Whether an optional field of this kind decodes to `x`: none when absent
/// or `null`.
pub open spec fn dec_opt_shape<T: JsonShape>(v: Option<JsonValue>, x: Option<T>) -> bool {
    match x {
        None => is_absent(v),
        Some(x) => v matches Some(e) && dec_shape(e, x),
    }
}

/// Whether `e` encodes the optional value `x`: `null` for none.
pub open spec fn enc_opt_shape<T: JsonShape>(x: Option<T>, e: JsonValue) -> bool {
    match x {
        None => e == JsonValue::Null,
        Some(x) => enc_shape(x, e),
    }
}

/// Decodes a required field of this kind.
pub fn req_shape<T: JsonShape>(j: &JsonValue, keys: &[&str]) -> (r: Result<T, AzureError>)
    ensures
        match r {
            Ok(x) => dec_req_shape(field_of(*j, key_views(keys@)), x),
            Err(e) => !ok_req_shape::<T>(field_of(*j, key_views(keys@))) && e is JsonParse,
        },
{
    match field(j, keys) {
        Some(e) => match shape_elem::<T>(e) {
            Some(x) => Ok(x),
            None => Err(bad_field(keys)),
        },
        None => Err(bad_field(keys)),
    }
}

/// Decodes an optional field of this kind: none when absent or `null`.
pub fn opt_shape<T: JsonShape>(j: &JsonValue, keys: &[&str]) -> (r: Result<Option<T>, AzureError>)
    ensures
        match r {
            Ok(x) => dec_opt_shape(field_of(*j, key_views(keys@)), x),
            Err(e) => !ok_opt_shape::<T>(field_of(*j, key_views(keys@))) && e is JsonParse,
        },
{
    match field(j, keys) {
        Some(e) => if matches!(e, JsonValue::Null) {
            Ok(None)
        } else {
            match shape_elem::<T>(e) {
                Some(x) => Ok(Some(x)),
                None => Err(bad_field(keys)),
            }
        },
        None => Ok(None),
    }
}

/// Encodes an optional value of this kind: `null` for none.
pub fn opt_shape_json<T: JsonShape>(x: &Option<T>) -> (r: JsonValue)
    ensures
        enc_opt_shape(*x, r),
{
    match x {
        Some(x) => shape_json(x),
        None => JsonValue::Null,
    }
}

/// A present field holding the encoding of `x` decodes to `x`.
pub proof fn lemma_req_shape<T: JsonShape>(x: T, e: JsonValue)
    requires
        enc_shape(x, e),
    ensures
        ok_req_shape::<T>(Some(e)),
        dec_req_shape(Some(e), x),
{
    x.lemma_encoding_decodes(e);
}

/// A field holding the encoding of the optional `x` decodes to `x`.
pub proof fn lemma_opt_shape<T: JsonShape>(x: Option<T>, e: JsonValue)
    requires
        enc_opt_shape(x, e),
    ensures
        ok_opt_shape::<T>(Some(e)),
        dec_opt_shape(Some(e), x),
{
    match x {
        Some(x) => {
        x.lemma_encoding_decodes(e);
        },
        None => {},
    }
}

/// Whether a required field of this kind is present and well formed.
pub open spec fn ok_req_shapes<T: JsonShape>(v: Option<JsonValue>) -> bool {
    v matches Some(e) && ok_shapes::<T>(e)
}

/// Whether a required field of this kind decodes to `x`.
pub open spec fn dec_req_shapes<T: JsonShape>(v: Option<JsonValue>, x: Vec<T>) -> bool {
    v matches Some(e) && dec_shapes(e, x)
}

/// Whether an optional field of this kind is absent, `null`, or well formed.
pub open spec fn ok_opt_shapes<T: JsonShape>(v: Option<JsonValue>) -> bool {
    is_absent(v) || (v matches Some(e) && ok_shapes::<T>(e))
}

/// Whether an optional field of this kind decodes to `x`: none when absent
/// or `null`.
pub open spec fn dec_opt_shapes<T: JsonShape>(v: Option<JsonValue>, x: Option<Vec<T>>) -> bool {
    match x {
        None => is_absent(v),
        Some(x) => v matches Some(e) && dec_shapes(e, x),
    }
}

/// Whether `e` encodes the optional value `x`: `null` for none.
pub open spec fn enc_opt_shapes<T: JsonShape>(x: Option<Vec<T>>, e: JsonValue) -> bool {
    match x {
        None => e == JsonValue::Null,
        Some(x) => enc_shapes(x, e),
    }
}

/// Decodes a required field of this kind.
pub fn req_shapes<T: JsonShape>(j: &JsonValue, keys: &[&str]) -> (r: Result<Vec<T>, AzureError>)
    ensures
        match r {
            Ok(x) => dec_req_shapes(field_of(*j, key_views(keys@)), x),
            Err(e) => !ok_req_shapes::<T>(field_of(*j, key_views(keys@))) && e is JsonParse,
        },
{
    match field(j, keys) {
        Some(e) => match shapes_elem::<T>(e) {
            Some(x) => Ok(x),
            None => Err(bad_field(keys)),
        },
        None => Err(bad_field(keys)),
    }
}

/// Decodes an optional field of this kind: none when absent or `null`.
pub fn opt_shapes<T: JsonShape>(j: &JsonValue, keys: &[&str]) -> (r: Result<Option<Vec<T>>, AzureError>)
    ensures
        match r {
            Ok(x) => dec_opt_shapes(field_of(*j, key_views(keys@)), x),
            Err(e) => !ok_opt_shapes::<T>(field_of(*j, key_views(keys@))) && e is JsonParse,
        },
{
    match field(j, keys) {
        Some(e) => if matches!(e, JsonValue::Null) {
            Ok(None)
        } else {
            match shapes_elem::<T>(e) {
                Some(x) => Ok(Some(x)),
                None => Err(bad_field(keys)),
            }
        },
        None => Ok(None),
    }
}

/// Encodes an optional value of this kind: `null` for none.
pub fn opt_shapes_json<T: JsonShape>(x: &Option<Vec<T>>) -> (r: JsonValue)
    ensures
        enc_opt_shapes(*x, r),
{
    match x {
        Some(x) => shapes_json(x),
        None => JsonValue::Null,
    }
}

/// A present field holding the encoding of `x` decodes to `x`.
pub proof fn lemma_req_shapes<T: JsonShape>(x: Vec<T>, e: JsonValue)
    requires
        enc_shapes(x, e),
    ensures
        ok_req_shapes::<T>(Some(e)),
        dec_req_shapes(Some(e), x),
{
    let items = e->Array_0;
    assert forall|i: int| #![trigger items@[i]] 0 <= i < items@.len() implies T::decodable(items@[i])
        && T::decodes(items@[i], x@[i]) by {
        x@[i].lemma_encoding_decodes(items@[i]);
    }
}

/// A field holding the encoding of the optional `x` decodes to `x`.
pub proof fn lemma_opt_shapes<T: JsonShape>(x: Option<Vec<T>>, e: JsonValue)
    requires
        enc_opt_shapes(x, e),
    ensures
        ok_opt_shapes::<T>(Some(e)),
        dec_opt_shapes(Some(e), x),
{
    match x {
        Some(x) => {
        let items = e->Array_0;
        assert forall|i: int| #![trigger items@[i]] 0 <= i < items@.len() implies T::decodable(items@[i])
            && T::decodes(items@[i], x@[i]) by {
            x@[i].lemma_encoding_decodes(items@[i]);
        }
        },
        None => {},
    }
}

} // verus!
