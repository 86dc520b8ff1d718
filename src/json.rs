//! A JSON document tree, and field lookup that tolerates alternate key
//! spellings.
//!
//! A field of a record is looked up under a list of names: its canonical name
//! first, then its aliases. The first name that the object holds wins, so
//! when an object holds a field under both its canonical name and an alias,
//! the canonical one is used. Within one name, the first member with that
//! name counts. A field that is absent or `null` decodes to "none" where the
//! field is optional, and is an error where it is required. Members that no
//! field asks for are ignored.

use vstd::prelude::*;
use crate::error::AzureError;

verus! {

/// A JSON value.
#[derive(Debug)]
pub enum JsonValue {
    Null,
    Bool(bool),
    /// A number, as the parser writes it.
    Number(String),
    Str(String),
    Array(Vec<JsonValue>),
    /// The members of an object, in the order the parser gives them.
    Object(Vec<(String, JsonValue)>),
}

/// The character views of a list of key names.
pub open spec fn key_views(keys: Seq<&str>) -> Seq<Seq<char>> {
    keys.map_values(|k: &str| k@)
}

/// The value of the first member named `key`.
pub open spec fn lookup_key(es: Seq<(String, JsonValue)>, key: Seq<char>) -> Option<JsonValue>
    decreases es.len(),
{
    if es.len() == 0 {
        None
    } else if es[0].0@ == key {
        Some(es[0].1)
    } else {
        lookup_key(es.drop_first(), key)
    }
}

/// The value found under the first of `keys` that the members hold.
pub open spec fn lookup_keys(es: Seq<(String, JsonValue)>, keys: Seq<Seq<char>>) -> Option<
    JsonValue,
>
    decreases keys.len(),
{
    if keys.len() == 0 {
        None
    } else {
        match lookup_key(es, keys[0]) {
            Some(v) => Some(v),
            None => lookup_keys(es, keys.drop_first()),
        }
    }
}

/// The field of an object found under the first of `keys` that it holds;
/// nothing for a value that is not an object.
pub open spec fn field_of(j: JsonValue, keys: Seq<Seq<char>>) -> Option<JsonValue> {
    match j {
        JsonValue::Object(es) => lookup_keys(es@, keys),
        _ => None,
    }
}

/// A field that is absent or `null`.
pub open spec fn is_absent(v: Option<JsonValue>) -> bool {
    v is None || v == Some(JsonValue::Null)
}

/// Where the only member named `key` among the first ones stands at `k`,
/// looking `key` up finds the value there.
pub proof fn lemma_lookup_at(es: Seq<(String, JsonValue)>, k: int, key: Seq<char>)
    requires
        0 <= k < es.len(),
        es[k].0@ == key,
        forall|i: int| 0 <= i < k ==> es[i].0@ != key,
    ensures
        lookup_key(es, key) == Some(es[k].1),
    decreases k,
{
    if k > 0 {
        let rest = es.drop_first();
        assert forall|i: int| 0 <= i < k - 1 implies rest[i].0@ != key by {
            assert(rest[i] == es[i + 1]);
        }
        lemma_lookup_at(rest, k - 1, key);
    }
}

/// `b` is a copy of `a`: the same tree, with equal leaves and member names.
pub open spec fn same_json(a: JsonValue, b: JsonValue) -> bool
    decreases a,
{
    match a {
        JsonValue::Array(xs) => b matches JsonValue::Array(ys) && xs@.len() == ys@.len()
            && forall|i: int| 0 <= i < xs@.len() ==> same_json(#[trigger] xs@[i], ys@[i]),
        JsonValue::Object(xs) => b matches JsonValue::Object(ys) && xs@.len() == ys@.len()
            && forall|i: int|
            #![trigger xs@[i]]
            0 <= i < xs@.len() ==> xs@[i].0 == ys@[i].0 && same_json(xs@[i].1, ys@[i].1),
        _ => a == b,
    }
}

/// Being a copy is symmetric.
pub proof fn lemma_same_json_symmetric(a: JsonValue, b: JsonValue)
    requires
        same_json(a, b),
    ensures
        same_json(b, a),
    decreases a,
{
    match a {
        JsonValue::Array(xs) => {
            let ys = b->Array_0;
            assert forall|i: int| 0 <= i < ys@.len() implies same_json(#[trigger] ys@[i], xs@[i]) by {
                assert(same_json(xs@[i], ys@[i]));
                lemma_same_json_symmetric(xs@[i], ys@[i]);
            }
            assert(b == JsonValue::Array(ys));
        },
        JsonValue::Object(xs) => {
            let ys = b->Object_0;
            assert forall|i: int| #![trigger ys@[i]]
                0 <= i < ys@.len() implies ys@[i].0 == xs@[i].0 && same_json(ys@[i].1, xs@[i].1) by {
                assert(xs@[i].0 == ys@[i].0);
                lemma_same_json_symmetric(xs@[i].1, ys@[i].1);
            }
            assert(b == JsonValue::Object(ys));
            assert(same_json(b, a));
        },
        _ => {},
    }
}

/// The member names of an object, in order.
pub open spec fn names_of(es: Seq<(String, JsonValue)>) -> Seq<Seq<char>> {
    es.map_values(|e: (String, JsonValue)| e.0@)
}

/// In an object whose member names are `names`, where the `k`-th is the
/// first one equal to `keys[0]`, the field found under `keys` is the value of
/// that member.
pub proof fn lemma_field_at(j: JsonValue, names: Seq<Seq<char>>, keys: Seq<Seq<char>>, k: int)
    requires
        j is Object,
        names_of(j->Object_0@) == names,
        keys.len() > 0,
        0 <= k < names.len(),
        names[k] == keys[0],
        forall|q: int| 0 <= q < k ==> names[q] != keys[0],
    ensures
        field_of(j, keys) == Some(j->Object_0@[k].1),
{
    let es = j->Object_0@;
    assert forall|q: int| 0 <= q < k implies es[q].0@ != keys[0] by {
        assert(names_of(es)[q] == es[q].0@);
    }
    lemma_lookup_at(es, k, keys[0]);
}

impl Clone for JsonValue {
    /// A deep copy.
    fn clone(&self) -> (r: Self)
        ensures
            same_json(*self, r),
    {
        copy_json(self)
    }
}

/// Whether a value is an object.
pub fn is_object(j: &JsonValue) -> (r: bool)
    ensures
        r == j is Object,
{
    matches!(j, JsonValue::Object(_))
}

/// A deep copy of a JSON value.
pub fn copy_json(j: &JsonValue) -> (r: JsonValue)
    ensures
        same_json(*j, r),
    decreases j,
{
    match j {
        JsonValue::Null => JsonValue::Null,
        JsonValue::Bool(b) => JsonValue::Bool(*b),
        JsonValue::Number(s) => JsonValue::Number(s.clone()),
        JsonValue::Str(s) => JsonValue::Str(s.clone()),
        JsonValue::Array(items) => {
            let mut out: Vec<JsonValue> = Vec::new();
            let mut i: usize = 0;
            while i < items.len()
                invariant
                    i <= items@.len(),
                    out@.len() == i,
                    *j == JsonValue::Array(*items),
                    forall|q: int| 0 <= q < i ==> same_json(#[trigger] items@[q], out@[q]),
                decreases items@.len() - i,
            {
                proof {
                    let v = j->Array_0;
                    assert(v == *items);
                    assert(decreases_to!(*j => v));
                    assert(decreases_to!(v => v@));
                    assert(decreases_to!(v@ => v@[i as int]));
                }
                let c = copy_json(&items[i]);
                out.push(c);
                i = i + 1;
            }
            assert(same_json(*j, JsonValue::Array(out)));
            JsonValue::Array(out)
        },
        JsonValue::Object(es) => {
            let mut out: Vec<(String, JsonValue)> = Vec::new();
            let mut i: usize = 0;
            while i < es.len()
                invariant
                    i <= es@.len(),
                    out@.len() == i,
                    *j == JsonValue::Object(*es),
                    forall|q: int|
                        #![trigger es@[q]]
                        0 <= q < i ==> es@[q].0 == out@[q].0 && same_json(es@[q].1, out@[q].1),
                decreases es@.len() - i,
            {
                proof {
                    let v = j->Object_0;
                    assert(v == *es);
                    assert(decreases_to!(*j => v));
                    assert(decreases_to!(v => v@));
                    assert(decreases_to!(v@ => v@[i as int]));
                    assert(decreases_to!(v@[i as int] => v@[i as int].1));
                }
                let k = es[i].0.clone();
                let c = copy_json(&es[i].1);
                out.push((k, c));
                assert(out@[i as int] == (k, c));
                i = i + 1;
            }
            assert(same_json(*j, JsonValue::Object(out)));
            JsonValue::Object(out)
        },
    }
}

/// The value of the first member named `key`.
fn find_key<'a>(es: &'a Vec<(String, JsonValue)>, key: &str) -> (r: Option<&'a JsonValue>)
    ensures
        match r {
            Some(v) => lookup_key(es@, key@) == Some(*v),
            None => lookup_key(es@, key@) is None,
        },
{
    let k = key.to_string();
    let mut i: usize = 0;
    assert(es@.subrange(0, es@.len() as int) =~= es@);
    while i < es.len()
        invariant
            i <= es@.len(),
            k@ == key@,
            lookup_key(es@, key@) == lookup_key(es@.subrange(i as int, es@.len() as int), key@),
        decreases es@.len() - i,
    {
        let ghost rest = es@.subrange(i as int, es@.len() as int);
        assert(rest.drop_first() =~= es@.subrange(i + 1, es@.len() as int));
        assert(rest[0] == es@[i as int]);
        if es[i].0 == k {
            return Some(&es[i].1);
        }
        i = i + 1;
    }
    None
}

/// The field of an object found under the first of `keys` that it holds.
pub fn field<'a>(j: &'a JsonValue, keys: &[&str]) -> (r: Option<&'a JsonValue>)
    ensures
        match r {
            Some(v) => field_of(*j, key_views(keys@)) == Some(*v),
            None => field_of(*j, key_views(keys@)) is None,
        },
{
    match j {
        JsonValue::Object(es) => {
            let ghost kv = key_views(keys@);
            let mut i: usize = 0;
            assert(kv.subrange(0, kv.len() as int) =~= kv);
            while i < keys.len()
                invariant
                    i <= keys@.len(),
                    kv == key_views(keys@),
                    *j == JsonValue::Object(*es),
                    lookup_keys(es@, kv) == lookup_keys(es@, kv.subrange(i as int, kv.len() as int)),
                decreases keys@.len() - i,
            {
                let ghost rest = kv.subrange(i as int, kv.len() as int);
                assert(rest.drop_first() =~= kv.subrange(i + 1, kv.len() as int));
                assert(rest[0] == keys@[i as int]@);
                match find_key(es, keys[i]) {
                    Some(v) => {
                        assert(lookup_keys(es@, rest) == Some(*v));
                        return Some(v);
                    },
                    None => {},
                }
                i = i + 1;
            }
            None
        },
        _ => None,
    }
}

/// The error for a field that is missing or of the wrong type.
pub fn bad_field(keys: &[&str]) -> (r: AzureError)
    ensures
        r is JsonParse,
{
    let mut m = String::from_str("missing field or wrong type: ");
    if keys.len() > 0 {
        m.append(keys[0]);
    }
    AzureError::JsonParse(m)
}

/// The error for a value that should be an object and is not.
pub fn not_an_object() -> (r: AzureError)
    ensures
        r is JsonParse,
{
    AzureError::JsonParse(String::from_str("expected a JSON object"))
}

/// The error for a value that should be an array and is not.
pub fn not_an_array() -> (r: AzureError)
    ensures
        r is JsonParse,
{
    AzureError::JsonParse(String::from_str("expected a JSON array"))
}

} // verus!
