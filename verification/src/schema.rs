//! Turning a JSON value into a protobuf `Value`, as a JSON schema is handed to the model.
use vstd::prelude::*;

use crate::text::distinct_names;
use crate::value::{value_names_distinct, Kind, ListValue, Struct, Value};

verus! {

/// A JSON value, as `serde_json::Value` holds it. A number is held as the bits of the `f64`
/// that `serde_json::Number::as_f64` gives, `None` where it gives none.
#[derive(Debug)]
pub enum JsonValue {
    Null,
    Bool(bool),
    Number(Option<u64>),
    String(String),
    Array(Vec<JsonValue>),
    /// The members of an object, in the order the map walks them.
    Object(Vec<(String, JsonValue)>),
}

/// `v` is the protobuf form of `j`: null becomes `NullValue(0)`, a number its `f64` (unset
/// where the number has none), a string, a boolean, an array and an object keep their
/// contents, member by member and in order.
pub open spec fn converts(j: JsonValue, v: Value) -> bool
    decreases j,
{
    match j {
        JsonValue::Null => v.kind == Some(Kind::NullValue(0)),
        JsonValue::Bool(b) => v.kind == Some(Kind::BoolValue(b)),
        JsonValue::Number(n) => match n {
            Some(bits) => v.kind == Some(Kind::NumberValue(bits)),
            None => v.kind is None,
        },
        JsonValue::String(s) => v.kind matches Some(Kind::StringValue(t)) && t@ == s@,
        JsonValue::Array(vs) => v.kind matches Some(Kind::ListValue(l)) && l.values@.len()
            == vs@.len() && forall|i: int|
            0 <= i < vs@.len() ==> converts(#[trigger] vs@[i], l.values@[i]),
        JsonValue::Object(fs) => v.kind matches Some(Kind::StructValue(st)) && st.fields@.len()
            == fs@.len() && forall|i: int|
            0 <= i < fs@.len() ==> st.fields@[i].0@ == (#[trigger] fs@[i]).0@ && converts(
                fs@[i].1,
                st.fields@[i].1,
            ),
    }
}

/// Scalars are kept exactly: null becomes the null value, a boolean the same boolean, a string
/// the same text, and a number that has an `f64` a `NumberValue` of those very bits, for every
/// number (zero and negative zero included). The kind is left unset for a number without an
/// `f64`, and for nothing else.
pub proof fn lemma_scalars_kept(j: JsonValue, v: Value)
    requires
        converts(j, v),
    ensures
        j is Null ==> v.kind == Some(Kind::NullValue(0)),
        forall|b: bool| j == JsonValue::Bool(b) ==> v.kind == Some(Kind::BoolValue(b)),
        forall|bits: u64| j == JsonValue::Number(Some(bits)) ==> v.kind == Some(Kind::NumberValue(bits)),
        j is String ==> (v.kind matches Some(Kind::StringValue(t)) && t@ == j->String_0@),
        v.kind is None <==> j == JsonValue::Number(None),
{
}

/// Arrays and objects keep their contents: an array becomes a list of as many values, each the
/// conversion of the element at the same place; an object becomes a struct of as many fields,
/// each with the member's name at the same place and the conversion of its value.
pub proof fn lemma_containers_kept(j: JsonValue, v: Value)
    requires
        converts(j, v),
    ensures
        j is Array ==> (v.kind matches Some(Kind::ListValue(l)) && l.values@.len() == j->Array_0@.len()
            && forall|i: int|
            0 <= i < l.values@.len() ==> converts(j->Array_0@[i], #[trigger] l.values@[i])),
        j is Object ==> (v.kind matches Some(Kind::StructValue(st)) && st.fields@.len()
            == j->Object_0@.len() && forall|i: int|
            0 <= i < st.fields@.len() ==> (#[trigger] st.fields@[i]).0@ == j->Object_0@[i].0@
                && converts(j->Object_0@[i].1, st.fields@[i].1)),
{
}

/// Two JSON numbers with an `f64` convert to the same kind exactly when they are the same
/// number: no number is lost or merged with another.
pub proof fn lemma_numbers_kept_apart(a: u64, b: u64, va: Value, vb: Value)
    requires
        converts(JsonValue::Number(Some(a)), va),
        converts(JsonValue::Number(Some(b)), vb),
    ensures
        va.kind is Some && vb.kind is Some,
        va.kind == vb.kind <==> a == b,
{
}

/// Every object in `j`, at any depth, has each member name once, as `serde_json`'s map holds
/// it.
pub open spec fn json_names_distinct(j: JsonValue) -> bool
    decreases j,
{
    match j {
        JsonValue::Array(vs) => forall|i: int|
            0 <= i < vs@.len() ==> json_names_distinct(#[trigger] vs@[i]),
        JsonValue::Object(fs) => distinct_names(fs@) && forall|i: int|
            0 <= i < fs@.len() ==> json_names_distinct((#[trigger] fs@[i]).1),
        _ => true,
    }
}

/// The conversion keeps member names distinct: where every object of the JSON value has each
/// name once, so does every struct of its protobuf form.
pub proof fn lemma_converts_keeps_names_distinct(j: JsonValue, v: Value)
    requires
        converts(j, v),
        json_names_distinct(j),
    ensures
        value_names_distinct(v),
    decreases j,
{
    match j {
        JsonValue::Array(vs) => {
            let l = v.kind->Some_0->ListValue_0;
            assert forall|i: int| 0 <= i < l.values@.len() implies value_names_distinct(
                #[trigger] l.values@[i],
            ) by {
                assert(decreases_to!(j => vs));
                assert(decreases_to!(vs => vs@));
                assert(decreases_to!(vs@ => vs@[i]));
                assert(converts(vs@[i], l.values@[i]));
                lemma_converts_keeps_names_distinct(vs@[i], l.values@[i]);
            }
        },
        JsonValue::Object(fs) => {
            let st = v.kind->Some_0->StructValue_0;
            assert forall|a: int, b: int| 0 <= a < b < st.fields@.len() implies (
            #[trigger] st.fields@[a]).0@ != (#[trigger] st.fields@[b]).0@ by {
                assert(fs@[a].0@ == st.fields@[a].0@);
                assert(fs@[b].0@ == st.fields@[b].0@);
            }
            assert forall|i: int| 0 <= i < st.fields@.len() implies value_names_distinct(
                (#[trigger] st.fields@[i]).1,
            ) by {
                assert(decreases_to!(j => fs));
                assert(decreases_to!(fs => fs@));
                assert(decreases_to!(fs@ => fs@[i]));
                assert(decreases_to!(fs@[i] => fs@[i].1));
                assert(converts(fs@[i].1, st.fields@[i].1));
                assert(json_names_distinct(fs@[i].1));
                lemma_converts_keeps_names_distinct(fs@[i].1, st.fields@[i].1);
            }
        },
        _ => {},
    }
}

/// The protobuf form of a JSON value.
pub fn convert_to_value(val: &JsonValue) -> (r: Value)
    ensures
        converts(*val, r),
        json_names_distinct(*val) ==> value_names_distinct(r),
    decreases val,
{
    let kind = match val {
        JsonValue::Null => Kind::NullValue(0),
        JsonValue::Bool(b) => Kind::BoolValue(*b),
        JsonValue::Number(n) => {
            return Value {
                kind: match n {
                    Some(bits) => Some(Kind::NumberValue(*bits)),
                    None => None,
                },
            };
        },
        JsonValue::String(s) => Kind::StringValue(s.clone()),
        JsonValue::Array(values) => {
            let mut list: Vec<Value> = Vec::new();
            let mut i: usize = 0;
            while i < values.len()
                invariant
                    i <= values@.len(),
                    *val == JsonValue::Array(*values),
                    list@.len() == i,
                    forall|k: int| 0 <= k < i ==> converts(#[trigger] values@[k], list@[k]),
                decreases values@.len() - i,
            {
                proof {
                    assert(decreases_to!(*val => (*val)->Array_0));
                    assert(decreases_to!(*values => values@));
                    assert(decreases_to!(values@ => values@[i as int]));
                }
                list.push(convert_to_value(&values[i]));
                i = i + 1;
            }
            Kind::ListValue(ListValue { values: list })
        },
        JsonValue::Object(map) => {
            let mut fields: Vec<(String, Value)> = Vec::new();
            let mut i: usize = 0;
            while i < map.len()
                invariant
                    i <= map@.len(),
                    *val == JsonValue::Object(*map),
                    fields@.len() == i,
                    forall|k: int|
                        0 <= k < i ==> fields@[k].0@ == (#[trigger] map@[k]).0@ && converts(
                            map@[k].1,
                            fields@[k].1,
                        ),
                decreases map@.len() - i,
            {
                proof {
                    assert(decreases_to!(*val => (*val)->Object_0));
                    assert(decreases_to!(*map => map@));
                    assert(decreases_to!(map@ => map@[i as int]));
                    assert(decreases_to!(map@[i as int] => map@[i as int].1));
                }
                let key = map[i].0.clone();
                let v = convert_to_value(&map[i].1);
                fields.push((key, v));
                i = i + 1;
            }
            Kind::StructValue(Struct { fields })
        },
    };
    let r = Value { kind: Some(kind) };
    proof {
        if json_names_distinct(*val) {
            lemma_converts_keeps_names_distinct(*val, r);
        }
    }
    r
}

impl From<JsonValue> for Value {
    /// The protobuf form of a JSON value.
    fn from(value: JsonValue) -> (r: Value)
        ensures
            converts(value, r),
            json_names_distinct(value) ==> value_names_distinct(r),
    {
        convert_to_value(&value)
    }
}

impl vstd::std_specs::convert::FromSpecImpl<JsonValue> for Value {
    /// The conversion is stated by `converts` on `from` itself.
    open spec fn obeys_from_spec() -> bool {
        false
    }

    open spec fn from_spec(v: JsonValue) -> Value {
        arbitrary()
    }
}

} // verus!
