//! The protobuf `Value` (a JSON value as `google.protobuf.Struct` holds it).
use vstd::prelude::*;

use crate::text::distinct_names;

verus! {

/// The one variant of `google.protobuf.NullValue`.
#[derive(Debug, Clone, Copy, PartialEq, Eq, Structural)]
pub enum NullValue {
    NullValue,
}

/// A dynamically typed value: null, a number, a string, a boolean, a struct or a list.
#[derive(Debug)]
pub struct Value {
    /// `None` where the value is unset.
    pub kind: Option<Kind>,
}

/// The kinds of `Value`.
#[derive(Debug)]
pub enum Kind {
    /// The number of `NullValue::NullValue`, 0.
    NullValue(i32),
    /// A double, held as the bits of its IEEE 754 binary64 representation.
    NumberValue(u64),
    StringValue(String),
    BoolValue(bool),
    StructValue(Struct),
    ListValue(ListValue),
}

/// A JSON object: names and values.
#[derive(Debug)]
pub struct Struct {
    pub fields: Vec<(String, Value)>,
}

/// A JSON array.
#[derive(Debug)]
pub struct ListValue {
    pub values: Vec<Value>,
}

/// Every struct in `v`, at any depth, has each field name once, as the protobuf map holds it.
pub open spec fn value_names_distinct(v: Value) -> bool
    decreases v,
{
    match v.kind {
        Some(Kind::ListValue(l)) => forall|i: int|
            0 <= i < l.values@.len() ==> value_names_distinct(#[trigger] l.values@[i]),
        Some(Kind::StructValue(st)) => distinct_names(st.fields@) && forall|i: int|
            0 <= i < st.fields@.len() ==> value_names_distinct((#[trigger] st.fields@[i]).1),
        _ => true,
    }
}

} // verus!
