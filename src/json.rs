use vstd::prelude::*;

verus! {

/// A decoded JSON document, held as plain values.
///
/// An object keeps its entries in the order in which the decoder handed
/// them over; a number keeps the decimal text it was written with.
#[derive(Debug, PartialEq)]
pub enum JsonValue {
    Null,
    Bool(bool),
    Number(String),
    Str(String),
    Array(Vec<JsonValue>),
    Object(Vec<(String, JsonValue)>),
}

} // verus!
