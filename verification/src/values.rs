//! The sandbox's value vocabulary, as far as this crate reads it: plain
//! values carried between host and isolate, and the document payloads that
//! round-trip through index metadata unmodified.

use vstd::prelude::*;

verus! {

/// A value of the sandbox's value vocabulary.
#[derive(PartialEq, Eq, Debug)]
pub enum ConvexValue {
    Null,
    Boolean(bool),
    Int64(i64),
    String(String),
    Array(Vec<ConvexValue>),
}

/// An array of sandbox values, used for function arguments.
#[derive(PartialEq, Eq, Debug)]
pub struct ConvexArray(pub Vec<ConvexValue>);

/// A document payload: named fields in order. This crate never interprets
/// one; it carries them through so unrecognized data survives a round trip.
#[derive(PartialEq, Eq, Debug)]
pub struct ConvexObject {
    pub fields: Vec<(String, ConvexValue)>,
}

} // verus!
