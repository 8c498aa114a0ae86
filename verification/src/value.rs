//! Runtime values and the constant pool.
//!
//! A `Value` is the datum a chunk's constant pool stores. The pool and the
//! disassembler treat it opaquely (store, fetch, hand out); only a renderer
//! outside this library interprets the payload as a number.

use vstd::prelude::*;

verus! {

/// A runtime value: a 64-bit numeric payload, kept as its raw bit pattern.
/// The library never interprets the bits; callers that want to treat the
/// payload as a floating-point number convert at the boundary.
#[derive(Clone, Copy, Debug, PartialEq, Eq, Structural)]
pub struct Value {
    pub bits: u64,
}

impl Value {
    /// Wraps a raw 64-bit payload as a value.
    pub fn from_bits(bits: u64) -> (v: Value)
        ensures
            v.bits == bits,
    {
        Value { bits }
    }

    /// Hands the raw 64-bit payload back.
    pub fn to_bits(&self) -> (bits: u64)
        ensures
            bits == self.bits,
    {
        self.bits
    }
}

/// An append-only ordered sequence of values: once a value is written at an
/// index, that index refers to the same value for the array's whole lifetime.
pub struct ValueArray {
    values: Vec<Value>,
}

impl View for ValueArray {
    type V = Seq<Value>;

    closed spec fn view(&self) -> Seq<Value> {
        self.values@
    }
}

/// What a bounds-checked read of a value sequence returns: the value at the
/// index where the index is in range, and nothing otherwise.
pub open spec fn value_at(values: Seq<Value>, index: int) -> Option<Value> {
    if 0 <= index < values.len() {
        Some(values[index])
    } else {
        None
    }
}

impl ValueArray {
    /// Creates a new, empty value array.
    pub fn new() -> (a: ValueArray)
        ensures
            a@ == Seq::<Value>::empty(),
    {
        ValueArray { values: Vec::new() }
    }

    /// Appends one value; every value written earlier keeps its index.
    pub fn write_value_array(&mut self, value: Value)
        ensures
            final(self)@ == old(self)@.push(value),
    {
        self.values.push(value);
    }

    /// The number of values written so far.
    pub fn len(&self) -> (n: usize)
        ensures
            n == self@.len(),
    {
        self.values.len()
    }

    /// Whether no value has been written yet.
    pub fn is_empty(&self) -> (e: bool)
        ensures
            e == (self@.len() == 0),
    {
        self.values.len() == 0
    }

    /// Bounds-checked read: the value at `index`, or nothing when `index`
    /// is past the end.
    pub fn get(&self, index: usize) -> (r: Option<Value>)
        ensures
            r == value_at(self@, index as int),
    {
        if index < self.values.len() {
            Some(self.values[index])
        } else {
            None
        }
    }
}

} // verus!
