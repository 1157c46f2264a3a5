//! A dynamic value: what an item of the format can hold.

use crate::minor::FloatBits;
use vstd::prelude::*;
use vstd::std_specs::convert::FromSpecImpl;

verus! {

/// A value of the format, held as a tree.
#[non_exhaustive]
#[derive(Debug, Hash, PartialEq, Eq, PartialOrd, Ord)]
pub enum Value {
    /// An integer.
    Integer(i128),
    /// A byte string.
    Bytes(Vec<u8>),
    /// A float, as its bits.
    Float(FloatBits),
    /// A text string.
    Text(String),
    /// A truth value.
    Bool(bool),
    /// The null value.
    Null,
    /// An array of values.
    Array(Vec<Value>),
    /// A map, as its pairs of key and value in order.
    Mapping(Vec<(Value, Value)>),
}

impl Clone for Value {
    fn clone(&self) -> (v: Value)
        decreases self,
    {
        match self {
            Value::Integer(i) => Value::Integer(*i),
            Value::Bytes(b) => Value::Bytes(b.clone()),
            Value::Float(f) => Value::Float(*f),
            Value::Text(t) => Value::Text(t.clone()),
            Value::Bool(b) => Value::Bool(*b),
            Value::Null => Value::Null,
            Value::Array(items) => {
                let mut out: Vec<Value> = Vec::new();
                let mut i: usize = 0;
                while i < items.len()
                    invariant
                        i <= items.len(),
                        *self == Value::Array(*items),
                    decreases items.len() - i,
                {
                    proof {
                        vstd::std_specs::vec::axiom_vec_index_decreases(*items, i as int);
                        assert(decreases_to!(*self => self->Array_0));
                    }
                    out.push(items[i].clone());
                    i += 1;
                }
                Value::Array(out)
            },
            Value::Mapping(pairs) => {
                let mut out: Vec<(Value, Value)> = Vec::new();
                let mut i: usize = 0;
                while i < pairs.len()
                    invariant
                        i <= pairs.len(),
                        *self == Value::Mapping(*pairs),
                    decreases pairs.len() - i,
                {
                    proof {
                        vstd::std_specs::vec::axiom_vec_index_decreases(*pairs, i as int);
                        assert(decreases_to!(*self => self->Mapping_0));
                    }
                    out.push((pairs[i].0.clone(), pairs[i].1.clone()));
                    i += 1;
                }
                Value::Mapping(out)
            },
        }
    }
}

/// `String::push`: the string afterwards is the string before with `c` at
/// its end.
#[verifier::external_body]
fn push_char(s: &mut String, c: char)
    ensures
        final(s)@ == old(s)@.push(c),
{
    s.push(c)
}

impl From<i128> for Value {
    fn from(value: i128) -> (v: Value) {
        Value::Integer(value)
    }
}

impl FromSpecImpl<i128> for Value {
    open spec fn obeys_from_spec() -> bool {
        true
    }

    open spec fn from_spec(v: i128) -> Value {
        Value::Integer(v as i128)
    }
}

impl From<u64> for Value {
    fn from(value: u64) -> (v: Value) {
        Value::Integer(value as i128)
    }
}

impl FromSpecImpl<u64> for Value {
    open spec fn obeys_from_spec() -> bool {
        true
    }

    open spec fn from_spec(v: u64) -> Value {
        Value::Integer(v as i128)
    }
}

impl From<i64> for Value {
    fn from(value: i64) -> (v: Value) {
        Value::Integer(value as i128)
    }
}

impl FromSpecImpl<i64> for Value {
    open spec fn obeys_from_spec() -> bool {
        true
    }

    open spec fn from_spec(v: i64) -> Value {
        Value::Integer(v as i128)
    }
}

impl From<u32> for Value {
    fn from(value: u32) -> (v: Value) {
        Value::Integer(value as i128)
    }
}

impl FromSpecImpl<u32> for Value {
    open spec fn obeys_from_spec() -> bool {
        true
    }

    open spec fn from_spec(v: u32) -> Value {
        Value::Integer(v as i128)
    }
}

impl From<i32> for Value {
    fn from(value: i32) -> (v: Value) {
        Value::Integer(value as i128)
    }
}

impl FromSpecImpl<i32> for Value {
    open spec fn obeys_from_spec() -> bool {
        true
    }

    open spec fn from_spec(v: i32) -> Value {
        Value::Integer(v as i128)
    }
}

impl From<u16> for Value {
    fn from(value: u16) -> (v: Value) {
        Value::Integer(value as i128)
    }
}

impl FromSpecImpl<u16> for Value {
    open spec fn obeys_from_spec() -> bool {
        true
    }

    open spec fn from_spec(v: u16) -> Value {
        Value::Integer(v as i128)
    }
}

impl From<i16> for Value {
    fn from(value: i16) -> (v: Value) {
        Value::Integer(value as i128)
    }
}

impl FromSpecImpl<i16> for Value {
    open spec fn obeys_from_spec() -> bool {
        true
    }

    open spec fn from_spec(v: i16) -> Value {
        Value::Integer(v as i128)
    }
}

impl From<u8> for Value {
    fn from(value: u8) -> (v: Value) {
        Value::Integer(value as i128)
    }
}

impl FromSpecImpl<u8> for Value {
    open spec fn obeys_from_spec() -> bool {
        true
    }

    open spec fn from_spec(v: u8) -> Value {
        Value::Integer(v as i128)
    }
}

impl From<i8> for Value {
    fn from(value: i8) -> (v: Value) {
        Value::Integer(value as i128)
    }
}

impl FromSpecImpl<i8> for Value {
    open spec fn obeys_from_spec() -> bool {
        true
    }

    open spec fn from_spec(v: i8) -> Value {
        Value::Integer(v as i128)
    }
}

impl From<bool> for Value {
    fn from(value: bool) -> (v: Value) {
        Value::Bool(value)
    }
}

impl FromSpecImpl<bool> for Value {
    open spec fn obeys_from_spec() -> bool {
        true
    }

    open spec fn from_spec(v: bool) -> Value {
        Value::Bool(v)
    }
}

impl From<FloatBits> for Value {
    fn from(value: FloatBits) -> (v: Value) {
        Value::Float(value)
    }
}

impl FromSpecImpl<FloatBits> for Value {
    open spec fn obeys_from_spec() -> bool {
        true
    }

    open spec fn from_spec(v: FloatBits) -> Value {
        Value::Float(v)
    }
}

impl From<Vec<u8>> for Value {
    fn from(value: Vec<u8>) -> (v: Value) {
        Value::Bytes(value)
    }
}

impl FromSpecImpl<Vec<u8>> for Value {
    open spec fn obeys_from_spec() -> bool {
        true
    }

    open spec fn from_spec(v: Vec<u8>) -> Value {
        Value::Bytes(v)
    }
}

impl From<String> for Value {
    fn from(value: String) -> (v: Value) {
        Value::Text(value)
    }
}

impl FromSpecImpl<String> for Value {
    open spec fn obeys_from_spec() -> bool {
        true
    }

    open spec fn from_spec(v: String) -> Value {
        Value::Text(v)
    }
}

impl From<Vec<Value>> for Value {
    fn from(value: Vec<Value>) -> (v: Value) {
        Value::Array(value)
    }
}

impl FromSpecImpl<Vec<Value>> for Value {
    open spec fn obeys_from_spec() -> bool {
        true
    }

    open spec fn from_spec(v: Vec<Value>) -> Value {
        Value::Array(v)
    }
}

impl From<Vec<(Value, Value)>> for Value {
    fn from(value: Vec<(Value, Value)>) -> (v: Value) {
        Value::Mapping(value)
    }
}

impl FromSpecImpl<Vec<(Value, Value)>> for Value {
    open spec fn obeys_from_spec() -> bool {
        true
    }

    open spec fn from_spec(v: Vec<(Value, Value)>) -> Value {
        Value::Mapping(v)
    }
}

impl From<char> for Value {
    /// The text of one character.
    fn from(value: char) -> (v: Value)
        ensures
            v is Text,
            v->Text_0@ == seq![value],
    {
        let mut s = String::new();
        push_char(&mut s, value);
        assert(s@ =~= seq![value]);
        Value::Text(s)
    }
}

impl FromSpecImpl<char> for Value {
    /// A string has no literal form in specifications: the contract of
    /// `from` says what the text holds.
    open spec fn obeys_from_spec() -> bool {
        false
    }

    open spec fn from_spec(v: char) -> Value {
        Value::Null
    }
}

} // verus!
