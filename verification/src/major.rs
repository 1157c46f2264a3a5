//! The three-bit type tag of an item.

use vstd::prelude::*;

verus! {

/// The type of an item, held in the upper three bits of its prefix byte.
#[derive(Copy, Clone, Debug, PartialEq, Eq, Structural)]
pub enum Major {
    /// A non-negative integer.
    Positive,
    /// A negative integer, stored as `-1 - value`.
    Negative,
    /// A byte string.
    Bytes,
    /// A text string.
    Text,
    /// An array of items.
    Array,
    /// A map of pairs of items.
    Mapping,
    /// A tag on the item that follows.
    Tag,
    /// Simple values, floats and the break marker.
    Other,
}

impl Major {
    /// The number that stands for this type on the wire, from 0 to 7.
    pub open spec fn code(self) -> u8 {
        match self {
            Major::Positive => 0,
            Major::Negative => 1,
            Major::Bytes => 2,
            Major::Text => 3,
            Major::Array => 4,
            Major::Mapping => 5,
            Major::Tag => 6,
            Major::Other => 7,
        }
    }

    /// The type that stands in the upper three bits of `prefix`.
    pub open spec fn of_prefix(prefix: u8) -> Major {
        let c = prefix / 32;
        if c == 0 {
            Major::Positive
        } else if c == 1 {
            Major::Negative
        } else if c == 2 {
            Major::Bytes
        } else if c == 3 {
            Major::Text
        } else if c == 4 {
            Major::Array
        } else if c == 5 {
            Major::Mapping
        } else if c == 6 {
            Major::Tag
        } else {
            Major::Other
        }
    }

    /// Whether items of this type declare a length: strings, arrays and maps.
    pub open spec fn has_length(self) -> bool {
        self == Major::Bytes || self == Major::Text || self == Major::Array || self == Major::Mapping
    }

    /// Returns the wire code of this type.
    pub fn tag(self) -> (c: u8)
        ensures
            c == self.code(),
            c < 8,
    {
        match self {
            Major::Positive => 0,
            Major::Negative => 1,
            Major::Bytes => 2,
            Major::Text => 3,
            Major::Array => 4,
            Major::Mapping => 5,
            Major::Tag => 6,
            Major::Other => 7,
        }
    }

    /// Reads the type out of the upper three bits of a prefix byte.
    pub fn from_prefix(prefix: u8) -> (m: Major)
        ensures
            m == Major::of_prefix(prefix),
            m.code() == prefix / 32,
    {
        assert(prefix >> 5 == prefix / 32) by (bit_vector);
        let c: u8 = prefix >> 5;
        if c == 0 {
            Major::Positive
        } else if c == 1 {
            Major::Negative
        } else if c == 2 {
            Major::Bytes
        } else if c == 3 {
            Major::Text
        } else if c == 4 {
            Major::Array
        } else if c == 5 {
            Major::Mapping
        } else if c == 6 {
            Major::Tag
        } else {
            Major::Other
        }
    }
}

} // verus!
