//! Conversions between titles and the primitive numeric types.

use crate::error::InvalidError;
use crate::major::Major;
use crate::minor::{FloatBits, Immediate, Minor};
use crate::title::Title;
use vstd::prelude::*;
use vstd::std_specs::convert::{FromSpecImpl, TryFromSpecImpl};

verus! {

/// The magnitude stored for a negative number: every bit of it flipped,
/// which is `-1 - v`.
fn fold_negative(v: i64) -> (m: u64)
    requires
        v < 0,
    ensures
        m == -1 - v,
{
    assert(((v as u64) ^ !0u64) == (-1 - v) as u64) by (bit_vector)
        requires
            v < 0,
    ;
    (v as u64) ^ !0u64
}

/// Flips every bit of `v`, which takes `v` to `-1 - v` and back.
fn flip(v: i128) -> (m: i128)
    ensures
        m == -1 - v,
{
    assert((v ^ !0i128) == -1 - v) by (bit_vector);
    v ^ !0i128
}

/// The title of a 64-bit signed number.
fn signed_title(v: i64) -> (t: Title)
    ensures
        t == Title::of_integer(v as int),
        t.wf(),
{
    if v < 0 {
        Title(Major::Negative, Minor::from_u64(fold_negative(v)))
    } else {
        Title(Major::Positive, Minor::from_u64(v as u64))
    }
}

impl From<bool> for Title {
    fn from(value: bool) -> (t: Title) {
        if value {
            Title::true_value()
        } else {
            Title::false_value()
        }
    }
}

impl FromSpecImpl<bool> for Title {
    open spec fn obeys_from_spec() -> bool {
        true
    }

    open spec fn from_spec(v: bool) -> Title {
        Title::of_bool(v)
    }
}

impl TryFrom<Title> for bool {
    type Error = InvalidError;

    fn try_from(value: Title) -> (r: Result<bool, InvalidError>) {
        match (value.0, value.1) {
            (Major::Other, Minor::Immediate(i)) => {
                proof {
                    Immediate::lemma_of_value(i);
                    Immediate::lemma_value_of(20);
                    Immediate::lemma_value_of(21);
                }
                let code: u8 = i.get();
                if code == 21 {
                    Ok(true)
                } else if code == 20 {
                    Ok(false)
                } else {
                    Err(InvalidError)
                }
            },
            _ => Err(InvalidError),
        }
    }
}

impl TryFromSpecImpl<Title> for bool {
    open spec fn obeys_try_from_spec() -> bool {
        true
    }

    open spec fn try_from_spec(v: Title) -> Result<bool, InvalidError> {
        if v == Title::of_bool(true) {
            Ok(true)
        } else if v == Title::of_bool(false) {
            Ok(false)
        } else {
            Err(InvalidError)
        }
    }
}

impl From<u8> for Title {
    fn from(value: u8) -> (t: Title) {
        Title(Major::Positive, Minor::from_u64(value as u64))
    }
}

impl FromSpecImpl<u8> for Title {
    open spec fn obeys_from_spec() -> bool {
        true
    }

    open spec fn from_spec(v: u8) -> Title {
        Title::of_integer(v as int)
    }
}

impl From<u16> for Title {
    fn from(value: u16) -> (t: Title) {
        Title(Major::Positive, Minor::from_u64(value as u64))
    }
}

impl FromSpecImpl<u16> for Title {
    open spec fn obeys_from_spec() -> bool {
        true
    }

    open spec fn from_spec(v: u16) -> Title {
        Title::of_integer(v as int)
    }
}

impl From<u32> for Title {
    fn from(value: u32) -> (t: Title) {
        Title(Major::Positive, Minor::from_u64(value as u64))
    }
}

impl FromSpecImpl<u32> for Title {
    open spec fn obeys_from_spec() -> bool {
        true
    }

    open spec fn from_spec(v: u32) -> Title {
        Title::of_integer(v as int)
    }
}

impl From<u64> for Title {
    fn from(value: u64) -> (t: Title) {
        Title(Major::Positive, Minor::from_u64(value))
    }
}

impl FromSpecImpl<u64> for Title {
    open spec fn obeys_from_spec() -> bool {
        true
    }

    open spec fn from_spec(v: u64) -> Title {
        Title::of_integer(v as int)
    }
}

impl TryFrom<u128> for Title {
    type Error = InvalidError;

    fn try_from(value: u128) -> (r: Result<Title, InvalidError>) {
        if value <= u64::MAX as u128 {
            Ok(Title(Major::Positive, Minor::from_u64(value as u64)))
        } else {
            Err(InvalidError)
        }
    }
}

impl TryFromSpecImpl<u128> for Title {
    open spec fn obeys_try_from_spec() -> bool {
        true
    }

    open spec fn try_from_spec(v: u128) -> Result<Title, InvalidError> {
        if Title::holds(v as int) {
            Ok(Title::of_integer(v as int))
        } else {
            Err(InvalidError)
        }
    }
}

impl From<i8> for Title {
    fn from(value: i8) -> (t: Title) {
        signed_title(value as i64)
    }
}

impl FromSpecImpl<i8> for Title {
    open spec fn obeys_from_spec() -> bool {
        true
    }

    open spec fn from_spec(v: i8) -> Title {
        Title::of_integer(v as int)
    }
}

impl From<i16> for Title {
    fn from(value: i16) -> (t: Title) {
        signed_title(value as i64)
    }
}

impl FromSpecImpl<i16> for Title {
    open spec fn obeys_from_spec() -> bool {
        true
    }

    open spec fn from_spec(v: i16) -> Title {
        Title::of_integer(v as int)
    }
}

impl From<i32> for Title {
    fn from(value: i32) -> (t: Title) {
        signed_title(value as i64)
    }
}

impl FromSpecImpl<i32> for Title {
    open spec fn obeys_from_spec() -> bool {
        true
    }

    open spec fn from_spec(v: i32) -> Title {
        Title::of_integer(v as int)
    }
}

impl From<i64> for Title {
    fn from(value: i64) -> (t: Title) {
        signed_title(value)
    }
}

impl FromSpecImpl<i64> for Title {
    open spec fn obeys_from_spec() -> bool {
        true
    }

    open spec fn from_spec(v: i64) -> Title {
        Title::of_integer(v as int)
    }
}

impl TryFrom<i128> for Title {
    type Error = InvalidError;

    fn try_from(value: i128) -> (r: Result<Title, InvalidError>) {
        if value < 0 {
            let m: i128 = flip(value);
            if m <= u64::MAX as i128 {
                Ok(Title(Major::Negative, Minor::from_u64(m as u64)))
            } else {
                Err(InvalidError)
            }
        } else if value <= u64::MAX as i128 {
            Ok(Title(Major::Positive, Minor::from_u64(value as u64)))
        } else {
            Err(InvalidError)
        }
    }
}

impl TryFromSpecImpl<i128> for Title {
    open spec fn obeys_try_from_spec() -> bool {
        true
    }

    open spec fn try_from_spec(v: i128) -> Result<Title, InvalidError> {
        if Title::holds(v as int) {
            Ok(Title::of_integer(v as int))
        } else {
            Err(InvalidError)
        }
    }
}

impl TryFrom<Title> for i128 {
    type Error = InvalidError;

    fn try_from(value: Title) -> (r: Result<i128, InvalidError>) {
        match value.1.value() {
            Some(m) => match value.0 {
                Major::Positive => Ok(m as i128),
                Major::Negative => Ok(flip(m as i128)),
                _ => Err(InvalidError),
            },
            None => Err(InvalidError),
        }
    }
}

impl TryFromSpecImpl<Title> for i128 {
    open spec fn obeys_try_from_spec() -> bool {
        true
    }

    open spec fn try_from_spec(v: Title) -> Result<i128, InvalidError> {
        match v.integer() {
            Some(n) => Ok(n as i128),
            None => Err(InvalidError),
        }
    }
}

impl TryFrom<Title> for Option<usize> {
    type Error = InvalidError;

    fn try_from(value: Title) -> (r: Result<Option<usize>, InvalidError>) {
        match value.0 {
            Major::Bytes | Major::Text | Major::Array | Major::Mapping => match value.1.value() {
                Some(m) => if m <= usize::MAX as u64 {
                    Ok(Some(m as usize))
                } else {
                    Err(InvalidError)
                },
                None => Ok(None),
            },
            _ => Err(InvalidError),
        }
    }
}

impl TryFromSpecImpl<Title> for Option<usize> {
    open spec fn obeys_try_from_spec() -> bool {
        true
    }

    open spec fn try_from_spec(v: Title) -> Result<Option<usize>, InvalidError> {
        match v.length() {
            Some(None) => Ok(None),
            Some(Some(m)) => if m <= usize::MAX {
                Ok(Some(m as usize))
            } else {
                Err(InvalidError)
            },
            None => Err(InvalidError),
        }
    }
}

impl Title {
    /// The float bits that this title carries: those of its minor, if the
    /// title is of the other kind.
    pub open spec fn as_float_bits(self) -> Option<FloatBits> {
        if self.0 == Major::Other {
            self.1.as_float_bits()
        } else {
            None
        }
    }

    /// Reads this title as a float, returned as its bits.
    ///
    /// Fails unless the title is of the other kind and its minor has two,
    /// four or eight trailing bytes.
    pub fn float_bits(&self) -> (r: Result<FloatBits, InvalidError>)
        ensures
            r is Ok <==> self.as_float_bits() is Some,
            r is Ok ==> Some(r->Ok_0) == self.as_float_bits(),
    {
        match self.0 {
            Major::Other => self.1.float_bits(),
            _ => Err(InvalidError),
        }
    }

    /// Makes the title of a float from its bits, in the width given.
    pub fn from_float_bits(bits: FloatBits) -> (t: Title)
        ensures
            t == Title(Major::Other, Minor::of_float_bits(bits)),
            t.as_float_bits() == Some(bits),
    {
        Title(Major::Other, Minor::from_float_bits(bits))
    }
}

} // verus!
