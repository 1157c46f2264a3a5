//! The five-bit descriptor of an item's value or length, and its trailer.

use crate::error::InvalidError;
use vstd::prelude::*;
use vstd::std_specs::convert::{FromSpecImpl, TryFromSpecImpl};

verus! {

/// A value from 0 to 23, small enough to sit in the prefix byte itself.
#[derive(Copy, Clone, Debug, PartialEq, Eq)]
pub struct Immediate(pub(crate) u8);

impl Immediate {
    #[verifier::type_invariant]
    spec fn inv(self) -> bool {
        self.0 < 24
    }

    /// The number held.
    pub closed spec fn value(self) -> u8 {
        self.0
    }

    /// The immediate that holds `v`.
    pub closed spec fn of(v: u8) -> Immediate {
        Immediate(v)
    }

    /// `of` builds the immediate with the given value, and no other
    /// immediate has that value.
    pub broadcast proof fn lemma_of_value(i: Immediate)
        ensures
            #[trigger] Immediate::of(i.value()) == i,
    {
    }

    /// The value of `of(v)` is `v`.
    pub broadcast proof fn lemma_value_of(v: u8)
        ensures
            #[trigger] Immediate::of(v).value() == v,
    {
    }

    /// Makes an immediate of `v`, if `v` is below 24.
    pub fn new(v: u8) -> (r: Result<Immediate, InvalidError>)
        ensures
            r == (if v < 24 {
                Ok::<Immediate, InvalidError>(Immediate::of(v))
            } else {
                Err(InvalidError)
            }),
    {
        if v < 24 {
            Ok(Immediate(v))
        } else {
            Err(InvalidError)
        }
    }

    /// Makes an immediate of a number known to be below 24.
    pub(crate) fn small(v: u8) -> (i: Immediate)
        requires
            v < 24,
        ensures
            i == Immediate::of(v),
    {
        Immediate(v)
    }

    /// Returns the number held, which is below 24.
    pub fn get(self) -> (v: u8)
        ensures
            v == self.value(),
            v < 24,
    {
        proof {
            use_type_invariant(self);
        }
        self.0
    }
}

/// How an item's value or length is encoded.
#[derive(Copy, Clone, Debug, PartialEq, Eq)]
pub enum Minor {
    /// The value sits in the prefix byte.
    Immediate(Immediate),
    /// One trailing byte holds the value.
    Subsequent1([u8; 1]),
    /// Two trailing bytes hold the value, most significant first.
    Subsequent2([u8; 2]),
    /// Four trailing bytes hold the value, most significant first.
    Subsequent4([u8; 4]),
    /// Eight trailing bytes hold the value, most significant first.
    Subsequent8([u8; 8]),
    /// The length is not declared; also the break marker.
    Indeterminate,
}

/// Whether a header code is one of the three reserved ones.
pub open spec fn reserved(code: u8) -> bool {
    28 <= code <= 30
}

/// The number of trailing bytes that a header code announces.
pub open spec fn trailer_len(code: u8) -> nat {
    if code == 24 {
        1
    } else if code == 25 {
        2
    } else if code == 26 {
        4
    } else if code == 27 {
        8
    } else {
        0
    }
}

/// Whether `width` is one of the four trailer lengths: 1, 2, 4 or 8.
pub open spec fn is_width(width: nat) -> bool {
    width == 1 || width == 2 || width == 4 || width == 8
}

/// Whether `x` can be spelled in `width` bytes.
pub open spec fn fits(x: u64, width: nat) -> bool {
    if width == 1 {
        x < 0x100
    } else if width == 2 {
        x < 0x1_0000
    } else if width == 4 {
        x < 0x1_0000_0000
    } else {
        width == 8
    }
}

/// The fewest trailing bytes, out of zero, one, two, four and eight, that
/// hold `x`.
pub open spec fn min_width(x: u64) -> nat {
    if x < 24 {
        0
    } else if x < 0x100 {
        1
    } else if x < 0x1_0000 {
        2
    } else if x < 0x1_0000_0000 {
        4
    } else {
        8
    }
}

/// The byte of `x` that counts multiples of `unit`, a power of 256.
pub open spec fn byte_of(x: u64, unit: int) -> u8
    recommends
        unit > 0,
{
    (x as int / unit % 256) as u8
}

/// The raw bits of a floating-point number, by width.
#[derive(Copy, Clone, Debug, Hash, PartialEq, Eq, PartialOrd, Ord, Structural)]
pub enum FloatBits {
    /// Half precision, 16 bits.
    Half(u16),
    /// Single precision, 32 bits.
    Single(u32),
    /// Double precision, 64 bits.
    Double(u64),
}

/// The bytes of a number, each times its unit, add up to the number.
pub proof fn lemma_spelling(x: u64)
    ensures
        x < 0x100 ==> byte_of(x, 1) == x,
        x < 0x1_0000 ==> byte_of(x, 0x100) * 0x100 + byte_of(x, 1) == x,
        x < 0x1_0000_0000 ==> byte_of(x, 0x100_0000) * 0x100_0000 + byte_of(x, 0x1_0000) * 0x1_0000
            + byte_of(x, 0x100) * 0x100 + byte_of(x, 1) == x,
        byte_of(x, 0x100_0000_0000_0000) * 0x100_0000_0000_0000 + byte_of(x, 0x1_0000_0000_0000)
            * 0x1_0000_0000_0000 + byte_of(x, 0x100_0000_0000) * 0x100_0000_0000 + byte_of(
            x,
            0x1_0000_0000,
        ) * 0x1_0000_0000 + byte_of(x, 0x100_0000) * 0x100_0000 + byte_of(x, 0x1_0000) * 0x1_0000
            + byte_of(x, 0x100) * 0x100 + byte_of(x, 1) == x,
{
    let q1 = x as int / 0x100;
    let q2 = q1 / 0x100;
    let q3 = q2 / 0x100;
    let q4 = q3 / 0x100;
    let q5 = q4 / 0x100;
    let q6 = q5 / 0x100;
    let q7 = q6 / 0x100;
    assert(q2 == x as int / 0x1_0000);
    assert(q3 == x as int / 0x100_0000);
    assert(q4 == x as int / 0x1_0000_0000);
    assert(q5 == x as int / 0x100_0000_0000);
    assert(q6 == x as int / 0x1_0000_0000_0000);
    assert(q7 == x as int / 0x100_0000_0000_0000);
    assert(q7 < 256);
}

impl Minor {
    /// Every immediate is below 24.
    pub open spec fn wf(self) -> bool {
        match self {
            Minor::Immediate(i) => i.value() < 24,
            _ => true,
        }
    }

    /// The header code in the lower five bits of the prefix byte.
    pub open spec fn header(self) -> u8 {
        match self {
            Minor::Immediate(i) => i.value(),
            Minor::Subsequent1(_) => 24,
            Minor::Subsequent2(_) => 25,
            Minor::Subsequent4(_) => 26,
            Minor::Subsequent8(_) => 27,
            Minor::Indeterminate => 31,
        }
    }

    /// The bytes that follow the prefix byte.
    pub open spec fn trailer(self) -> Seq<u8> {
        match self {
            Minor::Immediate(_) => Seq::empty(),
            Minor::Subsequent1(a) => a@,
            Minor::Subsequent2(a) => a@,
            Minor::Subsequent4(a) => a@,
            Minor::Subsequent8(a) => a@,
            Minor::Indeterminate => Seq::empty(),
        }
    }

    /// The number that this minor holds, its trailer read with the most
    /// significant byte first; an indeterminate one holds none.
    pub open spec fn magnitude(self) -> Option<u64> {
        match self {
            Minor::Immediate(i) => Some(i.value() as u64),
            Minor::Subsequent1(a) => Some(a[0] as u64),
            Minor::Subsequent2(a) => Some((a[0] * 0x100 + a[1]) as u64),
            Minor::Subsequent4(a) => Some(
                (a[0] * 0x100_0000 + a[1] * 0x1_0000 + a[2] * 0x100 + a[3]) as u64,
            ),
            Minor::Subsequent8(a) => Some(
                (a[0] * 0x100_0000_0000_0000 + a[1] * 0x1_0000_0000_0000 + a[2] * 0x100_0000_0000
                    + a[3] * 0x1_0000_0000 + a[4] * 0x100_0000 + a[5] * 0x1_0000 + a[6] * 0x100
                    + a[7]) as u64,
            ),
            Minor::Indeterminate => None,
        }
    }

    /// The minor that spells `x` in `width` trailing bytes, most significant
    /// first, with zero bytes in front where `x` needs fewer.
    pub open spec fn spelled(x: u64, width: nat) -> Minor
        recommends
            is_width(width),
            fits(x, width),
    {
        if width == 1 {
            Minor::Subsequent1([byte_of(x, 1)])
        } else if width == 2 {
            Minor::Subsequent2([byte_of(x, 0x100), byte_of(x, 1)])
        } else if width == 4 {
            Minor::Subsequent4(
                [byte_of(x, 0x100_0000), byte_of(x, 0x1_0000), byte_of(x, 0x100), byte_of(x, 1)],
            )
        } else {
            Minor::Subsequent8(
                [
                    byte_of(x, 0x100_0000_0000_0000),
                    byte_of(x, 0x1_0000_0000_0000),
                    byte_of(x, 0x100_0000_0000),
                    byte_of(x, 0x1_0000_0000),
                    byte_of(x, 0x100_0000),
                    byte_of(x, 0x1_0000),
                    byte_of(x, 0x100),
                    byte_of(x, 1),
                ],
            )
        }
    }

    /// The smallest shape that holds `x`: in the prefix byte up to 23, else
    /// spelled in the fewest of one, two, four or eight bytes.
    pub open spec fn canonical(x: u64) -> Minor {
        if x < 24 {
            Minor::Immediate(Immediate::of(x as u8))
        } else {
            Minor::spelled(x, min_width(x))
        }
    }

    /// The shape for a length that may be undeclared.
    pub open spec fn of_length(length: Option<u64>) -> Minor {
        match length {
            Some(x) => Minor::canonical(x),
            None => Minor::Indeterminate,
        }
    }

    /// The float bits that this minor carries: two, four or eight trailing
    /// bytes read as one number; no other shape carries a float.
    pub open spec fn as_float_bits(self) -> Option<FloatBits> {
        match self {
            Minor::Subsequent2(_) => Some(FloatBits::Half(self.magnitude().unwrap() as u16)),
            Minor::Subsequent4(_) => Some(FloatBits::Single(self.magnitude().unwrap() as u32)),
            Minor::Subsequent8(_) => Some(FloatBits::Double(self.magnitude().unwrap())),
            _ => None,
        }
    }

    /// The shape that carries float bits: always the full width of the
    /// float, however small the number that the bits spell.
    pub open spec fn of_float_bits(bits: FloatBits) -> Minor {
        match bits {
            FloatBits::Half(h) => Minor::spelled(h as u64, 2),
            FloatBits::Single(s) => Minor::spelled(s as u64, 4),
            FloatBits::Double(d) => Minor::spelled(d, 8),
        }
    }

    /// Returns the header code for the prefix byte.
    pub fn code(&self) -> (c: u8)
        ensures
            c == self.header(),
            c < 32,
            !reserved(c),
            self.wf(),
    {
        match self {
            Minor::Immediate(i) => i.get(),
            Minor::Subsequent1(_) => 24,
            Minor::Subsequent2(_) => 25,
            Minor::Subsequent4(_) => 26,
            Minor::Subsequent8(_) => 27,
            Minor::Indeterminate => 31,
        }
    }

    /// Returns the trailing bytes.
    pub fn as_ref(&self) -> (s: &[u8])
        ensures
            s@ == self.trailer(),
            s@.len() == trailer_len(self.header()),
            self.wf(),
    {
        match self {
            Minor::Immediate(i) => {
                let _ = i.get();
                &[]
            },
            Minor::Subsequent1(a) => a,
            Minor::Subsequent2(a) => a,
            Minor::Subsequent4(a) => a,
            Minor::Subsequent8(a) => a,
            Minor::Indeterminate => &[],
        }
    }

    /// Returns the number held, or `None` for an indeterminate minor.
    pub fn value(&self) -> (r: Option<u64>)
        ensures
            r == self.magnitude(),
            r is None <==> *self == Minor::Indeterminate,
    {
        match self {
            Minor::Immediate(i) => Some(i.get() as u64),
            Minor::Subsequent1(a) => Some(a[0] as u64),
            Minor::Subsequent2(a) => Some(a[0] as u64 * 0x100 + a[1] as u64),
            Minor::Subsequent4(a) => Some(
                a[0] as u64 * 0x100_0000 + a[1] as u64 * 0x1_0000 + a[2] as u64 * 0x100
                    + a[3] as u64,
            ),
            Minor::Subsequent8(a) => Some(
                a[0] as u64 * 0x100_0000_0000_0000 + a[1] as u64 * 0x1_0000_0000_0000 + a[2] as u64
                    * 0x100_0000_0000 + a[3] as u64 * 0x1_0000_0000 + a[4] as u64 * 0x100_0000
                    + a[5] as u64 * 0x1_0000 + a[6] as u64 * 0x100 + a[7] as u64,
            ),
            Minor::Indeterminate => None,
        }
    }

    /// Spells `x` in one, two, four or eight trailing bytes. Bytes of `x`
    /// above the width are left out.
    fn spell(x: u64, width: u8) -> (m: Minor)
        requires
            is_width(width as nat),
        ensures
            m == Minor::spelled(x, width as nat),
            m.trailer().len() == width,
    {
        assert((x >> 56) as u8 == (x / 0x100_0000_0000_0000 % 256) as u8 && (x >> 48) as u8 == (x
            / 0x1_0000_0000_0000 % 256) as u8 && (x >> 40) as u8 == (x / 0x100_0000_0000
            % 256) as u8 && (x >> 32) as u8 == (x / 0x1_0000_0000 % 256) as u8)
            by (bit_vector);
        assert((x >> 24) as u8 == (x / 0x100_0000 % 256) as u8 && (x >> 16) as u8 == (x / 0x1_0000
            % 256) as u8 && (x >> 8) as u8 == (x / 0x100 % 256) as u8 && x as u8 == (x / 1
            % 256) as u8) by (bit_vector);
        if width == 1 {
            let a: [u8; 1] = [x as u8];
            assert(a =~= [byte_of(x, 1)]);
            Minor::Subsequent1(a)
        } else if width == 2 {
            let a: [u8; 2] = [(x >> 8) as u8, x as u8];
            assert(a =~= [byte_of(x, 0x100), byte_of(x, 1)]);
            Minor::Subsequent2(a)
        } else if width == 4 {
            let a: [u8; 4] = [(x >> 24) as u8, (x >> 16) as u8, (x >> 8) as u8, x as u8];
            assert(a =~= [
                byte_of(x, 0x100_0000),
                byte_of(x, 0x1_0000),
                byte_of(x, 0x100),
                byte_of(x, 1),
            ]);
            Minor::Subsequent4(a)
        } else {
            let a: [u8; 8] = [
                (x >> 56) as u8,
                (x >> 48) as u8,
                (x >> 40) as u8,
                (x >> 32) as u8,
                (x >> 24) as u8,
                (x >> 16) as u8,
                (x >> 8) as u8,
                x as u8,
            ];
            assert(a =~= [
                byte_of(x, 0x100_0000_0000_0000),
                byte_of(x, 0x1_0000_0000_0000),
                byte_of(x, 0x100_0000_0000),
                byte_of(x, 0x1_0000_0000),
                byte_of(x, 0x100_0000),
                byte_of(x, 0x1_0000),
                byte_of(x, 0x100),
                byte_of(x, 1),
            ]);
            Minor::Subsequent8(a)
        }
    }

    /// Picks the smallest shape that holds `x`.
    pub fn from_u64(x: u64) -> (m: Minor)
        ensures
            m == Minor::canonical(x),
            m.wf(),
            m.magnitude() == Some(x),
            m.trailer().len() == min_width(x),
    {
        proof {
            Minor::lemma_canonical(x);
        }
        if x < 24 {
            Minor::Immediate(Immediate::small(x as u8))
        } else if x < 0x100 {
            Minor::spell(x, 1)
        } else if x < 0x1_0000 {
            Minor::spell(x, 2)
        } else if x < 0x1_0000_0000 {
            Minor::spell(x, 4)
        } else {
            Minor::spell(x, 8)
        }
    }

    /// Picks the shape for a length that may be undeclared.
    pub fn from_length(length: Option<u64>) -> (m: Minor)
        ensures
            m == Minor::of_length(length),
            m.wf(),
            m.magnitude() == length,
    {
        match length {
            Some(x) => Minor::from_u64(x),
            None => Minor::Indeterminate,
        }
    }

    /// Reads the trailer as the bits of a float of that width.
    ///
    /// Fails unless the minor has two, four or eight trailing bytes.
    pub fn float_bits(&self) -> (r: Result<FloatBits, InvalidError>)
        ensures
            r is Ok <==> self.as_float_bits() is Some,
            r is Ok ==> Some(r->Ok_0) == self.as_float_bits(),
    {
        match self {
            Minor::Subsequent2(a) => Ok(FloatBits::Half(a[0] as u16 * 0x100 + a[1] as u16)),
            Minor::Subsequent4(a) => Ok(
                FloatBits::Single(
                    a[0] as u32 * 0x100_0000 + a[1] as u32 * 0x1_0000 + a[2] as u32 * 0x100
                        + a[3] as u32,
                ),
            ),
            Minor::Subsequent8(_) => match self.value() {
                Some(x) => Ok(FloatBits::Double(x)),
                None => Err(InvalidError),
            },
            _ => Err(InvalidError),
        }
    }

    /// Spells float bits in the full width of the float.
    pub fn from_float_bits(bits: FloatBits) -> (m: Minor)
        ensures
            m == Minor::of_float_bits(bits),
            m.as_float_bits() == Some(bits),
    {
        proof {
            Minor::lemma_float_bits(bits);
        }
        match bits {
            FloatBits::Half(h) => Minor::spell(h as u64, 2),
            FloatBits::Single(s) => Minor::spell(s as u64, 4),
            FloatBits::Double(d) => Minor::spell(d, 8),
        }
    }

    /// A number spelled in any width that holds it, the smallest or a wider
    /// one, is read back as that number.
    pub proof fn lemma_spelled(x: u64, width: nat)
        requires
            is_width(width),
            fits(x, width),
        ensures
            Minor::spelled(x, width).wf(),
            Minor::spelled(x, width).magnitude() == Some(x),
            Minor::spelled(x, width).trailer().len() == width,
    {
        lemma_spelling(x);
    }

    /// The canonical shape of `x` is well formed, holds `x`, and has the
    /// fewest trailing bytes that can hold it.
    pub proof fn lemma_canonical(x: u64)
        ensures
            Minor::canonical(x).wf(),
            Minor::canonical(x).magnitude() == Some(x),
            Minor::canonical(x).trailer().len() == min_width(x),
    {
        broadcast use Immediate::lemma_value_of;

        if x >= 24 {
            Minor::lemma_spelled(x, min_width(x));
        }
    }

    /// No well-formed minor holds `x` in fewer trailing bytes than the
    /// canonical shape of `x` does.
    pub proof fn lemma_canonical_minimal(x: u64, m: Minor)
        requires
            m.wf(),
            m.magnitude() == Some(x),
        ensures
            Minor::canonical(x).trailer().len() <= m.trailer().len(),
    {
        Minor::lemma_canonical(x);
    }

    /// Float bits that were spelled in a minor are read back unchanged.
    pub proof fn lemma_float_bits(bits: FloatBits)
        ensures
            Minor::of_float_bits(bits).as_float_bits() == Some(bits),
    {
        match bits {
            FloatBits::Half(h) => Minor::lemma_spelled(h as u64, 2),
            FloatBits::Single(s) => Minor::lemma_spelled(s as u64, 4),
            FloatBits::Double(d) => Minor::lemma_spelled(d, 8),
        }
    }

    /// Two minors with the same header code and the same trailer are the
    /// same minor.
    pub proof fn lemma_same_wire(a: Minor, b: Minor)
        requires
            a.wf(),
            b.wf(),
            a.header() == b.header(),
            a.trailer() == b.trailer(),
        ensures
            a == b,
    {
        broadcast use Immediate::lemma_of_value;

        match (a, b) {
            (Minor::Immediate(i), Minor::Immediate(j)) => {
                assert(Immediate::of(i.value()) == i);
                assert(Immediate::of(j.value()) == j);
            },
            (Minor::Subsequent1(x), Minor::Subsequent1(y)) => {
                assert(x =~= y);
            },
            (Minor::Subsequent2(x), Minor::Subsequent2(y)) => {
                assert(x =~= y);
            },
            (Minor::Subsequent4(x), Minor::Subsequent4(y)) => {
                assert(x =~= y);
            },
            (Minor::Subsequent8(x), Minor::Subsequent8(y)) => {
                assert(x =~= y);
            },
            _ => {},
        }
    }
}

impl TryFrom<u8> for Immediate {
    type Error = InvalidError;

    fn try_from(value: u8) -> (r: Result<Immediate, InvalidError>) {
        Immediate::new(value)
    }
}

impl TryFromSpecImpl<u8> for Immediate {
    open spec fn obeys_try_from_spec() -> bool {
        true
    }

    open spec fn try_from_spec(v: u8) -> Result<Immediate, InvalidError> {
        if v < 24 {
            Ok(Immediate::of(v))
        } else {
            Err(InvalidError)
        }
    }
}

impl From<Immediate> for u8 {
    fn from(value: Immediate) -> (v: u8) {
        value.get()
    }
}

impl FromSpecImpl<Immediate> for u8 {
    open spec fn obeys_from_spec() -> bool {
        true
    }

    open spec fn from_spec(v: Immediate) -> u8 {
        v.value()
    }
}

impl From<u64> for Minor {
    fn from(value: u64) -> (m: Minor) {
        Minor::from_u64(value)
    }
}

impl FromSpecImpl<u64> for Minor {
    open spec fn obeys_from_spec() -> bool {
        true
    }

    open spec fn from_spec(v: u64) -> Minor {
        Minor::canonical(v)
    }
}

impl From<Option<u64>> for Minor {
    fn from(value: Option<u64>) -> (m: Minor) {
        Minor::from_length(value)
    }
}

impl FromSpecImpl<Option<u64>> for Minor {
    open spec fn obeys_from_spec() -> bool {
        true
    }

    open spec fn from_spec(v: Option<u64>) -> Minor {
        Minor::of_length(v)
    }
}

impl From<Minor> for Option<u64> {
    fn from(value: Minor) -> (r: Option<u64>) {
        value.value()
    }
}

impl FromSpecImpl<Minor> for Option<u64> {
    open spec fn obeys_from_spec() -> bool {
        true
    }

    open spec fn from_spec(v: Minor) -> Option<u64> {
        v.magnitude()
    }
}

} // verus!
