//! The title of an item: its prefix byte and the trailer that the byte
//! announces.

use crate::error::DecodeError;
use crate::io::{Read, Write};
use crate::major::Major;
use crate::minor::{reserved, trailer_len, Immediate, Minor};
use vstd::prelude::*;

verus! {

/// The header of one encoded item: its type and how its value or length is
/// encoded.
#[derive(Copy, Clone, Debug, PartialEq, Eq)]
pub struct Title(pub Major, pub Minor);

/// Whether `s` begins with the bytes of `p`.
pub open spec fn starts_with(s: Seq<u8>, p: Seq<u8>) -> bool {
    p.len() <= s.len() && s.take(p.len() as int) == p
}

impl Title {
    /// The title of the simple value with the given code.
    pub open spec fn simple(code: u8) -> Title {
        Title(Major::Other, Minor::Immediate(Immediate::of(code)))
    }

    /// The title of the tag with the given small number.
    pub open spec fn small_tag(number: u8) -> Title {
        Title(Major::Tag, Minor::Immediate(Immediate::of(number)))
    }

    /// The simple value `false`.
    pub fn false_value() -> (t: Title)
        ensures
            t == Title::simple(20),
    {
        Title(Major::Other, Minor::Immediate(Immediate::small(20)))
    }

    /// The simple value `true`.
    pub fn true_value() -> (t: Title)
        ensures
            t == Title::simple(21),
    {
        Title(Major::Other, Minor::Immediate(Immediate::small(21)))
    }

    /// The simple value `null`.
    pub fn null() -> (t: Title)
        ensures
            t == Title::simple(22),
    {
        Title(Major::Other, Minor::Immediate(Immediate::small(22)))
    }

    /// The simple value `undefined`.
    pub fn undefined() -> (t: Title)
        ensures
            t == Title::simple(23),
    {
        Title(Major::Other, Minor::Immediate(Immediate::small(23)))
    }

    /// The break marker that ends an item of undeclared length.
    pub fn break_marker() -> (t: Title)
        ensures
            t == Title(Major::Other, Minor::Indeterminate),
    {
        Title(Major::Other, Minor::Indeterminate)
    }

    /// The tag of a non-negative integer of arbitrary size.
    pub fn tag_bigpos() -> (t: Title)
        ensures
            t == Title::small_tag(2),
    {
        Title(Major::Tag, Minor::Immediate(Immediate::small(2)))
    }

    /// The tag of a negative integer of arbitrary size.
    pub fn tag_bigneg() -> (t: Title)
        ensures
            t == Title::small_tag(3),
    {
        Title(Major::Tag, Minor::Immediate(Immediate::small(3)))
    }

    /// The minor is well formed.
    pub open spec fn wf(self) -> bool {
        self.1.wf()
    }

    /// The prefix byte: the type's code in the upper three bits, the minor's
    /// header code in the lower five.
    pub open spec fn prefix(self) -> u8 {
        (self.0.code() * 32 + self.1.header()) as u8
    }

    /// The title on the wire: the prefix byte, then the minor's trailer.
    pub open spec fn wire(self) -> Seq<u8> {
        seq![self.prefix()] + self.1.trailer()
    }

    /// Whether `s` begins with a whole title: a prefix byte whose header code
    /// is not reserved, and as many bytes after it as that code announces.
    pub open spec fn decodable(s: Seq<u8>) -> bool {
        s.len() >= 1 && !reserved(s[0] % 32) && s.len() >= 1 + trailer_len(s[0] % 32)
    }

    /// Whether `s` begins with a prefix byte whose header code is reserved.
    pub open spec fn malformed(s: Seq<u8>) -> bool {
        s.len() >= 1 && reserved(s[0] % 32)
    }

    /// The integer that this title stands for. A positive title stands for
    /// its magnitude `m`, a negative one for `-1 - m`; no other title, and
    /// none with an indeterminate minor, stands for an integer.
    pub open spec fn integer(self) -> Option<int> {
        match (self.0, self.1.magnitude()) {
            (Major::Positive, Some(m)) => Some(m as int),
            (Major::Negative, Some(m)) => Some(-1 - m),
            _ => None,
        }
    }

    /// Whether a title can stand for `n`: the magnitude to store fits in 64
    /// bits.
    pub open spec fn holds(n: int) -> bool {
        -0x1_0000_0000_0000_0000 <= n < 0x1_0000_0000_0000_0000
    }

    /// The title that stands for `n`, in the smallest shape: positive with
    /// magnitude `n` from zero up, negative with magnitude `-1 - n` below.
    pub open spec fn of_integer(n: int) -> Title
        recommends
            Title::holds(n),
    {
        if n >= 0 {
            Title(Major::Positive, Minor::canonical(n as u64))
        } else {
            Title(Major::Negative, Minor::canonical((-1 - n) as u64))
        }
    }

    /// The title of a truth value.
    pub open spec fn of_bool(b: bool) -> Title {
        if b {
            Title::simple(21)
        } else {
            Title::simple(20)
        }
    }

    /// The length that this title declares. The outer `None` says that the
    /// title is not that of a string, an array or a map; the inner one, that
    /// the length is undeclared.
    pub open spec fn length(self) -> Option<Option<u64>> {
        if self.0.has_length() {
            Some(self.1.magnitude())
        } else {
            None
        }
    }

    /// Returns the number of bytes that this title takes on the wire.
    pub fn len(&self) -> (n: usize)
        ensures
            n == self.wire().len(),
            n == 1 + trailer_len(self.1.header()),
    {
        self.1.as_ref().len() + 1
    }

    /// Encodes this title to `writer`: the prefix byte, then the trailer.
    ///
    /// Fails only where the sink does.
    pub fn encode<W: Write>(&self, writer: &mut W) -> (r: Result<(), W::Error>)
        ensures
            r is Ok ==> final(writer).written() == old(writer).written() + self.wire(),
            old(writer).reliable() ==> r is Ok && final(writer).reliable(),
    {
        let major: u8 = self.0.tag();
        let minor: u8 = self.1.code();
        assert((major << 5) | minor == major * 32 + minor) by (bit_vector)
            requires
                major < 8,
                minor < 32,
        ;
        let prefix: [u8; 1] = [(major << 5) | minor];
        match writer.write_all(&prefix) {
            Ok(()) => {},
            Err(e) => {
                return Err(e);
            },
        }
        match writer.write_all(self.1.as_ref()) {
            Ok(()) => {},
            Err(e) => {
                return Err(e);
            },
        }
        assert(prefix@ =~= seq![self.prefix()]);
        assert(old(writer).written() + prefix@ + self.1.trailer() =~= old(writer).written()
            + self.wire());
        Ok(())
    }

    /// Makes the title of an item of the given type and length; `None` is an
    /// undeclared length.
    pub fn from_length(major: Major, length: Option<usize>) -> (t: Title)
        ensures
            t.0 == major,
            t.1 == Minor::of_length(
                match length {
                    Some(n) => Some(n as u64),
                    None => None,
                },
            ),
            t.wf(),
    {
        match length {
            Some(n) => Title(major, Minor::from_length(Some(n as u64))),
            None => Title(major, Minor::from_length(None)),
        }
    }

    /// Decodes one title from `reader`.
    ///
    /// Reads the prefix byte, then as many bytes as its header code
    /// announces, in one read each; where the code announces none, the
    /// second read asks for no bytes. The title returned is the one whose
    /// wire form the source began with, and the source has moved past exactly
    /// that. A reserved header code is refused once the prefix byte is read,
    /// and nothing more is read. A failure of the source is handed on. From a
    /// reliable source the outcome depends on the bytes alone.
    pub fn decode<R: Read>(reader: &mut R) -> (r: Result<Title, DecodeError<R::Error>>)
        ensures
            match r {
                Ok(t) => {
                    &&& t.wf()
                    &&& starts_with(old(reader).pending(), t.wire())
                    &&& final(reader).pending() == old(reader).pending().skip(t.wire().len() as int)
                },
                Err(DecodeError::Invalid) => {
                    &&& Title::malformed(old(reader).pending())
                    &&& final(reader).pending() == old(reader).pending().skip(1)
                },
                Err(DecodeError::Source(_)) => true,
            },
            r is Ok ==> Title::decodable(old(reader).pending()),
            old(reader).reliable() ==> {
                &&& final(reader).reliable()
                &&& (r is Ok <==> Title::decodable(old(reader).pending()))
                &&& ((r is Err && r->Err_0 is Invalid) <==> Title::malformed(old(reader).pending()))
            },
    {
        let ghost input = reader.pending();
        let mut first: [u8; 1] = [0u8; 1];
        match reader.read_exact(&mut first) {
            Ok(()) => {},
            Err(e) => {
                return Err(DecodeError::Source(e));
            },
        }
        let prefix: u8 = first[0];
        assert(prefix == input[0]);
        let ghost after = reader.pending();
        let major = Major::from_prefix(prefix);
        assert(prefix & 0b0001_1111 == prefix % 32) by (bit_vector);
        let code: u8 = prefix & 0b0001_1111;
        let minor = if code == 24 {
            let mut buf: [u8; 1] = [0u8; 1];
            match reader.read_exact(&mut buf) {
                Ok(()) => {},
                Err(e) => {
                    return Err(DecodeError::Source(e));
                },
            }
            Minor::Subsequent1(buf)
        } else if code == 25 {
            let mut buf: [u8; 2] = [0u8; 2];
            match reader.read_exact(&mut buf) {
                Ok(()) => {},
                Err(e) => {
                    return Err(DecodeError::Source(e));
                },
            }
            Minor::Subsequent2(buf)
        } else if code == 26 {
            let mut buf: [u8; 4] = [0u8; 4];
            match reader.read_exact(&mut buf) {
                Ok(()) => {},
                Err(e) => {
                    return Err(DecodeError::Source(e));
                },
            }
            Minor::Subsequent4(buf)
        } else if code == 27 {
            let mut buf: [u8; 8] = [0u8; 8];
            match reader.read_exact(&mut buf) {
                Ok(()) => {},
                Err(e) => {
                    return Err(DecodeError::Source(e));
                },
            }
            Minor::Subsequent8(buf)
        } else {
            let shape = if code == 31 {
                Minor::Indeterminate
            } else {
                match Immediate::new(code) {
                    Ok(i) => {
                        proof {
                            Immediate::lemma_value_of(code);
                        }
                        Minor::Immediate(i)
                    },
                    Err(_) => {
                        return Err(DecodeError::Invalid);
                    },
                }
            };
            let mut buf: [u8; 0] = [];
            match reader.read_exact(&mut buf) {
                Ok(()) => {},
                Err(e) => {
                    return Err(DecodeError::Source(e));
                },
            }
            shape
        };
        let title = Title(major, minor);
        assert(title.prefix() == prefix);
        assert(title.1.trailer() == after.take(title.1.trailer().len() as int));
        assert(title.wire() =~= input.take(title.wire().len() as int));
        assert(reader.pending() =~= input.skip(title.wire().len() as int));
        Ok(title)
    }
}

} // verus!
