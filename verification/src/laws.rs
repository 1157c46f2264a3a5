//! What holds between encoding, decoding and the numeric conversions.

use crate::error::InvalidError;
use crate::major::Major;
use crate::minor::{fits, is_width, reserved, trailer_len, Immediate, Minor};
use crate::title::{starts_with, Title};
use vstd::prelude::*;
use vstd::std_specs::convert::TryFromSpec;

verus! {

/// The wire form of a well-formed title, whatever follows it, begins with a
/// whole title: a decoder does not refuse it, and does not ask for more.
pub proof fn lemma_wire_decodable(t: Title, rest: Seq<u8>)
    requires
        t.wf(),
    ensures
        Title::decodable(t.wire() + rest),
        !Title::malformed(t.wire() + rest),
        starts_with(t.wire() + rest, t.wire()),
        (t.wire() + rest).skip(t.wire().len() as int) == rest,
{
    let s = t.wire() + rest;
    assert(s[0] == t.prefix());
    assert(t.prefix() % 32 == t.1.header());
    assert(t.1.trailer().len() == trailer_len(t.1.header()));
    assert(!reserved(t.1.header()));
    assert(s.take(t.wire().len() as int) =~= t.wire());
    assert(s.skip(t.wire().len() as int) =~= rest);
}

/// Bytes begin with the wire form of at most one well-formed title.
pub proof fn lemma_wire_unique(a: Title, b: Title, s: Seq<u8>)
    requires
        a.wf(),
        b.wf(),
        starts_with(s, a.wire()),
        starts_with(s, b.wire()),
    ensures
        a == b,
{
    let wa = a.wire();
    let wb = b.wire();
    assert(wa[0] == a.prefix() && wb[0] == b.prefix());
    assert(s.take(wa.len() as int)[0] == s[0]);
    assert(s.take(wb.len() as int)[0] == s[0]);
    assert(a.prefix() == b.prefix());
    assert(a.prefix() / 32 == a.0.code() && a.prefix() % 32 == a.1.header());
    assert(b.prefix() / 32 == b.0.code() && b.prefix() % 32 == b.1.header());
    assert(a.0 == b.0);
    assert(a.1.trailer().len() == trailer_len(a.1.header()));
    assert(b.1.trailer().len() == trailer_len(b.1.header()));
    assert(wa.len() == wb.len());
    assert(a.1.trailer() =~= wa.skip(1));
    assert(b.1.trailer() =~= wb.skip(1));
    Minor::lemma_same_wire(a.1, b.1);
}

/// Decoding what encoding wrote gives the title back: a well-formed title
/// `u` whose wire form begins the bytes that `t` was encoded to, followed by
/// anything, is `t` itself. This holds of every well-formed `t`, also of one
/// that spells its number in more bytes than needed.
pub proof fn lemma_decode_encode(t: Title, rest: Seq<u8>, u: Title)
    requires
        t.wf(),
        u.wf(),
        starts_with(t.wire() + rest, u.wire()),
    ensures
        u == t,
{
    lemma_wire_decodable(t, rest);
    lemma_wire_unique(t, u, t.wire() + rest);
}

/// Decoding is lenient on width: where a number is spelled in any width that
/// holds it, the smallest or a wider one, the bytes begin with a whole title,
/// and the title decoded from them has the same type and holds that number.
pub proof fn lemma_decode_any_width(major: Major, x: u64, width: nat, rest: Seq<u8>, u: Title)
    requires
        is_width(width),
        fits(x, width),
        u.wf(),
        starts_with(Title(major, Minor::spelled(x, width)).wire() + rest, u.wire()),
    ensures
        Title::decodable(Title(major, Minor::spelled(x, width)).wire() + rest),
        u.0 == major,
        u.1.magnitude() == Some(x),
{
    let t = Title(major, Minor::spelled(x, width));
    Minor::lemma_spelled(x, width);
    lemma_wire_decodable(t, rest);
    lemma_decode_encode(t, rest, u);
}

/// The title made of an integer whose magnitude fits in 64 bits is well
/// formed and stands for that integer: converting there and back loses
/// nothing.
pub proof fn lemma_integer_round_trip(n: int)
    requires
        Title::holds(n),
    ensures
        Title::of_integer(n).wf(),
        Title::of_integer(n).integer() == Some(n),
        <i128 as TryFromSpec<Title>>::try_from_spec(Title::of_integer(n)) == Ok::<
            i128,
            InvalidError,
        >(n as i128),
{
    if n >= 0 {
        Minor::lemma_canonical(n as u64);
    } else {
        Minor::lemma_canonical((-1 - n) as u64);
    }
}

/// An integer survives the whole way: the title decoded from the bytes that
/// the integer's title was encoded to, whatever follows them, is that title
/// again, and stands for the integer.
pub proof fn lemma_integer_wire_round_trip(n: int, rest: Seq<u8>, u: Title)
    requires
        Title::holds(n),
        u.wf(),
        starts_with(Title::of_integer(n).wire() + rest, u.wire()),
    ensures
        Title::decodable(Title::of_integer(n).wire() + rest),
        u == Title::of_integer(n),
        u.integer() == Some(n),
{
    lemma_integer_round_trip(n);
    lemma_wire_decodable(Title::of_integer(n), rest);
    lemma_decode_encode(Title::of_integer(n), rest, u);
}

/// The title made of a truth value is read back as that truth value.
pub proof fn lemma_bool_round_trip(b: bool)
    ensures
        Title::of_bool(b).wf(),
        <bool as TryFromSpec<Title>>::try_from_spec(Title::of_bool(b)) == Ok::<bool, InvalidError>(
            b,
        ),
{
    Immediate::lemma_value_of(20);
    Immediate::lemma_value_of(21);
}

/// The title made of an integer spells it in the fewest bytes: no
/// well-formed title that stands for the same integer is shorter on the
/// wire.
pub proof fn lemma_integer_shortest(n: int, t: Title)
    requires
        Title::holds(n),
        t.wf(),
        t.integer() == Some(n),
    ensures
        Title::of_integer(n).wire().len() <= t.wire().len(),
{
    let m = t.1.magnitude().unwrap();
    Minor::lemma_canonical_minimal(m, t.1);
}

/// A declared length that was made into a title is read back unchanged, and
/// an undeclared one stays undeclared.
pub proof fn lemma_length_round_trip(length: Option<u64>)
    ensures
        Minor::of_length(length).wf(),
        Minor::of_length(length).magnitude() == length,
{
    if let Some(x) = length {
        Minor::lemma_canonical(x);
    }
}

} // verus!
