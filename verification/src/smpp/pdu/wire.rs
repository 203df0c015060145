//! Byte-level plumbing shared by every field codec: the error taxonomy, the
//! big-endian fixed-width integers, and the cursor types that the `decode`
//! and `encode` functions of the other modules read from and write to.
//!
//! The fixed-width integers are produced and consumed by `bincode`, configured
//! for big-endian, fixed-width integers. What that configuration yields is
//! stated here by [`be16`] and [`be32`]; the statements are trusted, not proved.

use vstd::prelude::*;
use vstd::slice::{slice_subrange, slice_to_vec};

verus! {

/// Why a field was judged malformed.
#[derive(Clone, Copy, Debug, PartialEq, Eq)]
pub enum Malformation {
    /// The bytes ran out before the `0x00` that ends a C-octet string.
    Unterminated,
    /// Something of fixed or stated length had another length. `expected` is
    /// the number of octets it should take on the wire, a terminator included.
    Length { expected: usize },
    /// The last character of a time string is none of `R`, `+`, `-`; the
    /// sixteen characters of the string are carried along.
    Indicator([u8; 16]),
    /// A position that must hold a decimal digit holds something else.
    Digit,
    /// The digits name no calendar day, no time of day, or no UTC offset.
    Calendar,
}

/// The errors of the codec.
#[derive(Clone, Copy, Debug, PartialEq, Eq)]
pub enum CodecError {
    /// Fewer bytes remain than a fixed-width field or a declared length needs.
    Truncated,
    /// A value violates the wire syntax of its field.
    Malformed(Malformation),
    /// An in-memory value cannot be represented on the wire.
    InvalidArgument,
}

/// The two octets of `v`, most significant first.
pub open spec fn be16(v: u16) -> Seq<u8> {
    seq![(v / 0x100) as u8, (v % 0x100) as u8]
}

/// The four octets of `v`, most significant first.
pub open spec fn be32(v: u32) -> Seq<u8> {
    seq![
        (v / 0x100_0000) as u8,
        (v / 0x1_0000 % 0x100) as u8,
        (v / 0x100 % 0x100) as u8,
        (v % 0x100) as u8,
    ]
}

/// The number whose big-endian octets are the first two of `s`.
pub open spec fn from_be16(s: Seq<u8>) -> u16
    recommends
        s.len() >= 2,
{
    (s[0] * 0x100 + s[1]) as u16
}

/// The number whose big-endian octets are the first four of `s`.
pub open spec fn from_be32(s: Seq<u8>) -> u32
    recommends
        s.len() >= 4,
{
    (s[0] * 0x100_0000 + s[1] * 0x1_0000 + s[2] * 0x100 + s[3]) as u32
}

/// What is left of the input after a successful parse; nothing after a failed one.
pub open spec fn rest<T>(r: Result<(T, Seq<u8>), CodecError>) -> Seq<u8> {
    match r {
        Ok((_, tail)) => tail,
        Err(_) => Seq::empty(),
    }
}

/// The value of a successful parse.
pub open spec fn value<T>(r: Result<(T, Seq<u8>), CodecError>) -> T
    recommends
        r is Ok,
{
    r->Ok_0.0
}

/// One octet from the front of `s`.
pub open spec fn parse_u8(s: Seq<u8>) -> Result<(u8, Seq<u8>), CodecError> {
    if s.len() < 1 {
        Err(CodecError::Truncated)
    } else {
        Ok((s[0], s.skip(1)))
    }
}

/// A big-endian 16-bit integer from the front of `s`.
pub open spec fn parse_u16(s: Seq<u8>) -> Result<(u16, Seq<u8>), CodecError> {
    if s.len() < 2 {
        Err(CodecError::Truncated)
    } else {
        Ok((from_be16(s), s.skip(2)))
    }
}

/// A big-endian 32-bit integer from the front of `s`.
pub open spec fn parse_u32(s: Seq<u8>) -> Result<(u32, Seq<u8>), CodecError> {
    if s.len() < 4 {
        Err(CodecError::Truncated)
    } else {
        Ok((from_be32(s), s.skip(4)))
    }
}

/// Exactly `n` raw octets from the front of `s`.
pub open spec fn parse_bytes(s: Seq<u8>, n: nat) -> Result<(Seq<u8>, Seq<u8>), CodecError> {
    if s.len() < n {
        Err(CodecError::Truncated)
    } else {
        Ok((s.take(n as int), s.skip(n as int)))
    }
}

/// An octet in front of any bytes is read back, and those bytes are left.
pub proof fn lemma_u8_round_trip(v: u8, tail: Seq<u8>)
    ensures
        parse_u8(seq![v] + tail) == Ok::<(u8, Seq<u8>), CodecError>((v, tail)),
{
    assert((seq![v] + tail).skip(1) =~= tail);
}

/// Raw octets in front of any bytes are read back by their number, and those
/// bytes are left.
pub proof fn lemma_bytes_round_trip(v: Seq<u8>, tail: Seq<u8>)
    ensures
        parse_bytes(v + tail, v.len()) == Ok::<(Seq<u8>, Seq<u8>), CodecError>((v, tail)),
{
    assert((v + tail).take(v.len() as int) =~= v);
    assert((v + tail).skip(v.len() as int) =~= tail);
}

/// Bytes put together in three parts are the same whichever two are joined first.
pub proof fn lemma_concat_assoc(a: Seq<u8>, b: Seq<u8>, c: Seq<u8>)
    ensures
        (a + b) + c == a + (b + c),
{
    assert((a + b) + c =~= a + (b + c));
}

/// Decoding the octets of a 16-bit integer gives the integer back.
pub proof fn lemma_be16_round_trip(v: u16, tail: Seq<u8>)
    ensures
        parse_u16(be16(v) + tail) == Ok::<(u16, Seq<u8>), CodecError>((v, tail)),
        be16(v).len() == 2,
{
    assert((v / 0x100) * 0x100 + v % 0x100 == v) by (bit_vector);
    assert(v / 0x100 < 0x100) by (bit_vector);
    assert((be16(v) + tail).skip(2) =~= tail);
}

/// Decoding the octets of a 32-bit integer gives the integer back.
pub proof fn lemma_be32_round_trip(v: u32, tail: Seq<u8>)
    ensures
        parse_u32(be32(v) + tail) == Ok::<(u32, Seq<u8>), CodecError>((v, tail)),
        be32(v).len() == 4,
{
    assert((v / 0x100_0000) * 0x100_0000 + (v / 0x1_0000 % 0x100) * 0x1_0000 + (v / 0x100 % 0x100)
        * 0x100 + v % 0x100 == v) by (bit_vector);
    assert(v / 0x100_0000 < 0x100) by (bit_vector);
    assert((be32(v) + tail).skip(4) =~= tail);
}

/// `bincode::error::DecodeError`, carried from the decoding calls to the place
/// where it is mapped to a [`CodecError`].
#[verifier::external_type_specification]
#[verifier::external_body]
pub struct ExDecodeError(bincode::error::DecodeError);

/// `bincode::error::EncodeError`, carried from the encoding calls to the place
/// where it is mapped to a [`CodecError`].
#[verifier::external_type_specification]
#[verifier::external_body]
pub struct ExEncodeError(bincode::error::EncodeError);

/// `bincode::decode_from_slice` at type `u8`: with at least one byte in `src`
/// it yields the first byte and reports one byte read; with none it fails.
#[verifier::external_body]
fn fixed_u8_from(src: &[u8]) -> (r: Result<(u8, usize), bincode::error::DecodeError>)
    ensures
        src@.len() >= 1 ==> r is Ok && r->Ok_0 == (src@[0], 1usize),
        src@.len() < 1 ==> r is Err,
{
    bincode::decode_from_slice(
        src,
        bincode::config::standard().with_big_endian().with_fixed_int_encoding(),
    )
}

/// `bincode::decode_from_slice` at type `u16`, big-endian and fixed-width: with
/// at least two bytes in `src` it yields the number they spell, most
/// significant first, and reports two bytes read; with fewer it fails.
#[verifier::external_body]
fn fixed_u16_from(src: &[u8]) -> (r: Result<(u16, usize), bincode::error::DecodeError>)
    ensures
        src@.len() >= 2 ==> r is Ok && r->Ok_0 == (from_be16(src@), 2usize),
        src@.len() < 2 ==> r is Err,
{
    bincode::decode_from_slice(
        src,
        bincode::config::standard().with_big_endian().with_fixed_int_encoding(),
    )
}

/// `bincode::decode_from_slice` at type `u32`, big-endian and fixed-width: with
/// at least four bytes in `src` it yields the number they spell, most
/// significant first, and reports four bytes read; with fewer it fails.
#[verifier::external_body]
fn fixed_u32_from(src: &[u8]) -> (r: Result<(u32, usize), bincode::error::DecodeError>)
    ensures
        src@.len() >= 4 ==> r is Ok && r->Ok_0 == (from_be32(src@), 4usize),
        src@.len() < 4 ==> r is Err,
{
    bincode::decode_from_slice(
        src,
        bincode::config::standard().with_big_endian().with_fixed_int_encoding(),
    )
}

/// `bincode::encode_to_vec` at type `u8`: the byte itself. It cannot fail: it
/// writes to a vector that grows, and a `u8` has one encoding.
#[verifier::external_body]
fn fixed_u8_to(v: u8) -> (r: Result<Vec<u8>, bincode::error::EncodeError>)
    ensures
        r is Ok,
        r->Ok_0@ == seq![v],
{
    bincode::encode_to_vec(
        v,
        bincode::config::standard().with_big_endian().with_fixed_int_encoding(),
    )
}

/// `bincode::encode_to_vec` at type `u16`, big-endian and fixed-width: the two
/// octets of `v`, most significant first. It cannot fail, for the same reason.
#[verifier::external_body]
fn fixed_u16_to(v: u16) -> (r: Result<Vec<u8>, bincode::error::EncodeError>)
    ensures
        r is Ok,
        r->Ok_0@ == be16(v),
{
    bincode::encode_to_vec(
        v,
        bincode::config::standard().with_big_endian().with_fixed_int_encoding(),
    )
}

/// `bincode::encode_to_vec` at type `u32`, big-endian and fixed-width: the
/// four octets of `v`, most significant first. It cannot fail, for the same
/// reason.
#[verifier::external_body]
fn fixed_u32_to(v: u32) -> (r: Result<Vec<u8>, bincode::error::EncodeError>)
    ensures
        r is Ok,
        r->Ok_0@ == be32(v),
{
    bincode::encode_to_vec(
        v,
        bincode::config::standard().with_big_endian().with_fixed_int_encoding(),
    )
}

/// A cursor over the bytes of one protocol data unit. Its view is the part of
/// the input that has not been read yet.
#[derive(Clone, Copy)]
pub struct Decoder<'a> {
    input: &'a [u8],
    pos: usize,
}

impl<'a> View for Decoder<'a> {
    type V = Seq<u8>;

    closed spec fn view(&self) -> Seq<u8> {
        self.input@.skip(self.pos as int)
    }
}

impl<'a> Decoder<'a> {
    #[verifier::type_invariant]
    spec fn in_bounds(self) -> bool {
        self.pos <= self.input@.len()
    }

    /// A cursor at the start of `input`.
    pub fn new(input: &'a [u8]) -> (d: Self)
        ensures
            d@ == input@,
    {
        Decoder { input, pos: 0 }
    }

    /// The number of bytes not read yet.
    pub fn remaining(&self) -> (n: usize)
        ensures
            n == self@.len(),
    {
        proof {
            use_type_invariant(self);
        }
        self.input.len() - self.pos
    }

    /// The bytes not read yet.
    pub fn rest(&self) -> (r: &'a [u8])
        ensures
            r@ == self@,
    {
        proof {
            use_type_invariant(self);
        }
        slice_subrange(self.input, self.pos, self.input.len())
    }

    /// Reads one octet.
    pub fn read_u8(&mut self) -> (r: Result<u8, CodecError>)
        ensures
            match parse_u8(old(self)@) {
                Ok((v, tail)) => r == Ok::<u8, CodecError>(v) && final(self)@ == tail,
                Err(e) => r == Err::<u8, CodecError>(e) && final(self)@ == old(self)@,
            },
    {
        proof {
            use_type_invariant(&*self);
        }
        let src = slice_subrange(self.input, self.pos, self.input.len());
        match fixed_u8_from(src) {
            Ok((v, n)) => {
                self.pos = self.pos + n;
                assert(self@ =~= old(self)@.skip(1));
                Ok(v)
            },
            Err(_) => Err(CodecError::Truncated),
        }
    }
    /// Reads a big-endian 16-bit integer.
    pub fn read_u16(&mut self) -> (r: Result<u16, CodecError>)
        ensures
            match parse_u16(old(self)@) {
                Ok((v, tail)) => r == Ok::<u16, CodecError>(v) && final(self)@ == tail,
                Err(e) => r == Err::<u16, CodecError>(e) && final(self)@ == old(self)@,
            },
    {
        proof {
            use_type_invariant(&*self);
        }
        let src = slice_subrange(self.input, self.pos, self.input.len());
        match fixed_u16_from(src) {
            Ok((v, n)) => {
                self.pos = self.pos + n;
                assert(self@ =~= old(self)@.skip(2));
                Ok(v)
            },
            Err(_) => Err(CodecError::Truncated),
        }
    }

    /// Reads a big-endian 32-bit integer.
    pub fn read_u32(&mut self) -> (r: Result<u32, CodecError>)
        ensures
            match parse_u32(old(self)@) {
                Ok((v, tail)) => r == Ok::<u32, CodecError>(v) && final(self)@ == tail,
                Err(e) => r == Err::<u32, CodecError>(e) && final(self)@ == old(self)@,
            },
    {
        proof {
            use_type_invariant(&*self);
        }
        let src = slice_subrange(self.input, self.pos, self.input.len());
        match fixed_u32_from(src) {
            Ok((v, n)) => {
                self.pos = self.pos + n;
                assert(self@ =~= old(self)@.skip(4));
                Ok(v)
            },
            Err(_) => Err(CodecError::Truncated),
        }
    }

    /// Reads exactly `n` raw octets.
    pub fn read_bytes(&mut self, n: usize) -> (r: Result<Vec<u8>, CodecError>)
        ensures
            match parse_bytes(old(self)@, n as nat) {
                Ok((v, tail)) => r is Ok && r->Ok_0@ == v && final(self)@ == tail,
                Err(e) => r == Err::<Vec<u8>, CodecError>(e) && final(self)@ == old(self)@,
            },
    {
        proof {
            use_type_invariant(&*self);
        }
        if n > self.input.len() - self.pos {
            return Err(CodecError::Truncated);
        }
        let v = slice_to_vec(slice_subrange(self.input, self.pos, self.pos + n));
        self.pos = self.pos + n;
        assert(self@ =~= old(self)@.skip(n as int));
        assert(v@ =~= old(self)@.take(n as int));
        Ok(v)
    }
}

/// The bytes written so far for one protocol data unit; they are its view.
pub struct Encoder {
    out: Vec<u8>,
}

impl View for Encoder {
    type V = Seq<u8>;

    closed spec fn view(&self) -> Seq<u8> {
        self.out@
    }
}

impl Encoder {
    /// An encoder that has written nothing.
    pub fn new() -> (e: Self)
        ensures
            e@ == Seq::<u8>::empty(),
    {
        Encoder { out: Vec::new() }
    }

    /// The number of bytes written so far.
    pub fn len(&self) -> (n: usize)
        ensures
            n == self@.len(),
    {
        self.out.len()
    }

    /// Gives up the bytes written.
    pub fn into_bytes(self) -> (v: Vec<u8>)
        ensures
            v@ == self@,
    {
        self.out
    }

    /// Writes raw octets as they are.
    pub fn write_bytes(&mut self, bytes: &[u8])
        ensures
            final(self)@ == old(self)@ + bytes@,
    {
        let mut i: usize = 0;
        while i < bytes.len()
            invariant
                i <= bytes@.len(),
                self@ == old(self)@ + bytes@.take(i as int),
            decreases bytes@.len() - i,
        {
            self.out.push(bytes[i]);
            i = i + 1;
            assert(bytes@.take(i as int) =~= bytes@.take(i - 1).push(bytes@[i - 1]));
        }
        assert(bytes@.take(i as int) =~= bytes@);
    }

    /// Writes one octet.
    pub fn write_u8(&mut self, v: u8)
        ensures
            final(self)@ == old(self)@ + seq![v],
    {
        match fixed_u8_to(v) {
            Ok(b) => self.write_bytes(b.as_slice()),
            Err(_) => {},
        }
    }

    /// Writes a 16-bit integer, most significant octet first.
    pub fn write_u16(&mut self, v: u16)
        ensures
            final(self)@ == old(self)@ + be16(v),
    {
        match fixed_u16_to(v) {
            Ok(b) => self.write_bytes(b.as_slice()),
            Err(_) => {},
        }
    }

    /// Writes a 32-bit integer, most significant octet first.
    pub fn write_u32(&mut self, v: u32)
        ensures
            final(self)@ == old(self)@ + be32(v),
    {
        match fixed_u32_to(v) {
            Ok(b) => self.write_bytes(b.as_slice()),
            Err(_) => {},
        }
    }
}

/// A value with a wire form.
pub trait Encode {
    /// The bytes the value takes on the wire.
    spec fn wire(&self) -> Seq<u8>;

    /// Whether the value can be represented on the wire at all.
    spec fn encodable(&self) -> bool;

    /// Appends the wire form to what `encoder` holds. A value that cannot be
    /// represented is refused and nothing is written.
    fn encode(&self, encoder: &mut Encoder) -> (r: Result<(), CodecError>)
        ensures
            self.encodable() ==> r is Ok && final(encoder)@ == old(encoder)@ + self.wire(),
            !self.encodable() ==> r == Err::<(), CodecError>(CodecError::InvalidArgument)
                && final(encoder)@ == old(encoder)@,
    ;
}

/// The wire form of `val` alone.
pub fn encode_to_vec<E: Encode>(val: &E) -> (r: Result<Vec<u8>, CodecError>)
    ensures
        val.encodable() ==> r is Ok && r->Ok_0@ == val.wire(),
        !val.encodable() ==> r == Err::<Vec<u8>, CodecError>(CodecError::InvalidArgument),
{
    let mut encoder = Encoder::new();
    match val.encode(&mut encoder) {
        Ok(()) => {
            assert(Seq::<u8>::empty() + val.wire() =~= val.wire());
            Ok(encoder.into_bytes())
        },
        Err(e) => Err(e),
    }
}

} // verus!