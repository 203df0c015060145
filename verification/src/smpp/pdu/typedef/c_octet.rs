//! The C-octet string: bytes with no `0x00` among them, followed on the wire
//! by a single `0x00`.

use crate::smpp::pdu::wire::{CodecError, Decoder, Encode, Encoder, Malformation};
use vstd::prelude::*;

verus! {

/// Whether no byte of `s` is `0x00`.
pub open spec fn no_nul(s: Seq<u8>) -> bool {
    forall|i: int| 0 <= i < s.len() ==> s[i] != 0
}

/// The position of the first `0x00` in `s`, or the length of `s` if it holds none.
pub open spec fn nul_at(s: Seq<u8>) -> int
    decreases s.len(),
{
    if s.len() == 0 || s[0] == 0 {
        0
    } else {
        1 + nul_at(s.skip(1))
    }
}

/// `nul_at` is what its description says: the one position up to which no
/// byte is `0x00` and at which either a `0x00` stands or the bytes end.
pub proof fn lemma_nul_at(s: Seq<u8>, i: int)
    requires
        0 <= i <= s.len(),
        forall|j: int| 0 <= j < i ==> s[j] != 0,
        i < s.len() ==> s[i] == 0,
    ensures
        nul_at(s) == i,
    decreases s.len(),
{
    if s.len() != 0 && s[0] != 0 {
        let t = s.skip(1);
        assert forall|j: int| 0 <= j < i - 1 implies t[j] != 0 by {
            assert(t[j] == s[j + 1]);
        }
        lemma_nul_at(t, i - 1);
    }
}

/// The other way round: up to `nul_at` no byte is `0x00`, and at it one stands
/// unless the bytes have ended.
pub proof fn lemma_nul_at_first(s: Seq<u8>)
    ensures
        0 <= nul_at(s) <= s.len(),
        forall|j: int| 0 <= j < nul_at(s) ==> s[j] != 0,
        nul_at(s) < s.len() ==> s[nul_at(s)] == 0,
    decreases s.len(),
{
    if s.len() != 0 && s[0] != 0 {
        let t = s.skip(1);
        lemma_nul_at_first(t);
        assert forall|j: int| 0 <= j < nul_at(s) implies s[j] != 0 by {
            if j > 0 {
                assert(s[j] == t[j - 1]);
            }
        }
    }
}

/// A C-octet string. Its view is the bytes before the terminator.
#[derive(Debug, PartialEq, Eq)]
pub struct COctet {
    inner: Vec<u8>,
}

impl View for COctet {
    type V = Seq<u8>;

    closed spec fn view(&self) -> Seq<u8> {
        self.inner@
    }
}

impl COctet {
    #[verifier::type_invariant]
    spec fn holds_no_nul(self) -> bool {
        no_nul(self.inner@)
    }

    /// The bytes up to the first `0x00` of `s` and the bytes after it. Bytes
    /// that run out before a `0x00` are malformed.
    pub open spec fn parse(s: Seq<u8>) -> Result<(Seq<u8>, Seq<u8>), CodecError> {
        let i = nul_at(s);
        if i < s.len() {
            Ok((s.take(i), s.skip(i + 1)))
        } else {
            Err(CodecError::Malformed(Malformation::Unterminated))
        }
    }

    /// The bytes of `v` and the terminator.
    pub open spec fn wire_of(v: Seq<u8>) -> Seq<u8> {
        v + seq![0u8]
    }

    /// Makes a string of `bytes`, which must hold no `0x00`: the terminator is
    /// not part of the value.
    pub fn new(bytes: Vec<u8>) -> (r: Result<COctet, CodecError>)
        ensures
            no_nul(bytes@) ==> r is Ok && r->Ok_0@ == bytes@,
            !no_nul(bytes@) ==> r == Err::<COctet, CodecError>(CodecError::InvalidArgument),
    {
        let mut i: usize = 0;
        while i < bytes.len()
            invariant
                i <= bytes@.len(),
                forall|j: int| 0 <= j < i ==> bytes@[j] != 0,
            decreases bytes@.len() - i,
        {
            if bytes[i] == 0 {
                return Err(CodecError::InvalidArgument);
            }
            i = i + 1;
        }
        Ok(COctet { inner: bytes })
    }

    /// The empty string.
    pub fn empty() -> (c: COctet)
        ensures
            c@ == Seq::<u8>::empty(),
    {
        COctet { inner: Vec::new() }
    }

    /// The bytes of the string, without the terminator.
    pub fn as_bytes(&self) -> (b: &[u8])
        ensures
            b@ == self@,
            no_nul(self@),
    {
        proof {
            use_type_invariant(self);
        }
        self.inner.as_slice()
    }

    /// Gives up the bytes of the string, without the terminator.
    pub fn into_bytes(self) -> (b: Vec<u8>)
        ensures
            b@ == self@,
            no_nul(self@),
    {
        proof {
            use_type_invariant(&self);
        }
        self.inner
    }

    /// Reads bytes up to and including the next `0x00`; the bytes before it
    /// are the string. On failure nothing is consumed.
    pub fn decode(decoder: &mut Decoder<'_>) -> (r: Result<COctet, CodecError>)
        ensures
            match Self::parse(old(decoder)@) {
                Ok((v, tail)) => r is Ok && r->Ok_0@ == v && final(decoder)@ == tail,
                Err(e) => r == Err::<COctet, CodecError>(e) && final(decoder)@ == old(decoder)@,
            },
    {
        let ghost s = decoder@;
        let mut d = *decoder;
        let mut t: Vec<u8> = Vec::new();
        loop
            invariant
                s == old(decoder)@,
                decoder@ == old(decoder)@,
                t@.len() <= s.len(),
                t@ == s.take(t@.len() as int),
                d@ == s.skip(t@.len() as int),
                no_nul(t@),
            decreases s.len() - t@.len(),
        {
            match d.read_u8() {
                Ok(b) => {
                    if b == 0 {
                        proof {
                            assert forall|j: int| 0 <= j < t@.len() implies s[j] != 0 by {
                                assert(s[j] == t@[j]);
                            }
                            lemma_nul_at(s, t@.len() as int);
                            assert(d@ =~= s.skip(t@.len() as int + 1));
                        }
                        *decoder = d;
                        return Ok(COctet { inner: t });
                    }
                    t.push(b);
                    assert(t@ =~= s.take(t@.len() as int));
                    assert(d@ =~= s.skip(t@.len() as int));
                },
                Err(_) => {
                    proof {
                        assert forall|j: int| 0 <= j < s.len() implies s[j] != 0 by {
                            assert(s[j] == t@[j]);
                        }
                        lemma_nul_at(s, s.len() as int);
                    }
                    return Err(CodecError::Malformed(Malformation::Unterminated));
                },
            }
        }
    }
}

impl Clone for COctet {
    fn clone(&self) -> (c: Self)
        ensures
            c@ == self@,
    {
        proof {
            use_type_invariant(self);
        }
        let inner = self.inner.clone();
        assert(inner@ =~= self.inner@);
        COctet { inner }
    }
}

impl Default for COctet {
    /// The empty string.
    fn default() -> (c: Self)
        ensures
            c@ == Seq::<u8>::empty(),
    {
        COctet::empty()
    }
}

impl Encode for COctet {
    open spec fn wire(&self) -> Seq<u8> {
        COctet::wire_of(self@)
    }

    open spec fn encodable(&self) -> bool {
        true
    }

    fn encode(&self, encoder: &mut Encoder) -> (r: Result<(), CodecError>) {
        encoder.write_bytes(self.inner.as_slice());
        encoder.write_u8(0);
        assert(encoder@ =~= old(encoder)@ + COctet::wire_of(self@));
        Ok(())
    }
}

/// A string survives the trip over the wire, whatever bytes follow its terminator.
pub proof fn lemma_c_octet_round_trip(v: Seq<u8>, tail: Seq<u8>)
    requires
        no_nul(v),
    ensures
        COctet::parse(COctet::wire_of(v) + tail) == Ok::<(Seq<u8>, Seq<u8>), CodecError>(
            (v, tail),
        ),
{
    let s = COctet::wire_of(v) + tail;
    lemma_nul_at(s, v.len() as int);
    assert(s.take(v.len() as int) =~= v);
    assert(s.skip(v.len() as int + 1) =~= tail);
}

/// Bytes that hold no `0x00` do not decode: the terminator is missing.
pub proof fn lemma_c_octet_unterminated(s: Seq<u8>)
    requires
        no_nul(s),
    ensures
        COctet::parse(s) == Err::<(Seq<u8>, Seq<u8>), CodecError>(
            CodecError::Malformed(Malformation::Unterminated),
        ),
{
    lemma_nul_at(s, s.len() as int);
}

/// What decoding takes off the front is a string and its terminator, and the
/// string holds no `0x00`.
pub proof fn lemma_c_octet_parse_consumes(s: Seq<u8>)
    requires
        COctet::parse(s) is Ok,
    ensures
        no_nul(COctet::parse(s)->Ok_0.0),
        s == COctet::wire_of(COctet::parse(s)->Ok_0.0) + COctet::parse(s)->Ok_0.1,
{
    lemma_nul_at_first(s);
    let i = nul_at(s);
    assert(s =~= COctet::wire_of(s.take(i)) + s.skip(i + 1));
}

} // verus!
