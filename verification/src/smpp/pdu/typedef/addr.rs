//! The two octets that qualify an address: the type of number and the
//! numbering plan.

use crate::smpp::pdu::wire::{parse_u8, CodecError, Decoder, Encode, Encoder};
use vstd::prelude::*;

verus! {

/// The type of number of an address.
#[derive(Clone, Copy, Debug, PartialEq, Eq, Structural)]
pub enum Ton {
    /// Not known. Code `0x00`.
    Unknown,
    /// An international number. Code `0x01`.
    International,
    /// A national number. Code `0x02`.
    National,
    /// A number of one network. Code `0x03`.
    NetworkSpecific,
    /// A subscriber number. Code `0x04`.
    SubscriberNumber,
    /// Letters and digits. Code `0x05`.
    Alphanumeric,
    /// An abbreviated number. Code `0x06`.
    Abbreviated,
    /// Any code outside the table, kept as it came.
    Reserved(u8),
}

impl Ton {
    /// The code of each variant; the fallback variant gives the code it carries.
    pub open spec fn spec_code(&self) -> u8 {
        match *self {
            Ton::Unknown => 0x00,
            Ton::International => 0x01,
            Ton::National => 0x02,
            Ton::NetworkSpecific => 0x03,
            Ton::SubscriberNumber => 0x04,
            Ton::Alphanumeric => 0x05,
            Ton::Abbreviated => 0x06,
            Ton::Reserved(x) => x,
        }
    }

    /// The variant of each code: the one the table lists for it, else the fallback
    /// variant around the code itself. No code is rejected.
    pub open spec fn spec_from_code(u: u8) -> Ton {
        match u {
            0x00 => Ton::Unknown,
            0x01 => Ton::International,
            0x02 => Ton::National,
            0x03 => Ton::NetworkSpecific,
            0x04 => Ton::SubscriberNumber,
            0x05 => Ton::Alphanumeric,
            0x06 => Ton::Abbreviated,
            x => Ton::Reserved(x),
        }
    }

    /// Whether the table lists `u`.
    pub open spec fn known(u: u8) -> bool {
        !(Self::spec_from_code(u) is Reserved)
    }

    /// The code that stands for this value on the wire.
    #[verifier::when_used_as_spec(spec_code)]
    pub fn code(&self) -> (u: u8)
        ensures
            u == self.spec_code(),
    {
        match self {
            Ton::Unknown => 0x00,
            Ton::International => 0x01,
            Ton::National => 0x02,
            Ton::NetworkSpecific => 0x03,
            Ton::SubscriberNumber => 0x04,
            Ton::Alphanumeric => 0x05,
            Ton::Abbreviated => 0x06,
            Ton::Reserved(x) => *x,
        }
    }

    /// The value that `u` stands for.
    #[verifier::when_used_as_spec(spec_from_code)]
    pub fn from_code(u: u8) -> (r: Ton)
        ensures
            r == Self::spec_from_code(u),
    {
        match u {
            0x00 => Ton::Unknown,
            0x01 => Ton::International,
            0x02 => Ton::National,
            0x03 => Ton::NetworkSpecific,
            0x04 => Ton::SubscriberNumber,
            0x05 => Ton::Alphanumeric,
            0x06 => Ton::Abbreviated,
            x => Ton::Reserved(x),
        }
    }

    /// What decoding makes of the bytes `s`: the value and the bytes left over.
    pub open spec fn parse(s: Seq<u8>) -> Result<(Ton, Seq<u8>), CodecError> {
        match parse_u8(s) {
            Ok((u, tail)) => Ok((Self::spec_from_code(u), tail)),
            Err(e) => Err(e),
        }
    }

    /// Reads one value. On failure nothing is consumed.
    pub fn decode(decoder: &mut Decoder<'_>) -> (r: Result<Ton, CodecError>)
        ensures
            match Self::parse(old(decoder)@) {
                Ok((v, tail)) => r == Ok::<Ton, CodecError>(v) && final(decoder)@ == tail,
                Err(e) => r == Err::<Ton, CodecError>(e) && final(decoder)@ == old(decoder)@,
            },
    {
        let u = decoder.read_u8()?;
        Ok(Self::from_code(u))
    }
}

impl Encode for Ton {
    open spec fn wire(&self) -> Seq<u8> {
        seq![self.spec_code()]
    }

    open spec fn encodable(&self) -> bool {
        true
    }

    fn encode(&self, encoder: &mut Encoder) -> (r: Result<(), CodecError>) {
        encoder.write_u8(self.code());
        Ok(())
    }
}

/// Every type of number of the table survives the trip over the wire: encoding it and
/// decoding the bytes, whatever follows them, gives the same variant back.
pub proof fn lemma_ton_known_round_trip(x: Ton, tail: Seq<u8>)
    requires
        !(x is Reserved),
    ensures
        Ton::spec_from_code(x.spec_code()) == x,
        Ton::parse(x.wire() + tail) == Ok::<(Ton, Seq<u8>), CodecError>((x, tail)),
{
    assert((x.wire() + tail).skip(1) =~= tail);
}

/// A code that the table does not list passes through unchanged: the fallback
/// variant around it encodes to the code itself, and decoding those bytes gives
/// the fallback variant around the same code.
pub proof fn lemma_ton_passthrough(u: u8, tail: Seq<u8>)
    requires
        !Ton::known(u),
    ensures
        Ton::Reserved(u).spec_code() == u,
        Ton::spec_from_code(u) == Ton::Reserved(u),
        Ton::parse(Ton::Reserved(u).wire() + tail) == Ok::<(Ton, Seq<u8>), CodecError>(
            (Ton::Reserved(u), tail),
        ),
{
    assert((Ton::Reserved(u).wire() + tail).skip(1) =~= tail);
}

/// No code is lost: the variant that a code decodes to encodes to that code.
pub proof fn lemma_ton_code_kept(u: u8)
    ensures
        Ton::spec_from_code(u).spec_code() == u,
{
}

/// The numbering plan of an address.
#[derive(Clone, Copy, Debug, PartialEq, Eq, Structural)]
pub enum Npi {
    /// Not known. Code `0x00`.
    Unknown,
    /// ISDN (E.163, E.164). Code `0x01`.
    ISDN,
    /// Data (X.121). Code `0x03`.
    Data,
    /// Telex (F.69). Code `0x04`.
    Telex,
    /// Land mobile (E.212). Code `0x06`.
    LandMobile,
    /// A national plan. Code `0x08`.
    National,
    /// A private plan. Code `0x09`.
    Private,
    /// ERMES. Code `0x0A`.
    ERMES,
    /// Internet (IP). Code `0x0E`.
    IP,
    /// A WAP client id. Code `0x12`.
    WapClientId,
    /// Any code outside the table, kept as it came.
    Reserved(u8),
}

impl Npi {
    /// The code of each variant; the fallback variant gives the code it carries.
    pub open spec fn spec_code(&self) -> u8 {
        match *self {
            Npi::Unknown => 0x00,
            Npi::ISDN => 0x01,
            Npi::Data => 0x03,
            Npi::Telex => 0x04,
            Npi::LandMobile => 0x06,
            Npi::National => 0x08,
            Npi::Private => 0x09,
            Npi::ERMES => 0x0A,
            Npi::IP => 0x0E,
            Npi::WapClientId => 0x12,
            Npi::Reserved(x) => x,
        }
    }

    /// The variant of each code: the one the table lists for it, else the fallback
    /// variant around the code itself. No code is rejected.
    pub open spec fn spec_from_code(u: u8) -> Npi {
        match u {
            0x00 => Npi::Unknown,
            0x01 => Npi::ISDN,
            0x03 => Npi::Data,
            0x04 => Npi::Telex,
            0x06 => Npi::LandMobile,
            0x08 => Npi::National,
            0x09 => Npi::Private,
            0x0A => Npi::ERMES,
            0x0E => Npi::IP,
            0x12 => Npi::WapClientId,
            x => Npi::Reserved(x),
        }
    }

    /// Whether the table lists `u`.
    pub open spec fn known(u: u8) -> bool {
        !(Self::spec_from_code(u) is Reserved)
    }

    /// The code that stands for this value on the wire.
    #[verifier::when_used_as_spec(spec_code)]
    pub fn code(&self) -> (u: u8)
        ensures
            u == self.spec_code(),
    {
        match self {
            Npi::Unknown => 0x00,
            Npi::ISDN => 0x01,
            Npi::Data => 0x03,
            Npi::Telex => 0x04,
            Npi::LandMobile => 0x06,
            Npi::National => 0x08,
            Npi::Private => 0x09,
            Npi::ERMES => 0x0A,
            Npi::IP => 0x0E,
            Npi::WapClientId => 0x12,
            Npi::Reserved(x) => *x,
        }
    }

    /// The value that `u` stands for.
    #[verifier::when_used_as_spec(spec_from_code)]
    pub fn from_code(u: u8) -> (r: Npi)
        ensures
            r == Self::spec_from_code(u),
    {
        match u {
            0x00 => Npi::Unknown,
            0x01 => Npi::ISDN,
            0x03 => Npi::Data,
            0x04 => Npi::Telex,
            0x06 => Npi::LandMobile,
            0x08 => Npi::National,
            0x09 => Npi::Private,
            0x0A => Npi::ERMES,
            0x0E => Npi::IP,
            0x12 => Npi::WapClientId,
            x => Npi::Reserved(x),
        }
    }

    /// What decoding makes of the bytes `s`: the value and the bytes left over.
    pub open spec fn parse(s: Seq<u8>) -> Result<(Npi, Seq<u8>), CodecError> {
        match parse_u8(s) {
            Ok((u, tail)) => Ok((Self::spec_from_code(u), tail)),
            Err(e) => Err(e),
        }
    }

    /// Reads one value. On failure nothing is consumed.
    pub fn decode(decoder: &mut Decoder<'_>) -> (r: Result<Npi, CodecError>)
        ensures
            match Self::parse(old(decoder)@) {
                Ok((v, tail)) => r == Ok::<Npi, CodecError>(v) && final(decoder)@ == tail,
                Err(e) => r == Err::<Npi, CodecError>(e) && final(decoder)@ == old(decoder)@,
            },
    {
        let u = decoder.read_u8()?;
        Ok(Self::from_code(u))
    }
}

impl Encode for Npi {
    open spec fn wire(&self) -> Seq<u8> {
        seq![self.spec_code()]
    }

    open spec fn encodable(&self) -> bool {
        true
    }

    fn encode(&self, encoder: &mut Encoder) -> (r: Result<(), CodecError>) {
        encoder.write_u8(self.code());
        Ok(())
    }
}

/// Every numbering plan of the table survives the trip over the wire: encoding it and
/// decoding the bytes, whatever follows them, gives the same variant back.
pub proof fn lemma_npi_known_round_trip(x: Npi, tail: Seq<u8>)
    requires
        !(x is Reserved),
    ensures
        Npi::spec_from_code(x.spec_code()) == x,
        Npi::parse(x.wire() + tail) == Ok::<(Npi, Seq<u8>), CodecError>((x, tail)),
{
    assert((x.wire() + tail).skip(1) =~= tail);
}

/// A code that the table does not list passes through unchanged: the fallback
/// variant around it encodes to the code itself, and decoding those bytes gives
/// the fallback variant around the same code.
pub proof fn lemma_npi_passthrough(u: u8, tail: Seq<u8>)
    requires
        !Npi::known(u),
    ensures
        Npi::Reserved(u).spec_code() == u,
        Npi::spec_from_code(u) == Npi::Reserved(u),
        Npi::parse(Npi::Reserved(u).wire() + tail) == Ok::<(Npi, Seq<u8>), CodecError>(
            (Npi::Reserved(u), tail),
        ),
{
    assert((Npi::Reserved(u).wire() + tail).skip(1) =~= tail);
}

/// No code is lost: the variant that a code decodes to encodes to that code.
pub proof fn lemma_npi_code_kept(u: u8)
    ensures
        Npi::spec_from_code(u).spec_code() == u,
{
}

} // verus!
