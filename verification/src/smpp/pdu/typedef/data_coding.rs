//! The octet that names the character set of a short message.

use crate::smpp::pdu::wire::{parse_u8, CodecError, Decoder, Encode, Encoder};
use vstd::prelude::*;

verus! {

/// The character set of a short message.
#[derive(Clone, Copy, Debug, PartialEq, Eq, Structural)]
pub enum DataCoding {
    /// The default alphabet of the message centre. Code `0x00`.
    SmscDefault,
    /// ASCII. Code `0x01`.
    Ascii,
    /// ISO-8859-1 (Latin-1). Code `0x03`.
    Latin1,
    /// JIS (X 0208-1990). Code `0x05`.
    ShiftJis,
    /// ISO-8859-5 (Cyrillic). Code `0x06`.
    Cyrillic,
    /// ISO-8859-8 (Hebrew). Code `0x07`.
    Hebrew,
    /// ISO/IEC 10646 (UCS-2). Code `0x08`.
    Ucs2,
    /// ISO-2022-JP. Code `0x0A`.
    Iso2022Jp,
    /// Extended Kanji JIS (X 0212-1990). Code `0x0D`.
    EucJp,
    /// KS X 1001. Code `0x0E`.
    EucKr,
    /// Any code outside the table, kept as it came.
    Reserved(u8),
}

impl DataCoding {
    /// The code of each variant; the fallback variant gives the code it carries.
    pub open spec fn spec_code(&self) -> u8 {
        match *self {
            DataCoding::SmscDefault => 0x00,
            DataCoding::Ascii => 0x01,
            DataCoding::Latin1 => 0x03,
            DataCoding::ShiftJis => 0x05,
            DataCoding::Cyrillic => 0x06,
            DataCoding::Hebrew => 0x07,
            DataCoding::Ucs2 => 0x08,
            DataCoding::Iso2022Jp => 0x0A,
            DataCoding::EucJp => 0x0D,
            DataCoding::EucKr => 0x0E,
            DataCoding::Reserved(x) => x,
        }
    }

    /// The variant of each code: the one the table lists for it, else the fallback
    /// variant around the code itself. No code is rejected.
    pub open spec fn spec_from_code(u: u8) -> DataCoding {
        match u {
            0x00 => DataCoding::SmscDefault,
            0x01 => DataCoding::Ascii,
            0x03 => DataCoding::Latin1,
            0x05 => DataCoding::ShiftJis,
            0x06 => DataCoding::Cyrillic,
            0x07 => DataCoding::Hebrew,
            0x08 => DataCoding::Ucs2,
            0x0A => DataCoding::Iso2022Jp,
            0x0D => DataCoding::EucJp,
            0x0E => DataCoding::EucKr,
            x => DataCoding::Reserved(x),
        }
    }

    /// Whether the table lists `u`.
    pub open spec fn known(u: u8) -> bool {
        !(Self::spec_from_code(u) is Reserved)
    }

    /// The code that stands for this value on the wire.
    #[verifier::when_used_as_spec(spec_code)]
    pub fn code(&self) -> (u: u8)
        ensures
            u == self.spec_code(),
    {
        match self {
            DataCoding::SmscDefault => 0x00,
            DataCoding::Ascii => 0x01,
            DataCoding::Latin1 => 0x03,
            DataCoding::ShiftJis => 0x05,
            DataCoding::Cyrillic => 0x06,
            DataCoding::Hebrew => 0x07,
            DataCoding::Ucs2 => 0x08,
            DataCoding::Iso2022Jp => 0x0A,
            DataCoding::EucJp => 0x0D,
            DataCoding::EucKr => 0x0E,
            DataCoding::Reserved(x) => *x,
        }
    }

    /// The value that `u` stands for.
    #[verifier::when_used_as_spec(spec_from_code)]
    pub fn from_code(u: u8) -> (r: DataCoding)
        ensures
            r == Self::spec_from_code(u),
    {
        match u {
            0x00 => DataCoding::SmscDefault,
            0x01 => DataCoding::Ascii,
            0x03 => DataCoding::Latin1,
            0x05 => DataCoding::ShiftJis,
            0x06 => DataCoding::Cyrillic,
            0x07 => DataCoding::Hebrew,
            0x08 => DataCoding::Ucs2,
            0x0A => DataCoding::Iso2022Jp,
            0x0D => DataCoding::EucJp,
            0x0E => DataCoding::EucKr,
            x => DataCoding::Reserved(x),
        }
    }

    /// What decoding makes of the bytes `s`: the value and the bytes left over.
    pub open spec fn parse(s: Seq<u8>) -> Result<(DataCoding, Seq<u8>), CodecError> {
        match parse_u8(s) {
            Ok((u, tail)) => Ok((Self::spec_from_code(u), tail)),
            Err(e) => Err(e),
        }
    }

    /// Reads one value. On failure nothing is consumed.
    pub fn decode(decoder: &mut Decoder<'_>) -> (r: Result<DataCoding, CodecError>)
        ensures
            match Self::parse(old(decoder)@) {
                Ok((v, tail)) => r == Ok::<DataCoding, CodecError>(v) && final(decoder)@ == tail,
                Err(e) => r == Err::<DataCoding, CodecError>(e) && final(decoder)@ == old(decoder)@,
            },
    {
        let u = decoder.read_u8()?;
        Ok(Self::from_code(u))
    }
}

impl Encode for DataCoding {
    open spec fn wire(&self) -> Seq<u8> {
        seq![self.spec_code()]
    }

    open spec fn encodable(&self) -> bool {
        true
    }

    fn encode(&self, encoder: &mut Encoder) -> (r: Result<(), CodecError>) {
        encoder.write_u8(self.code());
        Ok(())
    }
}

/// Every data coding of the table survives the trip over the wire: encoding it and
/// decoding the bytes, whatever follows them, gives the same variant back.
pub proof fn lemma_data_coding_known_round_trip(x: DataCoding, tail: Seq<u8>)
    requires
        !(x is Reserved),
    ensures
        DataCoding::spec_from_code(x.spec_code()) == x,
        DataCoding::parse(x.wire() + tail) == Ok::<(DataCoding, Seq<u8>), CodecError>((x, tail)),
{
    assert((x.wire() + tail).skip(1) =~= tail);
}

/// A code that the table does not list passes through unchanged: the fallback
/// variant around it encodes to the code itself, and decoding those bytes gives
/// the fallback variant around the same code.
pub proof fn lemma_data_coding_passthrough(u: u8, tail: Seq<u8>)
    requires
        !DataCoding::known(u),
    ensures
        DataCoding::Reserved(u).spec_code() == u,
        DataCoding::spec_from_code(u) == DataCoding::Reserved(u),
        DataCoding::parse(DataCoding::Reserved(u).wire() + tail) == Ok::<(DataCoding, Seq<u8>), CodecError>(
            (DataCoding::Reserved(u), tail),
        ),
{
    assert((DataCoding::Reserved(u).wire() + tail).skip(1) =~= tail);
}

/// No code is lost: the variant that a code decodes to encodes to that code.
pub proof fn lemma_data_coding_code_kept(u: u8)
    ensures
        DataCoding::spec_from_code(u).spec_code() == u,
{
}

} // verus!
