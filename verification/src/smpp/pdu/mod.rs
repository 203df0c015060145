//! Protocol data units. One unit on the wire is a header of sixteen octets,
//! then the body of its operation, then the body's optional parameters:
//!
//! ```text
//! command_length  command_id  command_status  sequence_number  body ...
//!    4 octets      4 octets      4 octets         4 octets
//! ```
//!
//! All integers are big-endian and of fixed width. The header is here, the
//! command vocabulary in [`command`], the primitive field types in
//! [`typedef`] and the byte-level plumbing in [`wire`].

use crate::smpp::pdu::command::{Id, Status};
use crate::smpp::pdu::wire::{
    be32, lemma_be32_round_trip, parse_u32, rest, value, CodecError, Decoder, Encode, Encoder,
    Malformation,
};
use vstd::prelude::*;

pub mod command;
pub mod typedef;
pub mod wire;

verus! {

/// The number of octets of a header.
pub const HEADER_LENGTH: u32 = 16;

/// The header of a protocol data unit.
#[derive(Clone, Copy, Debug, PartialEq, Eq, Structural)]
pub struct Header {
    /// The number of octets of the whole unit, these sixteen included.
    pub command_length: u32,
    /// The operation.
    pub command_id: Id,
    /// The outcome, in a response; not used in a request.
    pub command_status: Status,
    /// The number by which a response is matched to its request.
    pub sequence_number: u32,
}

impl Header {
    /// The header of a unit without a body.
    pub fn new(id: Id, status: Status, seq_num: u32) -> (h: Self)
        ensures
            h == (Header {
                command_length: 16,
                command_id: id,
                command_status: status,
                sequence_number: seq_num,
            }),
    {
        Header {
            command_length: HEADER_LENGTH,
            command_id: id,
            command_status: status,
            sequence_number: seq_num,
        }
    }

    /// The same header with another length.
    pub fn set_len(self, len: u32) -> (h: Self)
        ensures
            h == (Header { command_length: len, ..self }),
    {
        Header {
            command_length: len,
            command_id: self.command_id,
            command_status: self.command_status,
            sequence_number: self.sequence_number,
        }
    }

    /// The header that frames a body of `body_len` octets.
    pub open spec fn framing(id: Id, status: Status, seq_num: u32, body_len: nat) -> Header {
        Header {
            command_length: (16 + body_len) as u32,
            command_id: id,
            command_status: status,
            sequence_number: seq_num,
        }
    }

    /// A whole unit, ready to send: the header, with the length of the whole
    /// in it, then the body. A body that cannot be written is refused, and so
    /// is one too long for the length to fit in 32 bits.
    pub fn new_with_body<E: Encode>(id: Id, status: Status, seq_num: u32, body: E) -> (r: Result<
        Vec<u8>,
        CodecError,
    >)
        ensures
            body.encodable() && 16 + body.wire().len() <= u32::MAX ==> r is Ok && r->Ok_0@
                == Self::framing(id, status, seq_num, body.wire().len()).wire() + body.wire(),
            !(body.encodable() && 16 + body.wire().len() <= u32::MAX) ==> r == Err::<
                Vec<u8>,
                CodecError,
            >(CodecError::InvalidArgument),
    {
        let mut payload = Encoder::new();
        match body.encode(&mut payload) {
            Ok(()) => {},
            Err(e) => {
                return Err(e);
            },
        }
        assert(payload@ =~= body.wire());
        if payload.len() > (u32::MAX - HEADER_LENGTH) as usize {
            return Err(CodecError::InvalidArgument);
        }
        let header = Self::new(id, status, seq_num).set_len(HEADER_LENGTH + payload.len() as u32);
        let mut unit = Encoder::new();
        let _ = header.encode(&mut unit);
        let payload = payload.into_bytes();
        unit.write_bytes(payload.as_slice());
        assert(unit@ =~= header.wire() + body.wire());
        Ok(unit.into_bytes())
    }

    /// Holds the length that the header states against the number of bytes of
    /// the unit it came with. Decoding does not do this: it reads what it is
    /// given.
    pub fn check_length(&self, unit_len: usize) -> (r: Result<(), CodecError>)
        ensures
            self.command_length == unit_len ==> r is Ok,
            self.command_length != unit_len ==> r == Err::<(), CodecError>(
                CodecError::Malformed(
                    Malformation::Length { expected: self.command_length as usize },
                ),
            ),
    {
        if self.command_length as usize == unit_len {
            Ok(())
        } else {
            Err(CodecError::Malformed(Malformation::Length { expected: self.command_length as usize }))
        }
    }

    /// What decoding makes of the bytes `s`: four integers of four octets.
    pub open spec fn parse(s: Seq<u8>) -> Result<(Header, Seq<u8>), CodecError> {
        let command_length = parse_u32(s);
        let command_id = Id::parse(rest(command_length));
        let command_status = Status::parse(rest(command_id));
        let sequence_number = parse_u32(rest(command_status));
        if command_length is Err {
            Err(command_length->Err_0)
        } else if command_id is Err {
            Err(command_id->Err_0)
        } else if command_status is Err {
            Err(command_status->Err_0)
        } else if sequence_number is Err {
            Err(sequence_number->Err_0)
        } else {
            Ok(
                (
                    Header {
                        command_length: value(command_length),
                        command_id: value(command_id),
                        command_status: value(command_status),
                        sequence_number: value(sequence_number),
                    },
                    rest(sequence_number),
                ),
            )
        }
    }

    /// Reads a header. The length it states is handed on as it is, whatever
    /// the number of bytes that follow. On failure nothing is consumed.
    pub fn decode(decoder: &mut Decoder<'_>) -> (r: Result<Header, CodecError>)
        ensures
            match Self::parse(old(decoder)@) {
                Ok((v, tail)) => r == Ok::<Header, CodecError>(v) && final(decoder)@ == tail,
                Err(e) => r == Err::<Header, CodecError>(e) && final(decoder)@ == old(decoder)@,
            },
    {
        let mut d = *decoder;
        let command_length = d.read_u32()?;
        let command_id = Id::decode(&mut d)?;
        let command_status = Status::decode(&mut d)?;
        let sequence_number = d.read_u32()?;
        *decoder = d;
        Ok(Header { command_length, command_id, command_status, sequence_number })
    }
}

impl Encode for Header {
    open spec fn wire(&self) -> Seq<u8> {
        be32(self.command_length) + self.command_id.wire() + self.command_status.wire() + be32(
            self.sequence_number,
        )
    }

    open spec fn encodable(&self) -> bool {
        true
    }

    fn encode(&self, encoder: &mut Encoder) -> (r: Result<(), CodecError>) {
        encoder.write_u32(self.command_length);
        let _ = self.command_id.encode(encoder);
        let _ = self.command_status.encode(encoder);
        encoder.write_u32(self.sequence_number);
        assert(encoder@ =~= old(encoder)@ + self.wire());
        Ok(())
    }
}

/// A header always takes sixteen octets.
pub proof fn lemma_header_length(h: Header)
    ensures
        h.wire().len() == 16,
{
}

/// A header whose operation and outcome are not fallback variants around
/// codes of their tables survives the trip over the wire, whatever bytes
/// follow it.
pub proof fn lemma_header_round_trip(h: Header, tail: Seq<u8>)
    requires
        h.command_id is Reserved ==> !Id::known(h.command_id->0),
        h.command_status is Reserved ==> !Status::known(h.command_status->0),
    ensures
        Header::parse(h.wire() + tail) == Ok::<(Header, Seq<u8>), CodecError>((h, tail)),
{
    let s3 = be32(h.sequence_number) + tail;
    let s2 = h.command_status.wire() + s3;
    let s1 = h.command_id.wire() + s2;
    assert(h.wire() + tail =~= be32(h.command_length) + s1);
    lemma_be32_round_trip(h.command_length, s1);
    lemma_be32_round_trip(h.command_id.spec_code(), s2);
    lemma_be32_round_trip(h.command_status.spec_code(), s3);
    lemma_be32_round_trip(h.sequence_number, tail);
}

/// The unit that `new_with_body` frames states its own length: the first
/// four octets spell the number of octets of the whole.
pub proof fn lemma_framed_length(id: Id, status: Status, seq_num: u32, body: Seq<u8>)
    requires
        16 + body.len() <= u32::MAX,
    ensures
        ({
            let unit = Header::framing(id, status, seq_num, body.len()).wire() + body;
            unit.len() == 16 + body.len() && parse_u32(unit) is Ok && value(parse_u32(unit))
                == unit.len()
        }),
{
    let h = Header::framing(id, status, seq_num, body.len());
    let s1 = h.command_id.wire() + h.command_status.wire() + be32(h.sequence_number) + body;
    assert(h.wire() + body =~= be32(h.command_length) + s1);
    lemma_be32_round_trip(h.command_length, s1);
}

} // verus!
