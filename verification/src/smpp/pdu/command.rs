//! The command vocabulary: the operation code and the result code of a header,
//! each a closed table of 32-bit codes with one fallback variant that keeps any
//! other code as it came.

use crate::smpp::pdu::wire::{
    be32, lemma_be32_round_trip, parse_u32, CodecError, Decoder, Encode, Encoder,
};
use vstd::prelude::*;

pub mod delivery;
pub mod session;
pub mod submit;

pub use delivery::{DataSm, DataSmResp, DeliverSm, DeliverSmResp};
pub use session::{
    AlertNotification, Bind, BindReceiver, BindReceiverResp, BindResp, BindTransceiver,
    BindTransceiverResp, BindTransmitter, BindTransmitterResp, EnquireLink, EnquireLinkResp,
    GenericNack, OutBind, Unbind, UnbindResp,
};
pub use submit::{SubmitSm, SubmitSmResp};

verus! {

/// The operation that a protocol data unit carries (`command_id`).
#[derive(Clone, Copy, Debug, PartialEq, Eq, Structural)]
pub enum Id {
    /// `generic_nack`, code `0x80000000`.
    GenericNack,
    /// `bind_receiver`, code `0x00000001`.
    BindReceiver,
    /// `bind_receiver_resp`, code `0x80000001`.
    BindReceiverResp,
    /// `bind_transmitter`, code `0x00000002`.
    BindTransmitter,
    /// `bind_transmitter_resp`, code `0x80000002`.
    BindTransmitterResp,
    /// `query_sm`, code `0x00000003`.
    QuerySm,
    /// `query_sm_resp`, code `0x80000003`.
    QuerySmResp,
    /// `submit_sm`, code `0x00000004`.
    SubmitSm,
    /// `submit_sm_resp`, code `0x80000004`.
    SubmitSmResp,
    /// `deliver_sm`, code `0x00000005`.
    DeliverSm,
    /// `deliver_sm_resp`, code `0x80000005`.
    DeliverSmResp,
    /// `unbind`, code `0x00000006`.
    Unbind,
    /// `unbind_resp`, code `0x80000006`.
    UnbindResp,
    /// `replace_sm`, code `0x00000007`.
    ReplaceSm,
    /// `replace_sm_resp`, code `0x80000007`.
    ReplaceSmResp,
    /// `cancel_sm`, code `0x00000008`.
    CancelSm,
    /// `cancel_sm_resp`, code `0x80000008`.
    CancelSmResp,
    /// `bind_transceiver`, code `0x00000009`.
    BindTransceiver,
    /// `bind_transceiver_resp`, code `0x80000009`.
    BindTransceiverResp,
    /// `outbind`, code `0x0000000B`.
    Outbind,
    /// `enquire_link`, code `0x00000015`.
    EnquireLink,
    /// `enquire_link_resp`, code `0x80000015`.
    EnquireLinkResp,
    /// `submit_multi`, code `0x00000021`.
    SubmitMulti,
    /// `submit_multi_resp`, code `0x80000021`.
    SubmitMultiResp,
    /// `alert_notification`, code `0x00000102`.
    AlertNotification,
    /// `data_sm`, code `0x00000103`.
    DataSm,
    /// `data_sm_resp`, code `0x80000103`.
    DataSmResp,
    /// Any code outside the table, kept as it came.
    Reserved(u32),
}

impl Id {
    /// The code of each variant; the fallback variant gives the code it carries.
    pub open spec fn spec_code(&self) -> u32 {
        match *self {
            Id::GenericNack => 0x80000000,
            Id::BindReceiver => 0x00000001,
            Id::BindReceiverResp => 0x80000001,
            Id::BindTransmitter => 0x00000002,
            Id::BindTransmitterResp => 0x80000002,
            Id::QuerySm => 0x00000003,
            Id::QuerySmResp => 0x80000003,
            Id::SubmitSm => 0x00000004,
            Id::SubmitSmResp => 0x80000004,
            Id::DeliverSm => 0x00000005,
            Id::DeliverSmResp => 0x80000005,
            Id::Unbind => 0x00000006,
            Id::UnbindResp => 0x80000006,
            Id::ReplaceSm => 0x00000007,
            Id::ReplaceSmResp => 0x80000007,
            Id::CancelSm => 0x00000008,
            Id::CancelSmResp => 0x80000008,
            Id::BindTransceiver => 0x00000009,
            Id::BindTransceiverResp => 0x80000009,
            Id::Outbind => 0x0000000B,
            Id::EnquireLink => 0x00000015,
            Id::EnquireLinkResp => 0x80000015,
            Id::SubmitMulti => 0x00000021,
            Id::SubmitMultiResp => 0x80000021,
            Id::AlertNotification => 0x00000102,
            Id::DataSm => 0x00000103,
            Id::DataSmResp => 0x80000103,
            Id::Reserved(x) => x,
        }
    }

    /// The variant of each code: the one the table lists for it, else the fallback
    /// variant around the code itself. No code is rejected.
    pub open spec fn spec_from_code(u: u32) -> Id {
        match u {
            0x80000000 => Id::GenericNack,
            0x00000001 => Id::BindReceiver,
            0x80000001 => Id::BindReceiverResp,
            0x00000002 => Id::BindTransmitter,
            0x80000002 => Id::BindTransmitterResp,
            0x00000003 => Id::QuerySm,
            0x80000003 => Id::QuerySmResp,
            0x00000004 => Id::SubmitSm,
            0x80000004 => Id::SubmitSmResp,
            0x00000005 => Id::DeliverSm,
            0x80000005 => Id::DeliverSmResp,
            0x00000006 => Id::Unbind,
            0x80000006 => Id::UnbindResp,
            0x00000007 => Id::ReplaceSm,
            0x80000007 => Id::ReplaceSmResp,
            0x00000008 => Id::CancelSm,
            0x80000008 => Id::CancelSmResp,
            0x00000009 => Id::BindTransceiver,
            0x80000009 => Id::BindTransceiverResp,
            0x0000000B => Id::Outbind,
            0x00000015 => Id::EnquireLink,
            0x80000015 => Id::EnquireLinkResp,
            0x00000021 => Id::SubmitMulti,
            0x80000021 => Id::SubmitMultiResp,
            0x00000102 => Id::AlertNotification,
            0x00000103 => Id::DataSm,
            0x80000103 => Id::DataSmResp,
            x => Id::Reserved(x),
        }
    }

    /// Whether the table lists `u`.
    pub open spec fn known(u: u32) -> bool {
        !(Self::spec_from_code(u) is Reserved)
    }

    /// The code that stands for this value on the wire.
    #[verifier::when_used_as_spec(spec_code)]
    pub fn code(&self) -> (u: u32)
        ensures
            u == self.spec_code(),
    {
        match self {
            Id::GenericNack => 0x80000000,
            Id::BindReceiver => 0x00000001,
            Id::BindReceiverResp => 0x80000001,
            Id::BindTransmitter => 0x00000002,
            Id::BindTransmitterResp => 0x80000002,
            Id::QuerySm => 0x00000003,
            Id::QuerySmResp => 0x80000003,
            Id::SubmitSm => 0x00000004,
            Id::SubmitSmResp => 0x80000004,
            Id::DeliverSm => 0x00000005,
            Id::DeliverSmResp => 0x80000005,
            Id::Unbind => 0x00000006,
            Id::UnbindResp => 0x80000006,
            Id::ReplaceSm => 0x00000007,
            Id::ReplaceSmResp => 0x80000007,
            Id::CancelSm => 0x00000008,
            Id::CancelSmResp => 0x80000008,
            Id::BindTransceiver => 0x00000009,
            Id::BindTransceiverResp => 0x80000009,
            Id::Outbind => 0x0000000B,
            Id::EnquireLink => 0x00000015,
            Id::EnquireLinkResp => 0x80000015,
            Id::SubmitMulti => 0x00000021,
            Id::SubmitMultiResp => 0x80000021,
            Id::AlertNotification => 0x00000102,
            Id::DataSm => 0x00000103,
            Id::DataSmResp => 0x80000103,
            Id::Reserved(x) => *x,
        }
    }

    /// The value that `u` stands for.
    #[verifier::when_used_as_spec(spec_from_code)]
    pub fn from_code(u: u32) -> (r: Id)
        ensures
            r == Self::spec_from_code(u),
    {
        match u {
            0x80000000 => Id::GenericNack,
            0x00000001 => Id::BindReceiver,
            0x80000001 => Id::BindReceiverResp,
            0x00000002 => Id::BindTransmitter,
            0x80000002 => Id::BindTransmitterResp,
            0x00000003 => Id::QuerySm,
            0x80000003 => Id::QuerySmResp,
            0x00000004 => Id::SubmitSm,
            0x80000004 => Id::SubmitSmResp,
            0x00000005 => Id::DeliverSm,
            0x80000005 => Id::DeliverSmResp,
            0x00000006 => Id::Unbind,
            0x80000006 => Id::UnbindResp,
            0x00000007 => Id::ReplaceSm,
            0x80000007 => Id::ReplaceSmResp,
            0x00000008 => Id::CancelSm,
            0x80000008 => Id::CancelSmResp,
            0x00000009 => Id::BindTransceiver,
            0x80000009 => Id::BindTransceiverResp,
            0x0000000B => Id::Outbind,
            0x00000015 => Id::EnquireLink,
            0x80000015 => Id::EnquireLinkResp,
            0x00000021 => Id::SubmitMulti,
            0x80000021 => Id::SubmitMultiResp,
            0x00000102 => Id::AlertNotification,
            0x00000103 => Id::DataSm,
            0x80000103 => Id::DataSmResp,
            x => Id::Reserved(x),
        }
    }

    /// What decoding makes of the bytes `s`: the value and the bytes left over.
    pub open spec fn parse(s: Seq<u8>) -> Result<(Id, Seq<u8>), CodecError> {
        match parse_u32(s) {
            Ok((u, tail)) => Ok((Self::spec_from_code(u), tail)),
            Err(e) => Err(e),
        }
    }

    /// Reads one value. On failure nothing is consumed.
    pub fn decode(decoder: &mut Decoder<'_>) -> (r: Result<Id, CodecError>)
        ensures
            match Self::parse(old(decoder)@) {
                Ok((v, tail)) => r == Ok::<Id, CodecError>(v) && final(decoder)@ == tail,
                Err(e) => r == Err::<Id, CodecError>(e) && final(decoder)@ == old(decoder)@,
            },
    {
        let u = decoder.read_u32()?;
        Ok(Self::from_code(u))
    }
}

impl Encode for Id {
    open spec fn wire(&self) -> Seq<u8> {
        be32(self.spec_code())
    }

    open spec fn encodable(&self) -> bool {
        true
    }

    fn encode(&self, encoder: &mut Encoder) -> (r: Result<(), CodecError>) {
        encoder.write_u32(self.code());
        Ok(())
    }
}

/// Every operation code of the table survives the trip over the wire: encoding it and
/// decoding the bytes, whatever follows them, gives the same variant back.
pub proof fn lemma_id_known_round_trip(x: Id, tail: Seq<u8>)
    requires
        !(x is Reserved),
    ensures
        Id::spec_from_code(x.spec_code()) == x,
        Id::parse(x.wire() + tail) == Ok::<(Id, Seq<u8>), CodecError>((x, tail)),
{
    lemma_be32_round_trip(x.spec_code(), tail);
}

/// A code that the table does not list passes through unchanged: the fallback
/// variant around it encodes to the code itself, and decoding those bytes gives
/// the fallback variant around the same code.
pub proof fn lemma_id_passthrough(u: u32, tail: Seq<u8>)
    requires
        !Id::known(u),
    ensures
        Id::Reserved(u).spec_code() == u,
        Id::spec_from_code(u) == Id::Reserved(u),
        Id::parse(Id::Reserved(u).wire() + tail) == Ok::<(Id, Seq<u8>), CodecError>(
            (Id::Reserved(u), tail),
        ),
{
    lemma_be32_round_trip(u, tail);
}

/// No code is lost: the variant that a code decodes to encodes to that code.
pub proof fn lemma_id_code_kept(u: u32)
    ensures
        Id::spec_from_code(u).spec_code() == u,
{
}

/// The outcome that a response reports (`command_status`).
#[allow(non_camel_case_types)]
#[derive(Clone, Copy, Debug, PartialEq, Eq, Structural)]
pub enum Status {
    /// No error. Code `0x00000000`.
    ESME_ROK,
    /// The message length is invalid. Code `0x00000001`.
    ESME_RINVMSGLEN,
    /// The command length is invalid. Code `0x00000002`.
    ESME_RINVCMDLEN,
    /// The command id is invalid. Code `0x00000003`.
    ESME_RINVCMDID,
    /// The bind status does not allow the command. Code `0x00000004`.
    ESME_RINVBNDSTS,
    /// The ESME is bound already. Code `0x00000005`.
    ESME_RALYBND,
    /// The priority flag is invalid. Code `0x00000006`.
    ESME_RINVPRTFLG,
    /// The registered-delivery flag is invalid. Code `0x00000007`.
    ESME_RINVREGDLVFLG,
    /// System error. Code `0x00000008`.
    ESME_RSYSERR,
    /// The source address is invalid. Code `0x0000000A`.
    ESME_RINVSRCADR,
    /// The destination address is invalid. Code `0x0000000B`.
    ESME_RINVDSTADR,
    /// The message id is invalid. Code `0x0000000C`.
    ESME_RINVMSGID,
    /// The bind failed. Code `0x0000000D`.
    ESME_RBINDFAIL,
    /// The password is invalid. Code `0x0000000E`.
    ESME_RINVPASWD,
    /// The system id is invalid. Code `0x0000000F`.
    ESME_RINVSYSID,
    /// `cancel_sm` failed. Code `0x00000011`.
    ESME_RCANCELFAIL,
    /// `replace_sm` failed. Code `0x00000013`.
    ESME_RREPLACEFAIL,
    /// The message queue is full. Code `0x00000014`.
    ESME_RMSGQFUL,
    /// The service type is invalid. Code `0x00000015`.
    ESME_RINVSERTYP,
    /// The number of destinations is invalid. Code `0x00000033`.
    ESME_RINVNUMDESTS,
    /// The distribution list name is invalid. Code `0x00000034`.
    ESME_RINVDLNAME,
    /// The destination flag is invalid. Code `0x00000040`.
    ESME_RINVDESTFLAG,
    /// Submit-with-replace was asked for where it cannot be had. Code `0x00000042`.
    ESME_RINVSUBREP,
    /// The `esm_class` field is invalid. Code `0x00000043`.
    ESME_RINVESMCLASS,
    /// Submitting to a distribution list is not possible. Code `0x00000044`.
    ESME_RCNTSUBDL,
    /// The submission failed. Code `0x00000045`.
    ESME_RSUBMITFAIL,
    /// The type of number of the source address is invalid. Code `0x00000048`.
    ESME_RINVSRCTON,
    /// The numbering plan of the source address is invalid. Code `0x00000049`.
    ESME_RINVSRCNPI,
    /// The type of number of the destination address is invalid. Code `0x00000050`.
    ESME_RINVDSTTON,
    /// The numbering plan of the destination address is invalid. Code `0x00000051`.
    ESME_RINVDSTNPI,
    /// The system type is invalid. Code `0x00000053`.
    ESME_RINVSYSTYP,
    /// The replace-if-present flag is invalid. Code `0x00000054`.
    ESME_RINVREPFLAG,
    /// The number of messages is invalid. Code `0x00000055`.
    ESME_RINVNUMMSGS,
    /// The ESME went over its allowed message rate. Code `0x00000058`.
    ESME_RTHROTTLED,
    /// The scheduled delivery time is invalid. Code `0x00000061`.
    ESME_RINVSCHED,
    /// The validity period is invalid. Code `0x00000062`.
    ESME_RINVEXPIRY,
    /// The predefined message id is invalid or unknown. Code `0x00000063`.
    ESME_RINVDFTMSGID,
    /// The receiver reports a temporary application error. Code `0x00000064`.
    ESME_RX_T_APPN,
    /// The receiver reports a permanent application error. Code `0x00000065`.
    ESME_RX_P_APPN,
    /// The receiver rejects the message. Code `0x00000066`.
    ESME_RX_R_APPN,
    /// `query_sm` failed. Code `0x00000067`.
    ESME_RQUERYFAIL,
    /// The optional part of the body is broken. Code `0x000000C0`.
    ESME_RINVOPTPARSTREAM,
    /// An optional parameter is not allowed here. Code `0x000000C1`.
    ESME_ROPTPARNOTALLWD,
    /// A parameter has an invalid length. Code `0x000000C2`.
    ESME_RINVPARLEN,
    /// An expected optional parameter is missing. Code `0x000000C3`.
    ESME_RMISSINGOPTPARAM,
    /// The value of an optional parameter is invalid. Code `0x000000C4`.
    ESME_RINVOPTPARAMVAL,
    /// Any code outside the table, kept as it came.
    Reserved(u32),
}

impl Status {
    /// The code of each variant; the fallback variant gives the code it carries.
    pub open spec fn spec_code(&self) -> u32 {
        match *self {
            Status::ESME_ROK => 0x00000000,
            Status::ESME_RINVMSGLEN => 0x00000001,
            Status::ESME_RINVCMDLEN => 0x00000002,
            Status::ESME_RINVCMDID => 0x00000003,
            Status::ESME_RINVBNDSTS => 0x00000004,
            Status::ESME_RALYBND => 0x00000005,
            Status::ESME_RINVPRTFLG => 0x00000006,
            Status::ESME_RINVREGDLVFLG => 0x00000007,
            Status::ESME_RSYSERR => 0x00000008,
            Status::ESME_RINVSRCADR => 0x0000000A,
            Status::ESME_RINVDSTADR => 0x0000000B,
            Status::ESME_RINVMSGID => 0x0000000C,
            Status::ESME_RBINDFAIL => 0x0000000D,
            Status::ESME_RINVPASWD => 0x0000000E,
            Status::ESME_RINVSYSID => 0x0000000F,
            Status::ESME_RCANCELFAIL => 0x00000011,
            Status::ESME_RREPLACEFAIL => 0x00000013,
            Status::ESME_RMSGQFUL => 0x00000014,
            Status::ESME_RINVSERTYP => 0x00000015,
            Status::ESME_RINVNUMDESTS => 0x00000033,
            Status::ESME_RINVDLNAME => 0x00000034,
            Status::ESME_RINVDESTFLAG => 0x00000040,
            Status::ESME_RINVSUBREP => 0x00000042,
            Status::ESME_RINVESMCLASS => 0x00000043,
            Status::ESME_RCNTSUBDL => 0x00000044,
            Status::ESME_RSUBMITFAIL => 0x00000045,
            Status::ESME_RINVSRCTON => 0x00000048,
            Status::ESME_RINVSRCNPI => 0x00000049,
            Status::ESME_RINVDSTTON => 0x00000050,
            Status::ESME_RINVDSTNPI => 0x00000051,
            Status::ESME_RINVSYSTYP => 0x00000053,
            Status::ESME_RINVREPFLAG => 0x00000054,
            Status::ESME_RINVNUMMSGS => 0x00000055,
            Status::ESME_RTHROTTLED => 0x00000058,
            Status::ESME_RINVSCHED => 0x00000061,
            Status::ESME_RINVEXPIRY => 0x00000062,
            Status::ESME_RINVDFTMSGID => 0x00000063,
            Status::ESME_RX_T_APPN => 0x00000064,
            Status::ESME_RX_P_APPN => 0x00000065,
            Status::ESME_RX_R_APPN => 0x00000066,
            Status::ESME_RQUERYFAIL => 0x00000067,
            Status::ESME_RINVOPTPARSTREAM => 0x000000C0,
            Status::ESME_ROPTPARNOTALLWD => 0x000000C1,
            Status::ESME_RINVPARLEN => 0x000000C2,
            Status::ESME_RMISSINGOPTPARAM => 0x000000C3,
            Status::ESME_RINVOPTPARAMVAL => 0x000000C4,
            Status::Reserved(x) => x,
        }
    }

    /// The variant of each code: the one the table lists for it, else the fallback
    /// variant around the code itself. No code is rejected.
    pub open spec fn spec_from_code(u: u32) -> Status {
        match u {
            0x00000000 => Status::ESME_ROK,
            0x00000001 => Status::ESME_RINVMSGLEN,
            0x00000002 => Status::ESME_RINVCMDLEN,
            0x00000003 => Status::ESME_RINVCMDID,
            0x00000004 => Status::ESME_RINVBNDSTS,
            0x00000005 => Status::ESME_RALYBND,
            0x00000006 => Status::ESME_RINVPRTFLG,
            0x00000007 => Status::ESME_RINVREGDLVFLG,
            0x00000008 => Status::ESME_RSYSERR,
            0x0000000A => Status::ESME_RINVSRCADR,
            0x0000000B => Status::ESME_RINVDSTADR,
            0x0000000C => Status::ESME_RINVMSGID,
            0x0000000D => Status::ESME_RBINDFAIL,
            0x0000000E => Status::ESME_RINVPASWD,
            0x0000000F => Status::ESME_RINVSYSID,
            0x00000011 => Status::ESME_RCANCELFAIL,
            0x00000013 => Status::ESME_RREPLACEFAIL,
            0x00000014 => Status::ESME_RMSGQFUL,
            0x00000015 => Status::ESME_RINVSERTYP,
            0x00000033 => Status::ESME_RINVNUMDESTS,
            0x00000034 => Status::ESME_RINVDLNAME,
            0x00000040 => Status::ESME_RINVDESTFLAG,
            0x00000042 => Status::ESME_RINVSUBREP,
            0x00000043 => Status::ESME_RINVESMCLASS,
            0x00000044 => Status::ESME_RCNTSUBDL,
            0x00000045 => Status::ESME_RSUBMITFAIL,
            0x00000048 => Status::ESME_RINVSRCTON,
            0x00000049 => Status::ESME_RINVSRCNPI,
            0x00000050 => Status::ESME_RINVDSTTON,
            0x00000051 => Status::ESME_RINVDSTNPI,
            0x00000053 => Status::ESME_RINVSYSTYP,
            0x00000054 => Status::ESME_RINVREPFLAG,
            0x00000055 => Status::ESME_RINVNUMMSGS,
            0x00000058 => Status::ESME_RTHROTTLED,
            0x00000061 => Status::ESME_RINVSCHED,
            0x00000062 => Status::ESME_RINVEXPIRY,
            0x00000063 => Status::ESME_RINVDFTMSGID,
            0x00000064 => Status::ESME_RX_T_APPN,
            0x00000065 => Status::ESME_RX_P_APPN,
            0x00000066 => Status::ESME_RX_R_APPN,
            0x00000067 => Status::ESME_RQUERYFAIL,
            0x000000C0 => Status::ESME_RINVOPTPARSTREAM,
            0x000000C1 => Status::ESME_ROPTPARNOTALLWD,
            0x000000C2 => Status::ESME_RINVPARLEN,
            0x000000C3 => Status::ESME_RMISSINGOPTPARAM,
            0x000000C4 => Status::ESME_RINVOPTPARAMVAL,
            x => Status::Reserved(x),
        }
    }

    /// Whether the table lists `u`.
    pub open spec fn known(u: u32) -> bool {
        !(Self::spec_from_code(u) is Reserved)
    }

    /// The code that stands for this value on the wire.
    #[verifier::when_used_as_spec(spec_code)]
    pub fn code(&self) -> (u: u32)
        ensures
            u == self.spec_code(),
    {
        match self {
            Status::ESME_ROK => 0x00000000,
            Status::ESME_RINVMSGLEN => 0x00000001,
            Status::ESME_RINVCMDLEN => 0x00000002,
            Status::ESME_RINVCMDID => 0x00000003,
            Status::ESME_RINVBNDSTS => 0x00000004,
            Status::ESME_RALYBND => 0x00000005,
            Status::ESME_RINVPRTFLG => 0x00000006,
            Status::ESME_RINVREGDLVFLG => 0x00000007,
            Status::ESME_RSYSERR => 0x00000008,
            Status::ESME_RINVSRCADR => 0x0000000A,
            Status::ESME_RINVDSTADR => 0x0000000B,
            Status::ESME_RINVMSGID => 0x0000000C,
            Status::ESME_RBINDFAIL => 0x0000000D,
            Status::ESME_RINVPASWD => 0x0000000E,
            Status::ESME_RINVSYSID => 0x0000000F,
            Status::ESME_RCANCELFAIL => 0x00000011,
            Status::ESME_RREPLACEFAIL => 0x00000013,
            Status::ESME_RMSGQFUL => 0x00000014,
            Status::ESME_RINVSERTYP => 0x00000015,
            Status::ESME_RINVNUMDESTS => 0x00000033,
            Status::ESME_RINVDLNAME => 0x00000034,
            Status::ESME_RINVDESTFLAG => 0x00000040,
            Status::ESME_RINVSUBREP => 0x00000042,
            Status::ESME_RINVESMCLASS => 0x00000043,
            Status::ESME_RCNTSUBDL => 0x00000044,
            Status::ESME_RSUBMITFAIL => 0x00000045,
            Status::ESME_RINVSRCTON => 0x00000048,
            Status::ESME_RINVSRCNPI => 0x00000049,
            Status::ESME_RINVDSTTON => 0x00000050,
            Status::ESME_RINVDSTNPI => 0x00000051,
            Status::ESME_RINVSYSTYP => 0x00000053,
            Status::ESME_RINVREPFLAG => 0x00000054,
            Status::ESME_RINVNUMMSGS => 0x00000055,
            Status::ESME_RTHROTTLED => 0x00000058,
            Status::ESME_RINVSCHED => 0x00000061,
            Status::ESME_RINVEXPIRY => 0x00000062,
            Status::ESME_RINVDFTMSGID => 0x00000063,
            Status::ESME_RX_T_APPN => 0x00000064,
            Status::ESME_RX_P_APPN => 0x00000065,
            Status::ESME_RX_R_APPN => 0x00000066,
            Status::ESME_RQUERYFAIL => 0x00000067,
            Status::ESME_RINVOPTPARSTREAM => 0x000000C0,
            Status::ESME_ROPTPARNOTALLWD => 0x000000C1,
            Status::ESME_RINVPARLEN => 0x000000C2,
            Status::ESME_RMISSINGOPTPARAM => 0x000000C3,
            Status::ESME_RINVOPTPARAMVAL => 0x000000C4,
            Status::Reserved(x) => *x,
        }
    }

    /// The value that `u` stands for.
    #[verifier::when_used_as_spec(spec_from_code)]
    pub fn from_code(u: u32) -> (r: Status)
        ensures
            r == Self::spec_from_code(u),
    {
        match u {
            0x00000000 => Status::ESME_ROK,
            0x00000001 => Status::ESME_RINVMSGLEN,
            0x00000002 => Status::ESME_RINVCMDLEN,
            0x00000003 => Status::ESME_RINVCMDID,
            0x00000004 => Status::ESME_RINVBNDSTS,
            0x00000005 => Status::ESME_RALYBND,
            0x00000006 => Status::ESME_RINVPRTFLG,
            0x00000007 => Status::ESME_RINVREGDLVFLG,
            0x00000008 => Status::ESME_RSYSERR,
            0x0000000A => Status::ESME_RINVSRCADR,
            0x0000000B => Status::ESME_RINVDSTADR,
            0x0000000C => Status::ESME_RINVMSGID,
            0x0000000D => Status::ESME_RBINDFAIL,
            0x0000000E => Status::ESME_RINVPASWD,
            0x0000000F => Status::ESME_RINVSYSID,
            0x00000011 => Status::ESME_RCANCELFAIL,
            0x00000013 => Status::ESME_RREPLACEFAIL,
            0x00000014 => Status::ESME_RMSGQFUL,
            0x00000015 => Status::ESME_RINVSERTYP,
            0x00000033 => Status::ESME_RINVNUMDESTS,
            0x00000034 => Status::ESME_RINVDLNAME,
            0x00000040 => Status::ESME_RINVDESTFLAG,
            0x00000042 => Status::ESME_RINVSUBREP,
            0x00000043 => Status::ESME_RINVESMCLASS,
            0x00000044 => Status::ESME_RCNTSUBDL,
            0x00000045 => Status::ESME_RSUBMITFAIL,
            0x00000048 => Status::ESME_RINVSRCTON,
            0x00000049 => Status::ESME_RINVSRCNPI,
            0x00000050 => Status::ESME_RINVDSTTON,
            0x00000051 => Status::ESME_RINVDSTNPI,
            0x00000053 => Status::ESME_RINVSYSTYP,
            0x00000054 => Status::ESME_RINVREPFLAG,
            0x00000055 => Status::ESME_RINVNUMMSGS,
            0x00000058 => Status::ESME_RTHROTTLED,
            0x00000061 => Status::ESME_RINVSCHED,
            0x00000062 => Status::ESME_RINVEXPIRY,
            0x00000063 => Status::ESME_RINVDFTMSGID,
            0x00000064 => Status::ESME_RX_T_APPN,
            0x00000065 => Status::ESME_RX_P_APPN,
            0x00000066 => Status::ESME_RX_R_APPN,
            0x00000067 => Status::ESME_RQUERYFAIL,
            0x000000C0 => Status::ESME_RINVOPTPARSTREAM,
            0x000000C1 => Status::ESME_ROPTPARNOTALLWD,
            0x000000C2 => Status::ESME_RINVPARLEN,
            0x000000C3 => Status::ESME_RMISSINGOPTPARAM,
            0x000000C4 => Status::ESME_RINVOPTPARAMVAL,
            x => Status::Reserved(x),
        }
    }

    /// What decoding makes of the bytes `s`: the value and the bytes left over.
    pub open spec fn parse(s: Seq<u8>) -> Result<(Status, Seq<u8>), CodecError> {
        match parse_u32(s) {
            Ok((u, tail)) => Ok((Self::spec_from_code(u), tail)),
            Err(e) => Err(e),
        }
    }

    /// Reads one value. On failure nothing is consumed.
    pub fn decode(decoder: &mut Decoder<'_>) -> (r: Result<Status, CodecError>)
        ensures
            match Self::parse(old(decoder)@) {
                Ok((v, tail)) => r == Ok::<Status, CodecError>(v) && final(decoder)@ == tail,
                Err(e) => r == Err::<Status, CodecError>(e) && final(decoder)@ == old(decoder)@,
            },
    {
        let u = decoder.read_u32()?;
        Ok(Self::from_code(u))
    }
}

impl Encode for Status {
    open spec fn wire(&self) -> Seq<u8> {
        be32(self.spec_code())
    }

    open spec fn encodable(&self) -> bool {
        true
    }

    fn encode(&self, encoder: &mut Encoder) -> (r: Result<(), CodecError>) {
        encoder.write_u32(self.code());
        Ok(())
    }
}

/// Every status code of the table survives the trip over the wire: encoding it and
/// decoding the bytes, whatever follows them, gives the same variant back.
pub proof fn lemma_status_known_round_trip(x: Status, tail: Seq<u8>)
    requires
        !(x is Reserved),
    ensures
        Status::spec_from_code(x.spec_code()) == x,
        Status::parse(x.wire() + tail) == Ok::<(Status, Seq<u8>), CodecError>((x, tail)),
{
    lemma_be32_round_trip(x.spec_code(), tail);
}

/// A code that the table does not list passes through unchanged: the fallback
/// variant around it encodes to the code itself, and decoding those bytes gives
/// the fallback variant around the same code.
pub proof fn lemma_status_passthrough(u: u32, tail: Seq<u8>)
    requires
        !Status::known(u),
    ensures
        Status::Reserved(u).spec_code() == u,
        Status::spec_from_code(u) == Status::Reserved(u),
        Status::parse(Status::Reserved(u).wire() + tail) == Ok::<(Status, Seq<u8>), CodecError>(
            (Status::Reserved(u), tail),
        ),
{
    lemma_be32_round_trip(u, tail);
}

/// No code is lost: the variant that a code decodes to encodes to that code.
pub proof fn lemma_status_code_kept(u: u32)
    ensures
        Status::spec_from_code(u).spec_code() == u,
{
}

} // verus!
