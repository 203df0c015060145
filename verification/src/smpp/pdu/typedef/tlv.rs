//! Optional parameters: a 16-bit tag, a 16-bit length and that many octets of
//! value. They come last in a body, any number of them, and a body's decoder
//! takes them off the remaining bytes until the bytes no longer read as one.

use crate::smpp::pdu::wire::{
    be16, lemma_be16_round_trip, parse_bytes, parse_u16, rest, value, CodecError, Decoder,
    Encode, Encoder,
};
use vstd::prelude::*;

verus! {

/// The tag of an optional parameter.
#[derive(Clone, Copy, Debug, PartialEq, Eq, Structural)]
pub enum Tag {
    /// `dest_addr_subunit`, tag `0x0005`.
    DestAddrSubunit,
    /// `dest_network_type`, tag `0x0006`.
    DestNetworkType,
    /// `dest_bearer_type`, tag `0x0007`.
    DestBearerType,
    /// `dest_telematics_id`, tag `0x0008`.
    DestTelematicsId,
    /// `source_addr_subunit`, tag `0x000D`.
    SourceAddrSubunit,
    /// `source_network_type`, tag `0x000E`.
    SourceNetworkType,
    /// `source_bearer_type`, tag `0x000F`.
    SourceBearerType,
    /// `source_telematics_id`, tag `0x0010`.
    SourceTelematicsId,
    /// `qos_time_to_live`, tag `0x0017`.
    QosTimeToLive,
    /// `payload_type`, tag `0x0019`.
    PayloadType,
    /// `additional_status_info_text`, tag `0x001D`.
    AdditionalStatusInfoText,
    /// `receipted_message_id`, tag `0x001E`.
    ReceiptedMessageId,
    /// `ms_msg_wait_facilities`, tag `0x0030`.
    MsMsgWaitFacilities,
    /// `privacy_indicator`, tag `0x0201`.
    PrivacyIndicator,
    /// `source_subaddress`, tag `0x0202`.
    SourceSubaddress,
    /// `dest_subaddress`, tag `0x0203`.
    DestSubaddress,
    /// `user_message_reference`, tag `0x0204`.
    UserMessageReference,
    /// `user_response_code`, tag `0x0205`.
    UserResponseCode,
    /// `source_port`, tag `0x020A`.
    SourcePort,
    /// `dest_port`, tag `0x020B`.
    DestPort,
    /// `sar_msg_ref_num`, tag `0x020C`.
    SarMsgRefNum,
    /// `language_indicator`, tag `0x020D`.
    LanguageIndicator,
    /// `sar_total_segments`, tag `0x020E`.
    SarTotalSegments,
    /// `sar_segment_seqnum`, tag `0x020F`.
    SarSegmentSeqnum,
    /// `sc_interface_version`, tag `0x0210`.
    ScInterfaceVersion,
    /// `callback_num_pres_ind`, tag `0x0302`.
    CallbackNumPresInd,
    /// `callback_num_atag`, tag `0x0303`.
    CallbackNumAtag,
    /// `number_of_messages`, tag `0x0304`.
    NumberOfMessages,
    /// `callback_num`, tag `0x0381`.
    CallbackNum,
    /// `dpf_result`, tag `0x0420`.
    DpfResult,
    /// `set_dpf`, tag `0x0421`.
    SetDpf,
    /// `ms_availability_status`, tag `0x0422`.
    MsAvailabilityStatus,
    /// `network_error_code`, tag `0x0423`.
    NetworkErrorCode,
    /// `message_payload`, tag `0x0424`.
    MessagePayload,
    /// `delivery_failure_reason`, tag `0x0425`.
    DeliveryFailureReason,
    /// `more_messages_to_send`, tag `0x0426`.
    MoreMessagesToSend,
    /// `message_state`, tag `0x0427`.
    MessageState,
    /// `ussd_service_op`, tag `0x0501`.
    UssdServiceOp,
    /// `display_time`, tag `0x1201`.
    DisplayTime,
    /// `sms_signal`, tag `0x1203`.
    SmsSignal,
    /// `ms_validity`, tag `0x1204`.
    MsValidity,
    /// `alert_on_message_delivery`, tag `0x130C`.
    AlertOnMessageDelivery,
    /// `its_reply_type`, tag `0x1380`.
    ItsReplyType,
    /// `its_session_info`, tag `0x1383`.
    ItsSessionInfo,
    /// Any code outside the table, kept as it came.
    UnknownTag(u16),
}

impl Tag {
    /// The code of each variant; the fallback variant gives the code it carries.
    pub open spec fn spec_code(&self) -> u16 {
        match *self {
            Tag::DestAddrSubunit => 0x0005,
            Tag::DestNetworkType => 0x0006,
            Tag::DestBearerType => 0x0007,
            Tag::DestTelematicsId => 0x0008,
            Tag::SourceAddrSubunit => 0x000D,
            Tag::SourceNetworkType => 0x000E,
            Tag::SourceBearerType => 0x000F,
            Tag::SourceTelematicsId => 0x0010,
            Tag::QosTimeToLive => 0x0017,
            Tag::PayloadType => 0x0019,
            Tag::AdditionalStatusInfoText => 0x001D,
            Tag::ReceiptedMessageId => 0x001E,
            Tag::MsMsgWaitFacilities => 0x0030,
            Tag::PrivacyIndicator => 0x0201,
            Tag::SourceSubaddress => 0x0202,
            Tag::DestSubaddress => 0x0203,
            Tag::UserMessageReference => 0x0204,
            Tag::UserResponseCode => 0x0205,
            Tag::SourcePort => 0x020A,
            Tag::DestPort => 0x020B,
            Tag::SarMsgRefNum => 0x020C,
            Tag::LanguageIndicator => 0x020D,
            Tag::SarTotalSegments => 0x020E,
            Tag::SarSegmentSeqnum => 0x020F,
            Tag::ScInterfaceVersion => 0x0210,
            Tag::CallbackNumPresInd => 0x0302,
            Tag::CallbackNumAtag => 0x0303,
            Tag::NumberOfMessages => 0x0304,
            Tag::CallbackNum => 0x0381,
            Tag::DpfResult => 0x0420,
            Tag::SetDpf => 0x0421,
            Tag::MsAvailabilityStatus => 0x0422,
            Tag::NetworkErrorCode => 0x0423,
            Tag::MessagePayload => 0x0424,
            Tag::DeliveryFailureReason => 0x0425,
            Tag::MoreMessagesToSend => 0x0426,
            Tag::MessageState => 0x0427,
            Tag::UssdServiceOp => 0x0501,
            Tag::DisplayTime => 0x1201,
            Tag::SmsSignal => 0x1203,
            Tag::MsValidity => 0x1204,
            Tag::AlertOnMessageDelivery => 0x130C,
            Tag::ItsReplyType => 0x1380,
            Tag::ItsSessionInfo => 0x1383,
            Tag::UnknownTag(x) => x,
        }
    }

    /// The variant of each code: the one the table lists for it, else the fallback
    /// variant around the code itself. No code is rejected.
    pub open spec fn spec_from_code(u: u16) -> Tag {
        match u {
            0x0005 => Tag::DestAddrSubunit,
            0x0006 => Tag::DestNetworkType,
            0x0007 => Tag::DestBearerType,
            0x0008 => Tag::DestTelematicsId,
            0x000D => Tag::SourceAddrSubunit,
            0x000E => Tag::SourceNetworkType,
            0x000F => Tag::SourceBearerType,
            0x0010 => Tag::SourceTelematicsId,
            0x0017 => Tag::QosTimeToLive,
            0x0019 => Tag::PayloadType,
            0x001D => Tag::AdditionalStatusInfoText,
            0x001E => Tag::ReceiptedMessageId,
            0x0030 => Tag::MsMsgWaitFacilities,
            0x0201 => Tag::PrivacyIndicator,
            0x0202 => Tag::SourceSubaddress,
            0x0203 => Tag::DestSubaddress,
            0x0204 => Tag::UserMessageReference,
            0x0205 => Tag::UserResponseCode,
            0x020A => Tag::SourcePort,
            0x020B => Tag::DestPort,
            0x020C => Tag::SarMsgRefNum,
            0x020D => Tag::LanguageIndicator,
            0x020E => Tag::SarTotalSegments,
            0x020F => Tag::SarSegmentSeqnum,
            0x0210 => Tag::ScInterfaceVersion,
            0x0302 => Tag::CallbackNumPresInd,
            0x0303 => Tag::CallbackNumAtag,
            0x0304 => Tag::NumberOfMessages,
            0x0381 => Tag::CallbackNum,
            0x0420 => Tag::DpfResult,
            0x0421 => Tag::SetDpf,
            0x0422 => Tag::MsAvailabilityStatus,
            0x0423 => Tag::NetworkErrorCode,
            0x0424 => Tag::MessagePayload,
            0x0425 => Tag::DeliveryFailureReason,
            0x0426 => Tag::MoreMessagesToSend,
            0x0427 => Tag::MessageState,
            0x0501 => Tag::UssdServiceOp,
            0x1201 => Tag::DisplayTime,
            0x1203 => Tag::SmsSignal,
            0x1204 => Tag::MsValidity,
            0x130C => Tag::AlertOnMessageDelivery,
            0x1380 => Tag::ItsReplyType,
            0x1383 => Tag::ItsSessionInfo,
            x => Tag::UnknownTag(x),
        }
    }

    /// Whether the table lists `u`.
    pub open spec fn known(u: u16) -> bool {
        !(Self::spec_from_code(u) is UnknownTag)
    }

    /// The code that stands for this value on the wire.
    #[verifier::when_used_as_spec(spec_code)]
    pub fn code(&self) -> (u: u16)
        ensures
            u == self.spec_code(),
    {
        match self {
            Tag::DestAddrSubunit => 0x0005,
            Tag::DestNetworkType => 0x0006,
            Tag::DestBearerType => 0x0007,
            Tag::DestTelematicsId => 0x0008,
            Tag::SourceAddrSubunit => 0x000D,
            Tag::SourceNetworkType => 0x000E,
            Tag::SourceBearerType => 0x000F,
            Tag::SourceTelematicsId => 0x0010,
            Tag::QosTimeToLive => 0x0017,
            Tag::PayloadType => 0x0019,
            Tag::AdditionalStatusInfoText => 0x001D,
            Tag::ReceiptedMessageId => 0x001E,
            Tag::MsMsgWaitFacilities => 0x0030,
            Tag::PrivacyIndicator => 0x0201,
            Tag::SourceSubaddress => 0x0202,
            Tag::DestSubaddress => 0x0203,
            Tag::UserMessageReference => 0x0204,
            Tag::UserResponseCode => 0x0205,
            Tag::SourcePort => 0x020A,
            Tag::DestPort => 0x020B,
            Tag::SarMsgRefNum => 0x020C,
            Tag::LanguageIndicator => 0x020D,
            Tag::SarTotalSegments => 0x020E,
            Tag::SarSegmentSeqnum => 0x020F,
            Tag::ScInterfaceVersion => 0x0210,
            Tag::CallbackNumPresInd => 0x0302,
            Tag::CallbackNumAtag => 0x0303,
            Tag::NumberOfMessages => 0x0304,
            Tag::CallbackNum => 0x0381,
            Tag::DpfResult => 0x0420,
            Tag::SetDpf => 0x0421,
            Tag::MsAvailabilityStatus => 0x0422,
            Tag::NetworkErrorCode => 0x0423,
            Tag::MessagePayload => 0x0424,
            Tag::DeliveryFailureReason => 0x0425,
            Tag::MoreMessagesToSend => 0x0426,
            Tag::MessageState => 0x0427,
            Tag::UssdServiceOp => 0x0501,
            Tag::DisplayTime => 0x1201,
            Tag::SmsSignal => 0x1203,
            Tag::MsValidity => 0x1204,
            Tag::AlertOnMessageDelivery => 0x130C,
            Tag::ItsReplyType => 0x1380,
            Tag::ItsSessionInfo => 0x1383,
            Tag::UnknownTag(x) => *x,
        }
    }

    /// The value that `u` stands for.
    #[verifier::when_used_as_spec(spec_from_code)]
    pub fn from_code(u: u16) -> (r: Tag)
        ensures
            r == Self::spec_from_code(u),
    {
        match u {
            0x0005 => Tag::DestAddrSubunit,
            0x0006 => Tag::DestNetworkType,
            0x0007 => Tag::DestBearerType,
            0x0008 => Tag::DestTelematicsId,
            0x000D => Tag::SourceAddrSubunit,
            0x000E => Tag::SourceNetworkType,
            0x000F => Tag::SourceBearerType,
            0x0010 => Tag::SourceTelematicsId,
            0x0017 => Tag::QosTimeToLive,
            0x0019 => Tag::PayloadType,
            0x001D => Tag::AdditionalStatusInfoText,
            0x001E => Tag::ReceiptedMessageId,
            0x0030 => Tag::MsMsgWaitFacilities,
            0x0201 => Tag::PrivacyIndicator,
            0x0202 => Tag::SourceSubaddress,
            0x0203 => Tag::DestSubaddress,
            0x0204 => Tag::UserMessageReference,
            0x0205 => Tag::UserResponseCode,
            0x020A => Tag::SourcePort,
            0x020B => Tag::DestPort,
            0x020C => Tag::SarMsgRefNum,
            0x020D => Tag::LanguageIndicator,
            0x020E => Tag::SarTotalSegments,
            0x020F => Tag::SarSegmentSeqnum,
            0x0210 => Tag::ScInterfaceVersion,
            0x0302 => Tag::CallbackNumPresInd,
            0x0303 => Tag::CallbackNumAtag,
            0x0304 => Tag::NumberOfMessages,
            0x0381 => Tag::CallbackNum,
            0x0420 => Tag::DpfResult,
            0x0421 => Tag::SetDpf,
            0x0422 => Tag::MsAvailabilityStatus,
            0x0423 => Tag::NetworkErrorCode,
            0x0424 => Tag::MessagePayload,
            0x0425 => Tag::DeliveryFailureReason,
            0x0426 => Tag::MoreMessagesToSend,
            0x0427 => Tag::MessageState,
            0x0501 => Tag::UssdServiceOp,
            0x1201 => Tag::DisplayTime,
            0x1203 => Tag::SmsSignal,
            0x1204 => Tag::MsValidity,
            0x130C => Tag::AlertOnMessageDelivery,
            0x1380 => Tag::ItsReplyType,
            0x1383 => Tag::ItsSessionInfo,
            x => Tag::UnknownTag(x),
        }
    }

    /// What decoding makes of the bytes `s`: the value and the bytes left over.
    pub open spec fn parse(s: Seq<u8>) -> Result<(Tag, Seq<u8>), CodecError> {
        match parse_u16(s) {
            Ok((u, tail)) => Ok((Self::spec_from_code(u), tail)),
            Err(e) => Err(e),
        }
    }

    /// Reads one value. On failure nothing is consumed.
    pub fn decode(decoder: &mut Decoder<'_>) -> (r: Result<Tag, CodecError>)
        ensures
            match Self::parse(old(decoder)@) {
                Ok((v, tail)) => r == Ok::<Tag, CodecError>(v) && final(decoder)@ == tail,
                Err(e) => r == Err::<Tag, CodecError>(e) && final(decoder)@ == old(decoder)@,
            },
    {
        let u = decoder.read_u16()?;
        Ok(Self::from_code(u))
    }
}

impl Encode for Tag {
    open spec fn wire(&self) -> Seq<u8> {
        be16(self.spec_code())
    }

    open spec fn encodable(&self) -> bool {
        true
    }

    fn encode(&self, encoder: &mut Encoder) -> (r: Result<(), CodecError>) {
        encoder.write_u16(self.code());
        Ok(())
    }
}

/// Every tag of the table survives the trip over the wire: encoding it and
/// decoding the bytes, whatever follows them, gives the same variant back.
pub proof fn lemma_tag_known_round_trip(x: Tag, tail: Seq<u8>)
    requires
        !(x is UnknownTag),
    ensures
        Tag::spec_from_code(x.spec_code()) == x,
        Tag::parse(x.wire() + tail) == Ok::<(Tag, Seq<u8>), CodecError>((x, tail)),
{
    lemma_be16_round_trip(x.spec_code(), tail);
}

/// A code that the table does not list passes through unchanged: the fallback
/// variant around it encodes to the code itself, and decoding those bytes gives
/// the fallback variant around the same code.
pub proof fn lemma_tag_passthrough(u: u16, tail: Seq<u8>)
    requires
        !Tag::known(u),
    ensures
        Tag::UnknownTag(u).spec_code() == u,
        Tag::spec_from_code(u) == Tag::UnknownTag(u),
        Tag::parse(Tag::UnknownTag(u).wire() + tail) == Ok::<(Tag, Seq<u8>), CodecError>(
            (Tag::UnknownTag(u), tail),
        ),
{
    lemma_be16_round_trip(u, tail);
}

/// No code is lost: the variant that a code decodes to encodes to that code.
pub proof fn lemma_tag_code_kept(u: u16)
    ensures
        Tag::spec_from_code(u).spec_code() == u,
{
}

/// An optional parameter.
#[derive(Clone, Debug, PartialEq, Eq)]
pub struct TLV {
    /// What the parameter is.
    pub tag: Tag,
    /// The number of octets of `val`, as stated on the wire.
    pub len: u16,
    /// The value, `len` octets.
    pub val: Vec<u8>,
}

/// An optional parameter as a mathematical value.
pub struct TlvView {
    pub tag: Tag,
    pub len: u16,
    pub val: Seq<u8>,
}

impl View for TLV {
    type V = TlvView;

    open spec fn view(&self) -> TlvView {
        TlvView { tag: self.tag, len: self.len, val: self.val@ }
    }
}

impl TlvView {
    /// A parameter can be written only if its stated length is the length of
    /// its value.
    pub open spec fn encodable(self) -> bool {
        self.val.len() == self.len
    }

    /// Tag, length, then the value as it is.
    pub open spec fn wire(self) -> Seq<u8> {
        be16(self.tag.spec_code()) + be16(self.len) + self.val
    }

    /// One parameter from the front of `s`: the tag, the length, and exactly
    /// that many octets. The first field that cannot be read gives the error.
    pub open spec fn parse(s: Seq<u8>) -> Result<(TlvView, Seq<u8>), CodecError> {
        let tag = Tag::parse(s);
        let len = parse_u16(rest(tag));
        let val = parse_bytes(rest(len), value(len) as nat);
        if tag is Err {
            Err(tag->Err_0)
        } else if len is Err {
            Err(len->Err_0)
        } else if val is Err {
            Err(val->Err_0)
        } else {
            Ok((TlvView { tag: value(tag), len: value(len), val: value(val) }, rest(val)))
        }
    }

    /// The parameters at the front of `s`, in order, and the bytes from the
    /// first position that does not read as a parameter. Running out of bytes
    /// and a length that overshoots end the list alike; neither is an error.
    pub open spec fn parse_list(s: Seq<u8>) -> (Seq<TlvView>, Seq<u8>)
        decreases s.len(),
    {
        match Self::parse(s) {
            Ok((first, tail)) => {
                proof {
                    lemma_tlv_parse_consumes(s);
                }
                let (others, left) = Self::parse_list(tail);
                (seq![first] + others, left)
            },
            Err(_) => (Seq::empty(), s),
        }
    }

    /// The parameter at the front of `s`, if the bytes read as one, and the
    /// bytes after it; else none, and all of `s`.
    pub open spec fn parse_optional(s: Seq<u8>) -> (Option<TlvView>, Seq<u8>) {
        match Self::parse(s) {
            Ok((t, tail)) => (Some(t), tail),
            Err(_) => (None, s),
        }
    }

    /// Whether the parameter, if there is one, can be written.
    pub open spec fn optional_encodable(o: Option<TlvView>) -> bool {
        o matches Some(t) ==> t.encodable()
    }

    /// The wire form of the parameter, if there is one; else no bytes.
    pub open spec fn optional_wire(o: Option<TlvView>) -> Seq<u8> {
        match o {
            Some(t) => t.wire(),
            None => Seq::empty(),
        }
    }

    /// Whether every parameter of `list` can be written.
    pub open spec fn list_encodable(list: Seq<TlvView>) -> bool {
        forall|i: int| 0 <= i < list.len() ==> (#[trigger] list[i]).encodable()
    }

    /// The wire forms of the parameters of `list`, one after the other.
    pub open spec fn list_wire(list: Seq<TlvView>) -> Seq<u8>
        decreases list.len(),
    {
        if list.len() == 0 {
            Seq::empty()
        } else {
            list[0].wire() + Self::list_wire(list.skip(1))
        }
    }
}

/// Whether a tag decodes from its own code to itself: every tag does, but the
/// fallback variant around a code of the table.
pub open spec fn tag_canonical(t: Tag) -> bool {
    t is UnknownTag ==> !Tag::known(t->0)
}

/// Whether every tag of `list` is canonical.
pub open spec fn tags_canonical(list: Seq<TlvView>) -> bool {
    forall|i: int| 0 <= i < list.len() ==> tag_canonical((#[trigger] list[i]).tag)
}

/// The mathematical value of a parameter that may be absent.
pub open spec fn tlv_view_of(o: Option<TLV>) -> Option<TlvView> {
    match o {
        Some(t) => Some(t@),
        None => None,
    }
}

/// The mathematical values of a list of parameters.
pub open spec fn tlv_views(list: Seq<TLV>) -> Seq<TlvView> {
    list.map_values(|t: TLV| t@)
}

/// A parameter that parses takes at least four bytes off the front, and what
/// it took is its own wire form.
pub proof fn lemma_tlv_parse_consumes(s: Seq<u8>)
    requires
        TlvView::parse(s) is Ok,
    ensures
        TlvView::parse(s)->Ok_0.0.encodable(),
        s == TlvView::parse(s)->Ok_0.0.wire() + TlvView::parse(s)->Ok_0.1,
        TlvView::parse(s)->Ok_0.1.len() + 4 <= s.len(),
{
    let v = TlvView::parse(s)->Ok_0.0;
    let tail = TlvView::parse(s)->Ok_0.1;
    lemma_be16_parse_inverse(s);
    lemma_be16_parse_inverse(s.skip(2));
    assert(s =~= v.wire() + tail);
}

/// The first two bytes of `s` are the octets of the number they spell.
pub proof fn lemma_be16_parse_inverse(s: Seq<u8>)
    requires
        s.len() >= 2,
    ensures
        be16(parse_u16(s)->Ok_0.0) == s.take(2),
{
    let a = s[0];
    let b = s[1];
    let v = (a * 0x100 + b) as u16;
    assert(v / 0x100 == a && v % 0x100 == b) by (nonlinear_arith)
        requires
            v == a * 0x100 + b,
            0 <= b < 0x100,
            0 <= a < 0x100,
    ;
    assert(be16(v) =~= s.take(2));
}

/// A parameter whose stated length fits its value, and whose tag is not the
/// fallback variant around a code of the table, survives the trip over the
/// wire, whatever bytes follow it.
pub proof fn lemma_tlv_round_trip(v: TlvView, tail: Seq<u8>)
    requires
        v.encodable(),
        tag_canonical(v.tag),
    ensures
        TlvView::parse(v.wire() + tail) == Ok::<(TlvView, Seq<u8>), CodecError>((v, tail)),
{
    let s = v.wire() + tail;
    let a = be16(v.len) + v.val + tail;
    assert(s =~= be16(v.tag.spec_code()) + a);
    lemma_be16_round_trip(v.tag.spec_code(), a);
    assert(a =~= be16(v.len) + (v.val + tail));
    lemma_be16_round_trip(v.len, v.val + tail);
    assert((v.val + tail).take(v.len as int) =~= v.val);
    assert((v.val + tail).skip(v.len as int) =~= tail);
}

/// The wire form of a list with one more parameter at its end is the wire
/// form of the list and then that of the parameter.
pub proof fn lemma_list_wire_push(list: Seq<TlvView>, last: TlvView)
    ensures
        TlvView::list_wire(list.push(last)) == TlvView::list_wire(list) + last.wire(),
    decreases list.len(),
{
    let longer = list.push(last);
    if list.len() == 0 {
        assert(longer.skip(1) =~= Seq::<TlvView>::empty());
        assert(TlvView::list_wire(longer.skip(1)) =~= Seq::<u8>::empty());
        assert(TlvView::list_wire(longer) =~= last.wire());
        assert(TlvView::list_wire(list) + last.wire() =~= last.wire());
    } else {
        assert(longer.skip(1) =~= list.skip(1).push(last));
        lemma_list_wire_push(list.skip(1), last);
        assert(TlvView::list_wire(longer) =~= TlvView::list_wire(list) + last.wire());
    }
}

/// A list of parameters survives the trip over the wire, in its order, if each
/// of them does and the bytes that follow do not themselves read as a
/// parameter.
pub proof fn lemma_tlv_list_round_trip(list: Seq<TlvView>, tail: Seq<u8>)
    requires
        TlvView::list_encodable(list),
        tags_canonical(list),
        TlvView::parse(tail) is Err,
    ensures
        TlvView::parse_list(TlvView::list_wire(list) + tail) == (list, tail),
    decreases list.len(),
{
    if list.len() == 0 {
        assert(TlvView::list_wire(list) + tail =~= tail);
    } else {
        let others = list.skip(1);
        let after = TlvView::list_wire(others) + tail;
        assert(TlvView::list_wire(list) + tail =~= list[0].wire() + after);
        assert(list[0].encodable());
        lemma_tlv_round_trip(list[0], after);
        assert forall|i: int| 0 <= i < others.len() implies (#[trigger] others[i]).encodable()
            && tag_canonical(others[i].tag) by {
            assert(others[i] == list[i + 1]);
        }
        lemma_tlv_list_round_trip(others, tail);
        assert(seq![list[0]] + others =~= list);
    }
}

/// A parameter that may be absent survives the trip over the wire if it does
/// when it is there and the bytes that follow do not themselves read as a
/// parameter.
pub proof fn lemma_tlv_optional_round_trip(o: Option<TlvView>, tail: Seq<u8>)
    requires
        TlvView::optional_encodable(o),
        o matches Some(t) ==> tag_canonical(t.tag),
        TlvView::parse(tail) is Err,
    ensures
        TlvView::parse_optional(TlvView::optional_wire(o) + tail) == (o, tail),
{
    match o {
        Some(t) => {
            lemma_tlv_round_trip(t, tail);
        },
        None => {
            assert(TlvView::optional_wire(o) + tail =~= tail);
        },
    }
}

impl TLV {
    /// Reads one parameter. On failure nothing is consumed.
    pub fn decode(decoder: &mut Decoder<'_>) -> (r: Result<TLV, CodecError>)
        ensures
            match TlvView::parse(old(decoder)@) {
                Ok((v, tail)) => r is Ok && r->Ok_0@ == v && final(decoder)@ == tail,
                Err(e) => r == Err::<TLV, CodecError>(e) && final(decoder)@ == old(decoder)@,
            },
    {
        let mut d = *decoder;
        let tag = Tag::decode(&mut d)?;
        let len = d.read_u16()?;
        let val = d.read_bytes(len as usize)?;
        *decoder = d;
        Ok(TLV { tag, len, val })
    }

    /// Reads parameters for as long as the remaining bytes read as one. The
    /// bytes at which that stops being so, if any are left, stay unread; this
    /// is never an error.
    pub fn decode_list(decoder: &mut Decoder<'_>) -> (list: Vec<TLV>)
        ensures
            tlv_views(list@) == TlvView::parse_list(old(decoder)@).0,
            final(decoder)@ == TlvView::parse_list(old(decoder)@).1,
    {
        let mut list: Vec<TLV> = Vec::new();
        assert(tlv_views(list@) =~= Seq::<TlvView>::empty());
        loop
            invariant
                TlvView::parse_list(old(decoder)@) == (
                    tlv_views(list@) + TlvView::parse_list(decoder@).0,
                    TlvView::parse_list(decoder@).1,
                ),
            ensures
                tlv_views(list@) == TlvView::parse_list(old(decoder)@).0,
                decoder@ == TlvView::parse_list(old(decoder)@).1,
            decreases decoder@.len(),
        {
            let ghost before = decoder@;
            let ghost views = tlv_views(list@);
            match TLV::decode(decoder) {
                Ok(t) => {
                    proof {
                        lemma_tlv_parse_consumes(before);
                    }
                    list.push(t);
                    assert(tlv_views(list@) =~= views.push(t@));
                    assert(views + (seq![t@] + TlvView::parse_list(decoder@).0) =~= views.push(t@)
                        + TlvView::parse_list(decoder@).0);
                },
                Err(_) => {
                    assert(views + Seq::<TlvView>::empty() =~= views);
                    break ;
                },
            }
        }
        list
    }

    /// Whether every parameter of `list` has a stated length that fits its value.
    pub fn list_is_encodable(list: &Vec<TLV>) -> (b: bool)
        ensures
            b == TlvView::list_encodable(tlv_views(list@)),
    {
        let mut i: usize = 0;
        while i < list.len()
            invariant
                i <= list@.len(),
                forall|k: int| 0 <= k < i ==> (#[trigger] tlv_views(list@)[k]).encodable(),
            decreases list@.len() - i,
        {
            if list[i].val.len() != list[i].len as usize {
                assert(!tlv_views(list@)[i as int].encodable());
                return false;
            }
            i = i + 1;
        }
        true
    }

    /// Writes the parameters of `list` one after the other, or nothing at all
    /// if one of them cannot be written.
    pub fn encode_list(list: &Vec<TLV>, encoder: &mut Encoder) -> (r: Result<(), CodecError>)
        ensures
            TlvView::list_encodable(tlv_views(list@)) ==> r is Ok && final(encoder)@ == old(
                encoder,
            )@ + TlvView::list_wire(tlv_views(list@)),
            !TlvView::list_encodable(tlv_views(list@)) ==> r == Err::<(), CodecError>(
                CodecError::InvalidArgument,
            ) && final(encoder)@ == old(encoder)@,
    {
        if !Self::list_is_encodable(list) {
            return Err(CodecError::InvalidArgument);
        }
        let ghost views = tlv_views(list@);
        let mut i: usize = 0;
        assert(views.take(0) =~= Seq::<TlvView>::empty());
        assert(old(encoder)@ + Seq::<u8>::empty() =~= old(encoder)@);
        while i < list.len()
            invariant
                i <= list@.len(),
                views == tlv_views(list@),
                TlvView::list_encodable(views),
                encoder@ == old(encoder)@ + TlvView::list_wire(views.take(i as int)),
            decreases list@.len() - i,
        {
            let ghost before = encoder@;
            assert(views[i as int].encodable());
            let _ = list[i].encode(encoder);
            i = i + 1;
            proof {
                let upto = views.take(i - 1);
                assert(views.take(i as int) =~= upto.push(views[i - 1]));
                lemma_list_wire_push(upto, views[i - 1]);
                assert(encoder@ =~= old(encoder)@ + TlvView::list_wire(views.take(i as int)));
            }
        }
        assert(views.take(i as int) =~= views);
        Ok(())
    }
}

impl Encode for TLV {
    open spec fn wire(&self) -> Seq<u8> {
        self@.wire()
    }

    open spec fn encodable(&self) -> bool {
        self@.encodable()
    }

    fn encode(&self, encoder: &mut Encoder) -> (r: Result<(), CodecError>) {
        if self.val.len() != self.len as usize {
            return Err(CodecError::InvalidArgument);
        }
        let _ = self.tag.encode(encoder);
        encoder.write_u16(self.len);
        encoder.write_bytes(self.val.as_slice());
        assert(encoder@ =~= old(encoder)@ + self@.wire());
        Ok(())
    }
}

} // verus!
