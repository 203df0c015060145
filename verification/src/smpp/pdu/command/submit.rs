//! Submission: an ESME hands a short message to the message centre.

use crate::smpp::pdu::typedef::c_octet::{lemma_c_octet_round_trip, no_nul, COctet};
use crate::smpp::pdu::typedef::tlv::{
    lemma_tlv_list_round_trip, tags_canonical, tlv_views, TlvView, TLV,
};
use crate::smpp::pdu::wire::{
    lemma_bytes_round_trip, lemma_concat_assoc, lemma_u8_round_trip, parse_bytes, parse_u8, rest,
    value, CodecError, Decoder, Encode, Encoder,
};
use vstd::prelude::*;

verus! {

/// `submit_sm`: a short message for onward delivery.
#[derive(Clone, Debug, PartialEq, Eq)]
pub struct SubmitSm {
    /// The service that the message belongs to.
    pub service_type: COctet,
    /// The type of number of the source address.
    pub source_addr_ton: u8,
    /// The numbering plan of the source address.
    pub source_addr_npi: u8,
    /// The address the message comes from.
    pub source_addr: COctet,
    /// The type of number of the destination address.
    pub dest_addr_ton: u8,
    /// The numbering plan of the destination address.
    pub dest_addr_npi: u8,
    /// The address the message goes to.
    pub destination_addr: COctet,
    /// The mode and type of the message, packed.
    pub esm_class: u8,
    /// The protocol identifier of the network.
    pub protocol_id: u8,
    /// The priority of the message.
    pub priority_flag: u8,
    /// When to deliver first, as a time string; empty for at once.
    pub schedule_delivery_time: COctet,
    /// Until when to try, as a time string; empty for the default.
    pub validity_period: COctet,
    /// Which receipts and acknowledgements are asked for.
    pub registered_delivery: u8,
    /// Whether to replace a message already waiting.
    pub replace_if_present_flag: u8,
    /// The character set of the short message.
    pub data_coding: u8,
    /// Which canned message of the message centre to send, or 0.
    pub sm_default_msg_id: u8,
    /// The number of octets of `short_message`, as stated on the wire.
    pub sm_length: u8,
    /// The user data, `sm_length` octets.
    pub short_message: Vec<u8>,
    /// The optional parameters, in the order of the wire.
    pub msg_submission_tlv: Vec<TLV>,
}

/// [`SubmitSm`] as a mathematical value.
pub struct SubmitSmView {
    pub service_type: Seq<u8>,
    pub source_addr_ton: u8,
    pub source_addr_npi: u8,
    pub source_addr: Seq<u8>,
    pub dest_addr_ton: u8,
    pub dest_addr_npi: u8,
    pub destination_addr: Seq<u8>,
    pub esm_class: u8,
    pub protocol_id: u8,
    pub priority_flag: u8,
    pub schedule_delivery_time: Seq<u8>,
    pub validity_period: Seq<u8>,
    pub registered_delivery: u8,
    pub replace_if_present_flag: u8,
    pub data_coding: u8,
    pub sm_default_msg_id: u8,
    pub sm_length: u8,
    pub short_message: Seq<u8>,
    pub msg_submission_tlv: Seq<TlvView>,
}

impl View for SubmitSm {
    type V = SubmitSmView;

    open spec fn view(&self) -> SubmitSmView {
        SubmitSmView {
            service_type: self.service_type@,
            source_addr_ton: self.source_addr_ton,
            source_addr_npi: self.source_addr_npi,
            source_addr: self.source_addr@,
            dest_addr_ton: self.dest_addr_ton,
            dest_addr_npi: self.dest_addr_npi,
            destination_addr: self.destination_addr@,
            esm_class: self.esm_class,
            protocol_id: self.protocol_id,
            priority_flag: self.priority_flag,
            schedule_delivery_time: self.schedule_delivery_time@,
            validity_period: self.validity_period@,
            registered_delivery: self.registered_delivery,
            replace_if_present_flag: self.replace_if_present_flag,
            data_coding: self.data_coding,
            sm_default_msg_id: self.sm_default_msg_id,
            sm_length: self.sm_length,
            short_message: self.short_message@,
            msg_submission_tlv: tlv_views(self.msg_submission_tlv@),
        }
    }
}

impl SubmitSmView {
    /// Whether the body can be written: every stated length is the length of
    /// what it counts.
    pub open spec fn encodable(self) -> bool {
        &&& self.short_message.len() == self.sm_length
        &&& TlvView::list_encodable(self.msg_submission_tlv)
    }

    /// The fields in the order of the wire, each in its own wire form.
    pub open spec fn wire(self) -> Seq<u8> {
        COctet::wire_of(self.service_type)
            + seq![self.source_addr_ton]
            + seq![self.source_addr_npi]
            + COctet::wire_of(self.source_addr)
            + seq![self.dest_addr_ton]
            + seq![self.dest_addr_npi]
            + COctet::wire_of(self.destination_addr)
            + seq![self.esm_class]
            + seq![self.protocol_id]
            + seq![self.priority_flag]
            + COctet::wire_of(self.schedule_delivery_time)
            + COctet::wire_of(self.validity_period)
            + seq![self.registered_delivery]
            + seq![self.replace_if_present_flag]
            + seq![self.data_coding]
            + seq![self.sm_default_msg_id]
            + seq![self.sm_length]
            + self.short_message
            + TlvView::list_wire(self.msg_submission_tlv)
    }

    /// What decoding makes of the bytes `s`: each field is read from where the
    /// one before it ended, and the first that cannot be read gives the error.
    pub open spec fn parse(s: Seq<u8>) -> Result<(SubmitSmView, Seq<u8>), CodecError> {
        let service_type = COctet::parse(s);
        let source_addr_ton = parse_u8(rest(service_type));
        let source_addr_npi = parse_u8(rest(source_addr_ton));
        let source_addr = COctet::parse(rest(source_addr_npi));
        let dest_addr_ton = parse_u8(rest(source_addr));
        let dest_addr_npi = parse_u8(rest(dest_addr_ton));
        let destination_addr = COctet::parse(rest(dest_addr_npi));
        let esm_class = parse_u8(rest(destination_addr));
        let protocol_id = parse_u8(rest(esm_class));
        let priority_flag = parse_u8(rest(protocol_id));
        let schedule_delivery_time = COctet::parse(rest(priority_flag));
        let validity_period = COctet::parse(rest(schedule_delivery_time));
        let registered_delivery = parse_u8(rest(validity_period));
        let replace_if_present_flag = parse_u8(rest(registered_delivery));
        let data_coding = parse_u8(rest(replace_if_present_flag));
        let sm_default_msg_id = parse_u8(rest(data_coding));
        let sm_length = parse_u8(rest(sm_default_msg_id));
        let short_message = parse_bytes(rest(sm_length), value(sm_length) as nat);
        let msg_submission_tlv = TlvView::parse_list(rest(short_message));
        if service_type is Err {
            Err(service_type->Err_0)
        } else if source_addr_ton is Err {
            Err(source_addr_ton->Err_0)
        } else if source_addr_npi is Err {
            Err(source_addr_npi->Err_0)
        } else if source_addr is Err {
            Err(source_addr->Err_0)
        } else if dest_addr_ton is Err {
            Err(dest_addr_ton->Err_0)
        } else if dest_addr_npi is Err {
            Err(dest_addr_npi->Err_0)
        } else if destination_addr is Err {
            Err(destination_addr->Err_0)
        } else if esm_class is Err {
            Err(esm_class->Err_0)
        } else if protocol_id is Err {
            Err(protocol_id->Err_0)
        } else if priority_flag is Err {
            Err(priority_flag->Err_0)
        } else if schedule_delivery_time is Err {
            Err(schedule_delivery_time->Err_0)
        } else if validity_period is Err {
            Err(validity_period->Err_0)
        } else if registered_delivery is Err {
            Err(registered_delivery->Err_0)
        } else if replace_if_present_flag is Err {
            Err(replace_if_present_flag->Err_0)
        } else if data_coding is Err {
            Err(data_coding->Err_0)
        } else if sm_default_msg_id is Err {
            Err(sm_default_msg_id->Err_0)
        } else if sm_length is Err {
            Err(sm_length->Err_0)
        } else if short_message is Err {
            Err(short_message->Err_0)
        } else {
            Ok(
                (
                    SubmitSmView {
                        service_type: value(service_type),
                        source_addr_ton: value(source_addr_ton),
                        source_addr_npi: value(source_addr_npi),
                        source_addr: value(source_addr),
                        dest_addr_ton: value(dest_addr_ton),
                        dest_addr_npi: value(dest_addr_npi),
                        destination_addr: value(destination_addr),
                        esm_class: value(esm_class),
                        protocol_id: value(protocol_id),
                        priority_flag: value(priority_flag),
                        schedule_delivery_time: value(schedule_delivery_time),
                        validity_period: value(validity_period),
                        registered_delivery: value(registered_delivery),
                        replace_if_present_flag: value(replace_if_present_flag),
                        data_coding: value(data_coding),
                        sm_default_msg_id: value(sm_default_msg_id),
                        sm_length: value(sm_length),
                        short_message: value(short_message),
                        msg_submission_tlv: msg_submission_tlv.0,
                    },
                    msg_submission_tlv.1,
                ),
            )
        }
    }
}

impl SubmitSm {
    /// Reads the body. On failure nothing is consumed.
    pub fn decode(decoder: &mut Decoder<'_>) -> (r: Result<SubmitSm, CodecError>)
        ensures
            match SubmitSmView::parse(old(decoder)@) {
                Ok((v, tail)) => r is Ok && r->Ok_0@ == v && final(decoder)@ == tail,
                Err(e) => r == Err::<SubmitSm, CodecError>(e) && final(decoder)@ == old(decoder)@,
            },
    {
        let mut d = *decoder;
        let service_type = COctet::decode(&mut d)?;
        let source_addr_ton = d.read_u8()?;
        let source_addr_npi = d.read_u8()?;
        let source_addr = COctet::decode(&mut d)?;
        let dest_addr_ton = d.read_u8()?;
        let dest_addr_npi = d.read_u8()?;
        let destination_addr = COctet::decode(&mut d)?;
        let esm_class = d.read_u8()?;
        let protocol_id = d.read_u8()?;
        let priority_flag = d.read_u8()?;
        let schedule_delivery_time = COctet::decode(&mut d)?;
        let validity_period = COctet::decode(&mut d)?;
        let registered_delivery = d.read_u8()?;
        let replace_if_present_flag = d.read_u8()?;
        let data_coding = d.read_u8()?;
        let sm_default_msg_id = d.read_u8()?;
        let sm_length = d.read_u8()?;
        let short_message = d.read_bytes(sm_length as usize)?;
        let msg_submission_tlv = TLV::decode_list(&mut d);
        *decoder = d;
        Ok(SubmitSm { service_type, source_addr_ton, source_addr_npi, source_addr, dest_addr_ton, dest_addr_npi, destination_addr, esm_class, protocol_id, priority_flag, schedule_delivery_time, validity_period, registered_delivery, replace_if_present_flag, data_coding, sm_default_msg_id, sm_length, short_message, msg_submission_tlv })
    }
}

impl Encode for SubmitSm {
    open spec fn wire(&self) -> Seq<u8> {
        self@.wire()
    }

    open spec fn encodable(&self) -> bool {
        self@.encodable()
    }

    fn encode(&self, encoder: &mut Encoder) -> (r: Result<(), CodecError>) {
        if self.short_message.len() != self.sm_length as usize {
            return Err(CodecError::InvalidArgument);
        }
        if !TLV::list_is_encodable(&self.msg_submission_tlv) {
            return Err(CodecError::InvalidArgument);
        }
        let _ = self.service_type.encode(encoder);
        encoder.write_u8(self.source_addr_ton);
        encoder.write_u8(self.source_addr_npi);
        let _ = self.source_addr.encode(encoder);
        encoder.write_u8(self.dest_addr_ton);
        encoder.write_u8(self.dest_addr_npi);
        let _ = self.destination_addr.encode(encoder);
        encoder.write_u8(self.esm_class);
        encoder.write_u8(self.protocol_id);
        encoder.write_u8(self.priority_flag);
        let _ = self.schedule_delivery_time.encode(encoder);
        let _ = self.validity_period.encode(encoder);
        encoder.write_u8(self.registered_delivery);
        encoder.write_u8(self.replace_if_present_flag);
        encoder.write_u8(self.data_coding);
        encoder.write_u8(self.sm_default_msg_id);
        encoder.write_u8(self.sm_length);
        encoder.write_bytes(self.short_message.as_slice());
        let _ = TLV::encode_list(&self.msg_submission_tlv, encoder);
        assert(encoder@ =~= old(encoder)@ + self@.wire());
        Ok(())
    }
}

/// The body survives the trip over the wire, whatever bytes follow it, if
/// it can be written, its strings hold no `0x00`, its tags are canonical and
/// the bytes that follow do not themselves read as a parameter.
#[verifier::rlimit(60)]
pub proof fn lemma_submit_sm_round_trip(v: SubmitSmView, tail: Seq<u8>)
    requires
        v.encodable(),
        no_nul(v.service_type),
        no_nul(v.source_addr),
        no_nul(v.destination_addr),
        no_nul(v.schedule_delivery_time),
        no_nul(v.validity_period),
        tags_canonical(v.msg_submission_tlv),
        TlvView::parse(tail) is Err,
    ensures
        SubmitSmView::parse(v.wire() + tail) == Ok::<(SubmitSmView, Seq<u8>), CodecError>(
            (v, tail),
        ),
{
    let from18 = TlvView::list_wire(v.msg_submission_tlv) + tail;
    let from17 = v.short_message + from18;
    let from16 = seq![v.sm_length] + from17;
    let from15 = seq![v.sm_default_msg_id] + from16;
    let from14 = seq![v.data_coding] + from15;
    let from13 = seq![v.replace_if_present_flag] + from14;
    let from12 = seq![v.registered_delivery] + from13;
    let from11 = COctet::wire_of(v.validity_period) + from12;
    let from10 = COctet::wire_of(v.schedule_delivery_time) + from11;
    let from9 = seq![v.priority_flag] + from10;
    let from8 = seq![v.protocol_id] + from9;
    let from7 = seq![v.esm_class] + from8;
    let from6 = COctet::wire_of(v.destination_addr) + from7;
    let from5 = seq![v.dest_addr_npi] + from6;
    let from4 = seq![v.dest_addr_ton] + from5;
    let from3 = COctet::wire_of(v.source_addr) + from4;
    let from2 = seq![v.source_addr_npi] + from3;
    let from1 = seq![v.source_addr_ton] + from2;
    let upto0 = COctet::wire_of(v.service_type);
    let upto1 = upto0 + seq![v.source_addr_ton];
    let upto2 = upto1 + seq![v.source_addr_npi];
    let upto3 = upto2 + COctet::wire_of(v.source_addr);
    let upto4 = upto3 + seq![v.dest_addr_ton];
    let upto5 = upto4 + seq![v.dest_addr_npi];
    let upto6 = upto5 + COctet::wire_of(v.destination_addr);
    let upto7 = upto6 + seq![v.esm_class];
    let upto8 = upto7 + seq![v.protocol_id];
    let upto9 = upto8 + seq![v.priority_flag];
    let upto10 = upto9 + COctet::wire_of(v.schedule_delivery_time);
    let upto11 = upto10 + COctet::wire_of(v.validity_period);
    let upto12 = upto11 + seq![v.registered_delivery];
    let upto13 = upto12 + seq![v.replace_if_present_flag];
    let upto14 = upto13 + seq![v.data_coding];
    let upto15 = upto14 + seq![v.sm_default_msg_id];
    let upto16 = upto15 + seq![v.sm_length];
    let upto17 = upto16 + v.short_message;
    lemma_concat_assoc(upto17, TlvView::list_wire(v.msg_submission_tlv), tail);
    lemma_concat_assoc(upto16, v.short_message, from18);
    lemma_concat_assoc(upto15, seq![v.sm_length], from17);
    lemma_concat_assoc(upto14, seq![v.sm_default_msg_id], from16);
    lemma_concat_assoc(upto13, seq![v.data_coding], from15);
    lemma_concat_assoc(upto12, seq![v.replace_if_present_flag], from14);
    lemma_concat_assoc(upto11, seq![v.registered_delivery], from13);
    lemma_concat_assoc(upto10, COctet::wire_of(v.validity_period), from12);
    lemma_concat_assoc(upto9, COctet::wire_of(v.schedule_delivery_time), from11);
    lemma_concat_assoc(upto8, seq![v.priority_flag], from10);
    lemma_concat_assoc(upto7, seq![v.protocol_id], from9);
    lemma_concat_assoc(upto6, seq![v.esm_class], from8);
    lemma_concat_assoc(upto5, COctet::wire_of(v.destination_addr), from7);
    lemma_concat_assoc(upto4, seq![v.dest_addr_npi], from6);
    lemma_concat_assoc(upto3, seq![v.dest_addr_ton], from5);
    lemma_concat_assoc(upto2, COctet::wire_of(v.source_addr), from4);
    lemma_concat_assoc(upto1, seq![v.source_addr_npi], from3);
    lemma_concat_assoc(upto0, seq![v.source_addr_ton], from2);
    lemma_c_octet_round_trip(v.service_type, from1);
    lemma_u8_round_trip(v.source_addr_ton, from2);
    lemma_u8_round_trip(v.source_addr_npi, from3);
    lemma_c_octet_round_trip(v.source_addr, from4);
    lemma_u8_round_trip(v.dest_addr_ton, from5);
    lemma_u8_round_trip(v.dest_addr_npi, from6);
    lemma_c_octet_round_trip(v.destination_addr, from7);
    lemma_u8_round_trip(v.esm_class, from8);
    lemma_u8_round_trip(v.protocol_id, from9);
    lemma_u8_round_trip(v.priority_flag, from10);
    lemma_c_octet_round_trip(v.schedule_delivery_time, from11);
    lemma_c_octet_round_trip(v.validity_period, from12);
    lemma_u8_round_trip(v.registered_delivery, from13);
    lemma_u8_round_trip(v.replace_if_present_flag, from14);
    lemma_u8_round_trip(v.data_coding, from15);
    lemma_u8_round_trip(v.sm_default_msg_id, from16);
    lemma_u8_round_trip(v.sm_length, from17);
    lemma_bytes_round_trip(v.short_message, from18);
    lemma_tlv_list_round_trip(v.msg_submission_tlv, tail);
}

/// `submit_sm_resp`: the answer to a `submit_sm`.
#[derive(Clone, Debug, PartialEq, Eq)]
pub struct SubmitSmResp {
    /// The id that the message centre gave the message.
    pub message_id: COctet,
    /// The optional parameters, in the order of the wire.
    pub msg_submission_resp_tlv: Vec<TLV>,
}

/// [`SubmitSmResp`] as a mathematical value.
pub struct SubmitSmRespView {
    pub message_id: Seq<u8>,
    pub msg_submission_resp_tlv: Seq<TlvView>,
}

impl View for SubmitSmResp {
    type V = SubmitSmRespView;

    open spec fn view(&self) -> SubmitSmRespView {
        SubmitSmRespView {
            message_id: self.message_id@,
            msg_submission_resp_tlv: tlv_views(self.msg_submission_resp_tlv@),
        }
    }
}

impl SubmitSmRespView {
    /// Whether the body can be written: every stated length is the length of
    /// what it counts.
    pub open spec fn encodable(self) -> bool {
        &&& TlvView::list_encodable(self.msg_submission_resp_tlv)
    }

    /// The fields in the order of the wire, each in its own wire form.
    pub open spec fn wire(self) -> Seq<u8> {
        COctet::wire_of(self.message_id)
            + TlvView::list_wire(self.msg_submission_resp_tlv)
    }

    /// What decoding makes of the bytes `s`: each field is read from where the
    /// one before it ended, and the first that cannot be read gives the error.
    pub open spec fn parse(s: Seq<u8>) -> Result<(SubmitSmRespView, Seq<u8>), CodecError> {
        let message_id = COctet::parse(s);
        let msg_submission_resp_tlv = TlvView::parse_list(rest(message_id));
        if message_id is Err {
            Err(message_id->Err_0)
        } else {
            Ok(
                (
                    SubmitSmRespView {
                        message_id: value(message_id),
                        msg_submission_resp_tlv: msg_submission_resp_tlv.0,
                    },
                    msg_submission_resp_tlv.1,
                ),
            )
        }
    }
}

impl SubmitSmResp {
    /// Reads the body. On failure nothing is consumed.
    pub fn decode(decoder: &mut Decoder<'_>) -> (r: Result<SubmitSmResp, CodecError>)
        ensures
            match SubmitSmRespView::parse(old(decoder)@) {
                Ok((v, tail)) => r is Ok && r->Ok_0@ == v && final(decoder)@ == tail,
                Err(e) => r == Err::<SubmitSmResp, CodecError>(e) && final(decoder)@ == old(decoder)@,
            },
    {
        let mut d = *decoder;
        let message_id = COctet::decode(&mut d)?;
        let msg_submission_resp_tlv = TLV::decode_list(&mut d);
        *decoder = d;
        Ok(SubmitSmResp { message_id, msg_submission_resp_tlv })
    }
}

impl Encode for SubmitSmResp {
    open spec fn wire(&self) -> Seq<u8> {
        self@.wire()
    }

    open spec fn encodable(&self) -> bool {
        self@.encodable()
    }

    fn encode(&self, encoder: &mut Encoder) -> (r: Result<(), CodecError>) {
        if !TLV::list_is_encodable(&self.msg_submission_resp_tlv) {
            return Err(CodecError::InvalidArgument);
        }
        let _ = self.message_id.encode(encoder);
        let _ = TLV::encode_list(&self.msg_submission_resp_tlv, encoder);
        assert(encoder@ =~= old(encoder)@ + self@.wire());
        Ok(())
    }
}

/// The body survives the trip over the wire, whatever bytes follow it, if
/// it can be written, its strings hold no `0x00`, its tags are canonical and
/// the bytes that follow do not themselves read as a parameter.
pub proof fn lemma_submit_sm_resp_round_trip(v: SubmitSmRespView, tail: Seq<u8>)
    requires
        v.encodable(),
        no_nul(v.message_id),
        tags_canonical(v.msg_submission_resp_tlv),
        TlvView::parse(tail) is Err,
    ensures
        SubmitSmRespView::parse(v.wire() + tail) == Ok::<(SubmitSmRespView, Seq<u8>), CodecError>(
            (v, tail),
        ),
{
    let from1 = TlvView::list_wire(v.msg_submission_resp_tlv) + tail;
    let upto0 = COctet::wire_of(v.message_id);
    lemma_concat_assoc(upto0, TlvView::list_wire(v.msg_submission_resp_tlv), tail);
    lemma_c_octet_round_trip(v.message_id, from1);
    lemma_tlv_list_round_trip(v.msg_submission_resp_tlv, tail);
}

} // verus!
