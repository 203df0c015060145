use short_msg::smpp::pdu::command::{
    AlertNotification, Bind, BindResp, BindTransceiverResp, DataSm, DataSmResp, DeliverSm,
    DeliverSmResp, EnquireLink, EnquireLinkResp, GenericNack, OutBind, SubmitSm, SubmitSmResp,
    Unbind, UnbindResp,
};
use short_msg::smpp::pdu::typedef::{COctet, Tag, TLV};
use short_msg::smpp::pdu::wire::{encode_to_vec, CodecError, Decoder, Malformation};

fn c(s: &str) -> COctet {
    COctet::new(s.as_bytes().to_vec()).unwrap()
}

fn submit_sm() -> SubmitSm {
    SubmitSm {
        service_type: c("CMT"),
        source_addr_ton: 1,
        source_addr_npi: 1,
        source_addr: c("491701234567"),
        dest_addr_ton: 1,
        dest_addr_npi: 1,
        destination_addr: c("491707654321"),
        esm_class: 0x03,
        protocol_id: 0,
        priority_flag: 1,
        schedule_delivery_time: c(""),
        validity_period: c("000001000000000R"),
        registered_delivery: 1,
        replace_if_present_flag: 0,
        data_coding: 3,
        sm_default_msg_id: 0,
        sm_length: 5,
        short_message: b"hello".to_vec(),
        msg_submission_tlv: vec![
            TLV { tag: Tag::UserMessageReference, len: 2, val: vec![0x00, 0x2A] },
            TLV { tag: Tag::SourcePort, len: 2, val: vec![0x1F, 0x90] },
        ],
    }
}

fn submit_sm_bytes() -> Vec<u8> {
    let mut b = Vec::new();
    b.extend_from_slice(b"CMT\0");
    b.extend_from_slice(&[1, 1]);
    b.extend_from_slice(b"491701234567\0");
    b.extend_from_slice(&[1, 1]);
    b.extend_from_slice(b"491707654321\0");
    b.extend_from_slice(&[0x03, 0, 1]);
    b.extend_from_slice(b"\0");
    b.extend_from_slice(b"000001000000000R\0");
    b.extend_from_slice(&[1, 0, 3, 0]);
    b.extend_from_slice(&[5]);
    b.extend_from_slice(b"hello");
    b.extend_from_slice(&[0x02, 0x04, 0x00, 0x02, 0x00, 0x2A]);
    b.extend_from_slice(&[0x02, 0x0A, 0x00, 0x02, 0x1F, 0x90]);
    b
}

#[test]
fn submit_sm_encodes_field_by_field() {
    assert_eq!(encode_to_vec(&submit_sm()).unwrap(), submit_sm_bytes());
}

#[test]
fn submit_sm_decodes_field_by_field() {
    let bytes = submit_sm_bytes();
    let mut d = Decoder::new(&bytes);
    assert_eq!(SubmitSm::decode(&mut d), Ok(submit_sm()));
    assert_eq!(d.remaining(), 0);
}

#[test]
fn submit_sm_followed_by_two_tlvs_and_two_stray_bytes() {
    let mut bytes = submit_sm_bytes();
    bytes.extend_from_slice(&[0xDE, 0xAD]);
    let mut d = Decoder::new(&bytes);
    let body = SubmitSm::decode(&mut d).unwrap();
    assert_eq!(body.msg_submission_tlv.len(), 2);
    assert_eq!(body, submit_sm());
    assert_eq!(d.remaining(), 2);
}

#[test]
fn submit_sm_with_wrong_sm_length_does_not_encode() {
    let mut body = submit_sm();
    body.sm_length = 4;
    assert_eq!(encode_to_vec(&body), Err(CodecError::InvalidArgument));
    let mut body = submit_sm();
    body.msg_submission_tlv[1].len = 3;
    assert_eq!(encode_to_vec(&body), Err(CodecError::InvalidArgument));
}

#[test]
fn submit_sm_cut_short_fails_with_the_error_of_the_field() {
    let bytes = submit_sm_bytes();
    // inside the short message: the stated length asks for more than is there
    let cut = &bytes[..bytes.len() - 12 - 2];
    let mut d = Decoder::new(cut);
    assert_eq!(SubmitSm::decode(&mut d), Err(CodecError::Truncated));
    assert_eq!(d.remaining(), cut.len());
    // inside source_addr: the terminator is missing
    let mut d = Decoder::new(&bytes[..10]);
    assert_eq!(
        SubmitSm::decode(&mut d),
        Err(CodecError::Malformed(Malformation::Unterminated))
    );
    // after service_type: a fixed-width field is missing
    let mut d = Decoder::new(&bytes[..4]);
    assert_eq!(SubmitSm::decode(&mut d), Err(CodecError::Truncated));
    // nothing at all
    let mut d = Decoder::new(&bytes[..0]);
    assert_eq!(
        SubmitSm::decode(&mut d),
        Err(CodecError::Malformed(Malformation::Unterminated))
    );
}

#[test]
fn submit_sm_with_empty_message_and_no_tlvs() {
    let mut body = submit_sm();
    body.sm_length = 0;
    body.short_message = Vec::new();
    body.msg_submission_tlv = Vec::new();
    let bytes = encode_to_vec(&body).unwrap();
    assert_eq!(bytes.len(), submit_sm_bytes().len() - 5 - 12);
    let mut d = Decoder::new(&bytes);
    assert_eq!(SubmitSm::decode(&mut d), Ok(body));
}

#[test]
fn submit_sm_with_longest_message() {
    let mut body = submit_sm();
    body.sm_length = 255;
    body.short_message = vec![0; 255];
    let bytes = encode_to_vec(&body).unwrap();
    let mut d = Decoder::new(&bytes);
    assert_eq!(SubmitSm::decode(&mut d), Ok(body));
}

#[test]
fn deliver_sm_has_the_layout_of_submit_sm() {
    let s = submit_sm();
    let body = DeliverSm {
        service_type: s.service_type,
        source_addr_ton: s.source_addr_ton,
        source_addr_npi: s.source_addr_npi,
        source_addr: s.source_addr,
        dest_addr_ton: s.dest_addr_ton,
        dest_addr_npi: s.dest_addr_npi,
        destination_addr: s.destination_addr,
        esm_class: s.esm_class,
        protocol_id: s.protocol_id,
        priority_flag: s.priority_flag,
        schedule_delivery_time: s.schedule_delivery_time,
        validity_period: s.validity_period,
        registered_delivery: s.registered_delivery,
        replace_if_present_flag: s.replace_if_present_flag,
        data_coding: s.data_coding,
        sm_default_msg_id: s.sm_default_msg_id,
        sm_length: s.sm_length,
        short_message: s.short_message,
        msg_delivery_tlv: s.msg_submission_tlv,
    };
    assert_eq!(encode_to_vec(&body).unwrap(), submit_sm_bytes());
    let mut bytes = submit_sm_bytes();
    bytes.extend_from_slice(&[0x01, 0x02, 0x03]);
    let mut d = Decoder::new(&bytes);
    assert_eq!(DeliverSm::decode(&mut d), Ok(body));
    assert_eq!(d.remaining(), 3);
}

#[test]
fn deliver_sm_cut_inside_the_message_is_truncated() {
    let bytes = submit_sm_bytes();
    let cut = &bytes[..bytes.len() - 12 - 1];
    let mut d = Decoder::new(cut);
    assert_eq!(DeliverSm::decode(&mut d), Err(CodecError::Truncated));
}

#[test]
fn responses_carry_a_message_id_and_parameters() {
    let body = SubmitSmResp {
        message_id: c("abc123"),
        msg_submission_resp_tlv: vec![TLV { tag: Tag::DpfResult, len: 1, val: vec![1] }],
    };
    let bytes = encode_to_vec(&body).unwrap();
    assert_eq!(bytes, b"abc123\0\x04\x20\x00\x01\x01".to_vec());
    let mut d = Decoder::new(&bytes);
    assert_eq!(SubmitSmResp::decode(&mut d), Ok(body));

    let body = DeliverSmResp {
        message_id: c(""),
        msg_delivery_resp_tlv: vec![TLV { tag: Tag::NetworkErrorCode, len: 3, val: vec![3, 0, 1] }],
    };
    let bytes = encode_to_vec(&body).unwrap();
    assert_eq!(bytes, b"\0\x04\x23\x00\x03\x03\x00\x01".to_vec());
    let mut d = Decoder::new(&bytes);
    let back: DataSmResp = DeliverSmResp::decode(&mut d).unwrap();
    assert_eq!(back, body);

    let empty = DeliverSmResp { message_id: c(""), msg_delivery_resp_tlv: vec![] };
    assert_eq!(encode_to_vec(&empty).unwrap(), vec![0]);
    let none: [u8; 0] = [];
    let mut d = Decoder::new(&none);
    assert_eq!(
        DeliverSmResp::decode(&mut d),
        Err(CodecError::Malformed(Malformation::Unterminated))
    );
}

#[test]
fn data_sm_round_trip() {
    let body = DataSm {
        service_type: c(""),
        source_addr_ton: 5,
        source_addr_npi: 0,
        source_addr: c("sender"),
        dest_addr_ton: 1,
        dest_addr_npi: 1,
        destination_addr: c("4917"),
        esm_class: 0,
        registered_delivery: 0,
        data_coding: 8,
        msg_submission_tlv: vec![TLV { tag: Tag::MessagePayload, len: 4, val: vec![0, 0x68, 0, 0x69] }],
    };
    let bytes = encode_to_vec(&body).unwrap();
    assert_eq!(bytes, b"\0\x05\x00sender\0\x01\x014917\0\x00\x00\x08\x04\x24\x00\x04\x00h\x00i".to_vec());
    let mut d = Decoder::new(&bytes);
    assert_eq!(DataSm::decode(&mut d), Ok(body));
    let mut d = Decoder::new(&bytes[..18]);
    assert_eq!(DataSm::decode(&mut d), Err(CodecError::Truncated));
}

#[test]
fn bind_round_trip() {
    let body = Bind {
        system_id: c("esme"),
        password: c("secret"),
        system_type: c("VMS"),
        interface_version: 0x34,
        addr_ton: 1,
        addr_npi: 1,
        address_range: c("^49"),
    };
    let bytes = encode_to_vec(&body).unwrap();
    assert_eq!(bytes, b"esme\0secret\0VMS\0\x34\x01\x01^49\0".to_vec());
    let mut d = Decoder::new(&bytes);
    assert_eq!(Bind::decode(&mut d), Ok(body));
    let mut d = Decoder::new(&bytes[..bytes.len() - 1]);
    assert_eq!(Bind::decode(&mut d), Err(CodecError::Malformed(Malformation::Unterminated)));
    let mut d = Decoder::new(&bytes[..17]);
    assert_eq!(Bind::decode(&mut d), Err(CodecError::Truncated));
}

#[test]
fn bind_resp_with_and_without_the_version() {
    let with = BindResp {
        system_id: c("SMSC"),
        sc_interface_version: Some(TLV { tag: Tag::ScInterfaceVersion, len: 1, val: vec![0x34] }),
    };
    let bytes = encode_to_vec(&with).unwrap();
    assert_eq!(bytes, b"SMSC\0\x02\x10\x00\x01\x34".to_vec());
    let mut d = Decoder::new(&bytes);
    let back: BindTransceiverResp = BindResp::decode(&mut d).unwrap();
    assert_eq!(back, with);

    let without = BindResp { system_id: c("SMSC"), sc_interface_version: None };
    let bytes = encode_to_vec(&without).unwrap();
    assert_eq!(bytes, b"SMSC\0".to_vec());
    let mut d = Decoder::new(&bytes);
    assert_eq!(BindResp::decode(&mut d), Ok(without.clone()));

    // a parameter that is cut short is taken for none
    let bytes = b"SMSC\0\x02\x10\x00\x01";
    let mut d = Decoder::new(bytes);
    assert_eq!(BindResp::decode(&mut d), Ok(without));
    assert_eq!(d.remaining(), 4);

    let bad = BindResp {
        system_id: c("SMSC"),
        sc_interface_version: Some(TLV { tag: Tag::ScInterfaceVersion, len: 2, val: vec![0x34] }),
    };
    assert_eq!(encode_to_vec(&bad), Err(CodecError::InvalidArgument));
}

#[test]
fn outbind_round_trip() {
    let body = OutBind { system_id: c("mc"), password: c("pw") };
    let bytes = encode_to_vec(&body).unwrap();
    assert_eq!(bytes, b"mc\0pw\0".to_vec());
    let mut d = Decoder::new(&bytes);
    assert_eq!(OutBind::decode(&mut d), Ok(body));
    let mut d = Decoder::new(b"mc\0pw");
    assert_eq!(OutBind::decode(&mut d), Err(CodecError::Malformed(Malformation::Unterminated)));
    assert_eq!(d.remaining(), 5);
}

#[test]
fn alert_notification_round_trip() {
    let body = AlertNotification {
        source_addr_ton: 1,
        source_addr_npi: 1,
        source_addr: c("4917"),
        esme_addr_ton: 0,
        esme_addr_npi: 0,
        esme_addr: c("wap"),
        ms_availability_status: vec![TLV { tag: Tag::MsAvailabilityStatus, len: 1, val: vec![0] }],
    };
    let bytes = encode_to_vec(&body).unwrap();
    assert_eq!(bytes, b"\x01\x014917\0\x00\x00wap\0\x04\x22\x00\x01\x00".to_vec());
    let mut d = Decoder::new(&bytes);
    assert_eq!(AlertNotification::decode(&mut d), Ok(body));
    let mut d = Decoder::new(&bytes[..1]);
    assert_eq!(AlertNotification::decode(&mut d), Err(CodecError::Truncated));
}

#[test]
fn empty_bodies_take_no_bytes() {
    assert_eq!(encode_to_vec(&Unbind {}).unwrap(), Vec::new());
    assert_eq!(encode_to_vec(&UnbindResp {}).unwrap(), Vec::new());
    assert_eq!(encode_to_vec(&EnquireLink {}).unwrap(), Vec::new());
    assert_eq!(encode_to_vec(&EnquireLinkResp {}).unwrap(), Vec::new());
    assert_eq!(encode_to_vec(&GenericNack {}).unwrap(), Vec::new());
    let bytes = [1u8, 2];
    let mut d = Decoder::new(&bytes);
    assert_eq!(Unbind::decode(&mut d), Ok(Unbind {}));
    assert_eq!(UnbindResp::decode(&mut d), Ok(UnbindResp {}));
    assert_eq!(EnquireLink::decode(&mut d), Ok(EnquireLink {}));
    assert_eq!(EnquireLinkResp::decode(&mut d), Ok(EnquireLinkResp {}));
    assert_eq!(GenericNack::decode(&mut d), Ok(GenericNack {}));
    assert_eq!(d.remaining(), 2);
}
