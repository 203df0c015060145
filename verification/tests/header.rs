use short_msg::smpp::pdu::command::{Bind, EnquireLink, Id, Status, SubmitSmResp, Unbind};
use short_msg::smpp::pdu::typedef::{COctet, Tag, TLV};
use short_msg::smpp::pdu::wire::{encode_to_vec, CodecError, Decoder, Malformation};
use short_msg::smpp::pdu::Header;

fn c(s: &str) -> COctet {
    COctet::new(s.as_bytes().to_vec()).unwrap()
}

#[test]
fn header_new_has_length_sixteen() {
    let h = Header::new(Id::EnquireLink, Status::ESME_ROK, 1);
    assert_eq!(h.command_length, 16);
    assert_eq!(h.command_id, Id::EnquireLink);
    assert_eq!(h.command_status, Status::ESME_ROK);
    assert_eq!(h.sequence_number, 1);
    assert_eq!(
        encode_to_vec(&h).unwrap(),
        vec![0, 0, 0, 16, 0, 0, 0, 0x15, 0, 0, 0, 0, 0, 0, 0, 1]
    );
}

#[test]
fn header_set_len_changes_the_length_only() {
    let h = Header::new(Id::SubmitSm, Status::Reserved(77), 9).set_len(1234);
    assert_eq!(
        h,
        Header {
            command_length: 1234,
            command_id: Id::SubmitSm,
            command_status: Status::Reserved(77),
            sequence_number: 9,
        }
    );
}

#[test]
fn header_with_empty_body_is_sixteen_bytes() {
    let unit = Header::new_with_body(Id::EnquireLink, Status::ESME_ROK, 7, EnquireLink {}).unwrap();
    assert_eq!(unit.len(), 16);
    assert_eq!(unit, vec![0, 0, 0, 16, 0, 0, 0, 0x15, 0, 0, 0, 0, 0, 0, 0, 7]);
    let mut d = Decoder::new(&unit);
    let h = Header::decode(&mut d).unwrap();
    assert_eq!(h.command_length, 16);
    assert_eq!(h.sequence_number, 7);
    assert_eq!(h.command_id, Id::EnquireLink);
    assert_eq!(h.command_status, Status::ESME_ROK);
    assert_eq!(d.remaining(), 0);
}

#[test]
fn header_with_bind_body_counts_the_whole_unit() {
    let bind = Bind {
        system_id: c("Telegram"),
        password: c(""),
        system_type: c(""),
        interface_version: 0x34,
        addr_ton: 0,
        addr_npi: 0,
        address_range: c(""),
    };
    let unit = Header::new_with_body(Id::BindTransceiver, Status::ESME_ROK, 2, bind.clone()).unwrap();
    let mut expected = vec![0, 0, 0, 16 + 15, 0, 0, 0, 9, 0, 0, 0, 0, 0, 0, 0, 2];
    expected.extend_from_slice(b"Telegram\0\0\0\x34\0\0\0");
    assert_eq!(unit, expected);
    let mut d = Decoder::new(&unit);
    let h = Header::decode(&mut d).unwrap();
    assert_eq!(h.command_length as usize, unit.len());
    assert_eq!(d.remaining(), 15);
    assert_eq!(Bind::decode(&mut d), Ok(bind));
    assert_eq!(d.remaining(), 0);
}

#[test]
fn header_refuses_a_body_that_cannot_be_written() {
    let body = SubmitSmResp {
        message_id: c("1"),
        msg_submission_resp_tlv: vec![TLV { tag: Tag::DpfResult, len: 2, val: vec![1] }],
    };
    assert_eq!(
        Header::new_with_body(Id::SubmitSmResp, Status::ESME_ROK, 3, body),
        Err(CodecError::InvalidArgument)
    );
}

#[test]
fn header_decode_keeps_unknown_codes() {
    let bytes = [0u8, 0, 0, 16, 0x7E, 0xEE, 0xEE, 0xEE, 0x7E, 0xEE, 0xEE, 0xEE, 0xFF, 0xFF, 0xFF, 0xFF];
    let mut d = Decoder::new(&bytes);
    let h = Header::decode(&mut d).unwrap();
    assert_eq!(h.command_id, Id::Reserved(0x7EEE_EEEE));
    assert_eq!(h.command_status, Status::Reserved(0x7EEE_EEEE));
    assert_eq!(h.sequence_number, 0xFFFF_FFFF);
    assert_eq!(encode_to_vec(&h).unwrap(), bytes.to_vec());
}

#[test]
fn header_decode_does_not_check_the_length() {
    let bytes = [0xFFu8, 0xFF, 0xFF, 0xFF, 0x80, 0, 0, 0, 0, 0, 0, 3, 0, 0, 0, 5, 1, 2];
    let mut d = Decoder::new(&bytes);
    let h = Header::decode(&mut d).unwrap();
    assert_eq!(h.command_length, 0xFFFF_FFFF);
    assert_eq!(h.command_id, Id::GenericNack);
    assert_eq!(h.command_status, Status::ESME_RINVCMDID);
    assert_eq!(d.remaining(), 2);
}

#[test]
fn header_of_fifteen_bytes_is_truncated() {
    let bytes = [0u8; 15];
    let mut d = Decoder::new(&bytes);
    assert_eq!(Header::decode(&mut d), Err(CodecError::Truncated));
    assert_eq!(d.remaining(), 15);
}

#[test]
fn header_length_can_be_held_against_the_unit() {
    let unit = Header::new_with_body(Id::Unbind, Status::ESME_ROK, 3, Unbind {}).unwrap();
    let mut d = Decoder::new(&unit);
    let h = Header::decode(&mut d).unwrap();
    assert_eq!(h.check_length(unit.len()), Ok(()));
    assert_eq!(
        h.check_length(unit.len() + 1),
        Err(CodecError::Malformed(Malformation::Length { expected: 16 }))
    );
    assert_eq!(
        h.set_len(17).check_length(16),
        Err(CodecError::Malformed(Malformation::Length { expected: 17 }))
    );
}

#[test]
fn decoder_hands_out_the_bytes_after_the_header() {
    let mut unit = Header::new_with_body(Id::GenericNack, Status::ESME_RINVCMDLEN, 4, Unbind {}).unwrap();
    unit.extend_from_slice(&[9, 8, 7]);
    let mut d = Decoder::new(&unit);
    assert_eq!(d.rest(), &unit[..]);
    let h = Header::decode(&mut d).unwrap();
    assert_eq!(h.command_status, Status::ESME_RINVCMDLEN);
    assert_eq!(d.rest(), &[9, 8, 7]);
}
