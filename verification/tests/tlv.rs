use short_msg::smpp::pdu::typedef::{Tag, TLV};
use short_msg::smpp::pdu::wire::{encode_to_vec, CodecError, Decoder, Encoder};

#[test]
fn tlv_encodes_tag_length_value() {
    let t = TLV { tag: Tag::ScInterfaceVersion, len: 1, val: vec![0x34] };
    assert_eq!(encode_to_vec(&t).unwrap(), vec![0x02, 0x10, 0x00, 0x01, 0x34]);
    let t = TLV { tag: Tag::UnknownTag(0xABCD), len: 0, val: vec![] };
    assert_eq!(encode_to_vec(&t).unwrap(), vec![0xAB, 0xCD, 0x00, 0x00]);
}

#[test]
fn tlv_decodes_tag_length_value() {
    let bytes = [0x04u8, 0x24, 0x00, 0x03, 1, 2, 3, 0xEE];
    let mut d = Decoder::new(&bytes);
    let t = TLV::decode(&mut d).unwrap();
    assert_eq!(t, TLV { tag: Tag::MessagePayload, len: 3, val: vec![1, 2, 3] });
    assert_eq!(d.remaining(), 1);
}

#[test]
fn tlv_with_wrong_length_does_not_encode() {
    let t = TLV { tag: Tag::SourcePort, len: 2, val: vec![1] };
    assert_eq!(encode_to_vec(&t), Err(CodecError::InvalidArgument));
    let t = TLV { tag: Tag::SourcePort, len: 0, val: vec![1] };
    assert_eq!(encode_to_vec(&t), Err(CodecError::InvalidArgument));
    assert!(!TLV::list_is_encodable(&vec![t]));
}

#[test]
fn tlv_short_of_value_is_truncated() {
    let bytes = [0x04u8, 0x24, 0x00, 0x0A, 1, 2, 3, 4, 5, 6];
    let mut d = Decoder::new(&bytes);
    assert_eq!(TLV::decode(&mut d), Err(CodecError::Truncated));
    assert_eq!(d.remaining(), 10);
    let bytes = [0x04u8, 0x24, 0x00];
    let mut d = Decoder::new(&bytes);
    assert_eq!(TLV::decode(&mut d), Err(CodecError::Truncated));
    assert_eq!(d.remaining(), 3);
    let bytes = [0x04u8];
    let mut d = Decoder::new(&bytes);
    assert_eq!(TLV::decode(&mut d), Err(CodecError::Truncated));
}

#[test]
fn tlv_list_stops_silently_at_stray_bytes() {
    let bytes = [
        0x02u8, 0x04, 0x00, 0x02, 0x00, 0x07, // user_message_reference
        0x12, 0x34, 0x00, 0x01, 0xFF, // an unknown tag is fine
        0xAA, 0xBB, // two stray bytes
    ];
    let mut d = Decoder::new(&bytes);
    let list = TLV::decode_list(&mut d);
    assert_eq!(
        list,
        vec![
            TLV { tag: Tag::UserMessageReference, len: 2, val: vec![0x00, 0x07] },
            TLV { tag: Tag::UnknownTag(0x1234), len: 1, val: vec![0xFF] },
        ]
    );
    assert_eq!(d.remaining(), 2);
}

#[test]
fn tlv_list_stops_at_overshooting_length() {
    let bytes = [0x02u8, 0x0A, 0x00, 0x02, 0x1F, 0x90, 0x02, 0x0B, 0x00, 0x05, 1, 2];
    let mut d = Decoder::new(&bytes);
    let list = TLV::decode_list(&mut d);
    assert_eq!(list, vec![TLV { tag: Tag::SourcePort, len: 2, val: vec![0x1F, 0x90] }]);
    assert_eq!(d.remaining(), 6);
}

#[test]
fn tlv_list_of_nothing_is_empty() {
    let bytes: [u8; 0] = [];
    let mut d = Decoder::new(&bytes);
    assert_eq!(TLV::decode_list(&mut d), Vec::new());
    let bytes = [1u8, 2, 3];
    let mut d = Decoder::new(&bytes);
    assert_eq!(TLV::decode_list(&mut d), Vec::new());
    assert_eq!(d.remaining(), 3);
}

#[test]
fn tlv_list_round_trip_keeps_order() {
    let list = vec![
        TLV { tag: Tag::SarTotalSegments, len: 1, val: vec![3] },
        TLV { tag: Tag::SarSegmentSeqnum, len: 1, val: vec![1] },
        TLV { tag: Tag::SarMsgRefNum, len: 2, val: vec![0, 9] },
        TLV { tag: Tag::MessagePayload, len: 0, val: vec![] },
    ];
    assert!(TLV::list_is_encodable(&list));
    let mut e = Encoder::new();
    assert_eq!(TLV::encode_list(&list, &mut e), Ok(()));
    let bytes = e.into_bytes();
    assert_eq!(bytes.len(), 5 + 5 + 6 + 4);
    let mut d = Decoder::new(&bytes);
    assert_eq!(TLV::decode_list(&mut d), list);
    assert_eq!(d.remaining(), 0);
}

#[test]
fn tlv_list_with_one_bad_member_writes_nothing() {
    let list = vec![
        TLV { tag: Tag::SarTotalSegments, len: 1, val: vec![3] },
        TLV { tag: Tag::SarSegmentSeqnum, len: 2, val: vec![1] },
    ];
    let mut e = Encoder::new();
    e.write_u8(1);
    assert_eq!(TLV::encode_list(&list, &mut e), Err(CodecError::InvalidArgument));
    assert_eq!(e.into_bytes(), vec![1]);
}

#[test]
fn tlv_longest_value() {
    let t = TLV { tag: Tag::MessagePayload, len: 0xFFFF, val: vec![7; 0xFFFF] };
    let bytes = encode_to_vec(&t).unwrap();
    assert_eq!(bytes.len(), 4 + 0xFFFF);
    assert_eq!(&bytes[..4], &[0x04, 0x24, 0xFF, 0xFF]);
    let mut d = Decoder::new(&bytes);
    assert_eq!(TLV::decode(&mut d), Ok(t));
}
