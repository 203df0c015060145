use short_msg::smpp::pdu::typedef::COctet;
use short_msg::smpp::pdu::wire::{encode_to_vec, CodecError, Decoder, Encoder, Malformation};
use short_msg::smpp::pdu::wire::Encode;

#[test]
fn c_octet_encodes_with_terminator() {
    let c = COctet::new(b"ABC".to_vec()).unwrap();
    assert_eq!(encode_to_vec(&c).unwrap(), vec![0x41, 0x42, 0x43, 0x00]);
    assert_eq!(c.as_bytes(), b"ABC");
}

#[test]
fn c_octet_decodes_up_to_terminator() {
    let bytes = [0x41u8, 0x42, 0x43, 0x00];
    let mut d = Decoder::new(&bytes);
    let c = COctet::decode(&mut d).unwrap();
    assert_eq!(c.as_bytes(), b"ABC");
    assert_eq!(d.remaining(), 0);
    assert_eq!(c.into_bytes(), b"ABC".to_vec());
}

#[test]
fn c_octet_with_nul_is_invalid_argument() {
    assert_eq!(COctet::new(vec![0x41, 0x00, 0x42]), Err(CodecError::InvalidArgument));
    assert_eq!(COctet::new(vec![0x00]), Err(CodecError::InvalidArgument));
    assert_eq!(COctet::new(vec![0x41, 0x42, 0x00]), Err(CodecError::InvalidArgument));
}

#[test]
fn c_octet_empty() {
    let c = COctet::new(Vec::new()).unwrap();
    assert_eq!(encode_to_vec(&c).unwrap(), vec![0x00]);
    assert_eq!(COctet::empty(), c);
    let bytes = [0u8, 7];
    let mut d = Decoder::new(&bytes);
    assert_eq!(COctet::decode(&mut d).unwrap().as_bytes(), b"");
    assert_eq!(d.remaining(), 1);
}

#[test]
fn c_octet_without_terminator_is_malformed() {
    let bytes = [0x41u8, 0x42, 0x43];
    let mut d = Decoder::new(&bytes);
    assert_eq!(
        COctet::decode(&mut d),
        Err(CodecError::Malformed(Malformation::Unterminated))
    );
    assert_eq!(d.remaining(), 3);
    let none: [u8; 0] = [];
    let mut d = Decoder::new(&none);
    assert_eq!(
        COctet::decode(&mut d),
        Err(CodecError::Malformed(Malformation::Unterminated))
    );
}

#[test]
fn c_octet_stops_at_first_terminator() {
    let bytes = [0x61u8, 0x00, 0x62, 0x00];
    let mut d = Decoder::new(&bytes);
    assert_eq!(COctet::decode(&mut d).unwrap().as_bytes(), b"a");
    assert_eq!(d.remaining(), 2);
    assert_eq!(COctet::decode(&mut d).unwrap().as_bytes(), b"b");
    assert_eq!(d.remaining(), 0);
}

#[test]
fn c_octet_clone_is_equal() {
    let c = COctet::new(b"Telegram".to_vec()).unwrap();
    assert_eq!(c.clone(), c);
}

#[test]
fn c_octet_appends_to_what_is_written() {
    let mut e = Encoder::new();
    e.write_u8(9);
    COctet::new(b"x".to_vec()).unwrap().encode(&mut e).unwrap();
    assert_eq!(e.len(), 3);
    assert_eq!(e.into_bytes(), vec![9, 0x78, 0]);
}

#[test]
fn c_octet_default_is_empty() {
    let c = COctet::default();
    assert_eq!(c.as_bytes(), b"");
    assert_eq!(c, COctet::empty());
    assert_eq!(encode_to_vec(&c).unwrap(), vec![0x00]);
}
