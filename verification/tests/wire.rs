use short_msg::smpp::pdu::wire::{CodecError, Decoder, Encoder};

#[test]
fn integers_are_big_endian() {
    let mut e = Encoder::new();
    e.write_u8(0xAB);
    e.write_u16(0x0102);
    e.write_u32(0x0304_0506);
    e.write_bytes(&[9, 8]);
    assert_eq!(e.len(), 9);
    assert_eq!(e.into_bytes(), vec![0xAB, 1, 2, 3, 4, 5, 6, 9, 8]);
}

#[test]
fn integers_are_read_big_endian() {
    let bytes = [0xABu8, 1, 2, 3, 4, 5, 6, 9, 8];
    let mut d = Decoder::new(&bytes);
    assert_eq!(d.remaining(), 9);
    assert_eq!(d.read_u8(), Ok(0xAB));
    assert_eq!(d.read_u16(), Ok(0x0102));
    assert_eq!(d.read_u32(), Ok(0x0304_0506));
    assert_eq!(d.read_bytes(2), Ok(vec![9, 8]));
    assert_eq!(d.remaining(), 0);
}

#[test]
fn extreme_integers() {
    let mut e = Encoder::new();
    e.write_u16(0xFFFF);
    e.write_u32(0xFFFF_FFFF);
    e.write_u16(0x8000);
    e.write_u32(0x8000_0001);
    let bytes = e.into_bytes();
    assert_eq!(bytes, vec![0xFF, 0xFF, 0xFF, 0xFF, 0xFF, 0xFF, 0x80, 0, 0x80, 0, 0, 1]);
    let mut d = Decoder::new(&bytes);
    assert_eq!(d.read_u16(), Ok(0xFFFF));
    assert_eq!(d.read_u32(), Ok(0xFFFF_FFFF));
    assert_eq!(d.read_u16(), Ok(0x8000));
    assert_eq!(d.read_u32(), Ok(0x8000_0001));
}

#[test]
fn short_reads_are_truncated_and_consume_nothing() {
    let bytes = [1u8, 2, 3];
    let mut d = Decoder::new(&bytes);
    assert_eq!(d.read_u32(), Err(CodecError::Truncated));
    assert_eq!(d.remaining(), 3);
    assert_eq!(d.read_bytes(4), Err(CodecError::Truncated));
    assert_eq!(d.remaining(), 3);
    assert_eq!(d.read_u16(), Ok(0x0102));
    assert_eq!(d.read_u16(), Err(CodecError::Truncated));
    assert_eq!(d.read_u8(), Ok(3));
    assert_eq!(d.read_u8(), Err(CodecError::Truncated));
    assert_eq!(d.read_bytes(0), Ok(Vec::new()));
}
