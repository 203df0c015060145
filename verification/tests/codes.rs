use short_msg::smpp::pdu::command::{Id, Status};
use short_msg::smpp::pdu::typedef::{DataCoding, Npi, Tag, Ton};
use short_msg::smpp::pdu::wire::{encode_to_vec, CodecError, Decoder};

const KNOWN_IDS: [u32; 27] = [
    0x8000_0000, 0x0000_0001, 0x8000_0001, 0x0000_0002, 0x8000_0002, 0x0000_0003, 0x8000_0003,
    0x0000_0004, 0x8000_0004, 0x0000_0005, 0x8000_0005, 0x0000_0006, 0x8000_0006, 0x0000_0007,
    0x8000_0007, 0x0000_0008, 0x8000_0008, 0x0000_0009, 0x8000_0009, 0x0000_000B, 0x0000_0015,
    0x8000_0015, 0x0000_0021, 0x8000_0021, 0x0000_0102, 0x0000_0103, 0x8000_0103,
];

#[test]
fn id_known_codes_round_trip() {
    for code in KNOWN_IDS {
        let id = Id::from_code(code);
        assert!(!matches!(id, Id::Reserved(_)), "{code:#x}");
        assert_eq!(id.code(), code);
        let bytes = encode_to_vec(&id).unwrap();
        assert_eq!(bytes, code.to_be_bytes().to_vec());
        let mut d = Decoder::new(&bytes);
        assert_eq!(Id::decode(&mut d), Ok(id));
        assert_eq!(d.remaining(), 0);
    }
}

#[test]
fn id_codes_by_name() {
    assert_eq!(Id::GenericNack.code(), 0x8000_0000);
    assert_eq!(Id::BindTransceiver.code(), 0x0000_0009);
    assert_eq!(Id::Outbind.code(), 0x0000_000B);
    assert_eq!(Id::EnquireLink.code(), 0x0000_0015);
    assert_eq!(Id::EnquireLinkResp.code(), 0x8000_0015);
    assert_eq!(Id::AlertNotification.code(), 0x0000_0102);
    assert_eq!(Id::DataSmResp.code(), 0x8000_0103);
    assert_eq!(Id::from_code(4), Id::SubmitSm);
    assert_eq!(Id::from_code(0x8000_0005), Id::DeliverSmResp);
}

#[test]
fn id_reserved_passthrough() {
    for code in [0x7EEE_EEEEu32, 0, 0x0A, 0x8000_000B, 0x111, 0xFFFF_FFFF] {
        let id = Id::from_code(code);
        assert_eq!(id, Id::Reserved(code));
        assert_eq!(id.code(), code);
        let bytes = encode_to_vec(&Id::Reserved(code)).unwrap();
        assert_eq!(bytes, code.to_be_bytes().to_vec());
        let mut d = Decoder::new(&bytes);
        assert_eq!(Id::decode(&mut d), Ok(Id::Reserved(code)));
    }
}

#[test]
fn id_every_code_is_kept() {
    let mut code: u32 = 0;
    while code < 0x400 {
        assert_eq!(Id::from_code(code).code(), code);
        assert_eq!(Id::from_code(code | 0x8000_0000).code(), code | 0x8000_0000);
        assert_eq!(Status::from_code(code).code(), code);
        code += 1;
    }
}

#[test]
fn id_decode_of_short_input_is_truncated() {
    let bytes = [0u8, 0, 0];
    let mut d = Decoder::new(&bytes);
    assert_eq!(Id::decode(&mut d), Err(CodecError::Truncated));
    assert_eq!(d.remaining(), 3);
}

#[test]
fn status_known_codes_round_trip() {
    let known: [u32; 46] = [
        0x00, 0x01, 0x02, 0x03, 0x04, 0x05, 0x06, 0x07, 0x08, 0x0A, 0x0B, 0x0C, 0x0D, 0x0E, 0x0F,
        0x11, 0x13, 0x14, 0x15, 0x33, 0x34, 0x40, 0x42, 0x43, 0x44, 0x45, 0x48, 0x49, 0x50, 0x51,
        0x53, 0x54, 0x55, 0x58, 0x61, 0x62, 0x63, 0x64, 0x65, 0x66, 0x67, 0xC0, 0xC1, 0xC2, 0xC3,
        0xC4,
    ];
    for code in known {
        let status = Status::from_code(code);
        assert!(!matches!(status, Status::Reserved(_)), "{code:#x}");
        assert_eq!(status.code(), code);
        let bytes = encode_to_vec(&status).unwrap();
        assert_eq!(bytes, code.to_be_bytes().to_vec());
        let mut d = Decoder::new(&bytes);
        assert_eq!(Status::decode(&mut d), Ok(status));
    }
}

#[test]
fn status_codes_by_name() {
    assert_eq!(Status::ESME_ROK.code(), 0);
    assert_eq!(Status::ESME_RSYSERR.code(), 8);
    assert_eq!(Status::ESME_RINVSRCADR.code(), 0x0A);
    assert_eq!(Status::ESME_RTHROTTLED.code(), 0x58);
    assert_eq!(Status::ESME_RINVOPTPARAMVAL.code(), 0xC4);
    assert_eq!(Status::from_code(0x45), Status::ESME_RSUBMITFAIL);
}

#[test]
fn status_reserved_passthrough() {
    for code in [0x7EEE_EEEEu32, 0x09, 0x10, 0x12, 0xFE, 0x400, 0xFFFF_FFFF] {
        assert_eq!(Status::from_code(code), Status::Reserved(code));
        let bytes = encode_to_vec(&Status::Reserved(code)).unwrap();
        assert_eq!(bytes, code.to_be_bytes().to_vec());
        let mut d = Decoder::new(&bytes);
        assert_eq!(Status::decode(&mut d), Ok(Status::Reserved(code)));
    }
}

#[test]
fn tag_known_codes_round_trip() {
    let known: [u16; 44] = [
        0x0005, 0x0006, 0x0007, 0x0008, 0x000D, 0x000E, 0x000F, 0x0010, 0x0017, 0x0019, 0x001D,
        0x001E, 0x0030, 0x0201, 0x0202, 0x0203, 0x0204, 0x0205, 0x020A, 0x020B, 0x020C, 0x020D,
        0x020E, 0x020F, 0x0210, 0x0302, 0x0303, 0x0304, 0x0381, 0x0420, 0x0421, 0x0422, 0x0423,
        0x0424, 0x0425, 0x0426, 0x0427, 0x0501, 0x1201, 0x1203, 0x1204, 0x130C, 0x1380, 0x1383,
    ];
    for code in known {
        let tag = Tag::from_code(code);
        assert!(!matches!(tag, Tag::UnknownTag(_)), "{code:#x}");
        assert_eq!(tag.code(), code);
        let bytes = encode_to_vec(&tag).unwrap();
        assert_eq!(bytes, code.to_be_bytes().to_vec());
        let mut d = Decoder::new(&bytes);
        assert_eq!(Tag::decode(&mut d), Ok(tag));
    }
}

#[test]
fn tag_every_code_is_kept() {
    let mut code: u16 = 0;
    loop {
        assert_eq!(Tag::from_code(code).code(), code);
        if code == u16::MAX {
            break;
        }
        code += 1;
    }
}

#[test]
fn tag_unknown_passthrough() {
    assert_eq!(Tag::from_code(0x1234), Tag::UnknownTag(0x1234));
    assert_eq!(encode_to_vec(&Tag::UnknownTag(0x1234)).unwrap(), vec![0x12, 0x34]);
    assert_eq!(Tag::from_code(0x0424), Tag::MessagePayload);
    assert_eq!(Tag::ScInterfaceVersion.code(), 0x0210);
}

#[test]
fn ton_codes() {
    let names = [
        Ton::Unknown,
        Ton::International,
        Ton::National,
        Ton::NetworkSpecific,
        Ton::SubscriberNumber,
        Ton::Alphanumeric,
        Ton::Abbreviated,
    ];
    for (code, ton) in names.iter().enumerate() {
        assert_eq!(ton.code(), code as u8);
        assert_eq!(Ton::from_code(code as u8), *ton);
        assert_eq!(encode_to_vec(ton).unwrap(), vec![code as u8]);
    }
    assert_eq!(Ton::from_code(7), Ton::Reserved(7));
    assert_eq!(Ton::Reserved(0xFF).code(), 0xFF);
    let bytes = [5u8, 9];
    let mut d = Decoder::new(&bytes);
    assert_eq!(Ton::decode(&mut d), Ok(Ton::Alphanumeric));
    assert_eq!(Ton::decode(&mut d), Ok(Ton::Reserved(9)));
    assert_eq!(Ton::decode(&mut d), Err(CodecError::Truncated));
}

#[test]
fn npi_codes() {
    let table = [
        (0u8, Npi::Unknown),
        (1, Npi::ISDN),
        (3, Npi::Data),
        (4, Npi::Telex),
        (6, Npi::LandMobile),
        (8, Npi::National),
        (9, Npi::Private),
        (10, Npi::ERMES),
        (14, Npi::IP),
        (18, Npi::WapClientId),
    ];
    for (code, npi) in table {
        assert_eq!(npi.code(), code);
        assert_eq!(Npi::from_code(code), npi);
    }
    for code in 0..=u8::MAX {
        assert_eq!(Npi::from_code(code).code(), code);
    }
    assert_eq!(Npi::from_code(2), Npi::Reserved(2));
    let bytes = [14u8];
    let mut d = Decoder::new(&bytes);
    assert_eq!(Npi::decode(&mut d), Ok(Npi::IP));
}

#[test]
fn data_coding_codes() {
    let table = [
        (0u8, DataCoding::SmscDefault),
        (1, DataCoding::Ascii),
        (3, DataCoding::Latin1),
        (5, DataCoding::ShiftJis),
        (6, DataCoding::Cyrillic),
        (7, DataCoding::Hebrew),
        (8, DataCoding::Ucs2),
        (10, DataCoding::Iso2022Jp),
        (13, DataCoding::EucJp),
        (14, DataCoding::EucKr),
    ];
    for (code, dc) in table {
        assert_eq!(dc.code(), code);
        assert_eq!(DataCoding::from_code(code), dc);
        assert_eq!(encode_to_vec(&dc).unwrap(), vec![code]);
    }
    for code in 0..=u8::MAX {
        assert_eq!(DataCoding::from_code(code).code(), code);
    }
    assert_eq!(DataCoding::from_code(2), DataCoding::Reserved(2));
    let bytes = [8u8];
    let mut d = Decoder::new(&bytes);
    assert_eq!(DataCoding::decode(&mut d), Ok(DataCoding::Ucs2));
}
