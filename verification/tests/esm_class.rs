use short_msg::smpp::pdu::typedef::{
    EsmClass, EsmClassAnsi41, EsmClassGsm, EsmClassMessageMode, EsmClassMessageType,
};
use short_msg::smpp::pdu::wire::{encode_to_vec, Decoder};

#[test]
fn esm_class_unpacks_each_field() {
    let e = EsmClass::from(0b1001_0110);
    assert_eq!(e.message_mode, EsmClassMessageMode::Forward);
    assert_eq!(e.message_type, EsmClassMessageType::DeliveryReceipt);
    assert_eq!(e.ansi41, EsmClassAnsi41::ManualAck);
    assert_eq!(e.gsm, EsmClassGsm::ReplyPath);
    assert_eq!(u8::from(e), 0b1001_0110);
}

#[test]
fn esm_class_zero_is_all_defaults() {
    let e = EsmClass::from(0);
    assert_eq!(
        e,
        EsmClass {
            message_mode: EsmClassMessageMode::default(),
            message_type: EsmClassMessageType::default(),
            ansi41: EsmClassAnsi41::default(),
            gsm: EsmClassGsm::default(),
        }
    );
    assert_eq!(e.message_mode, EsmClassMessageMode::Default);
    assert_eq!(e.message_type, EsmClassMessageType::Default);
    assert_eq!(e.ansi41, EsmClassAnsi41::NoFeature);
    assert_eq!(e.gsm, EsmClassGsm::NoFeature);
}

#[test]
fn esm_class_packs_to_the_sum_of_the_bits() {
    let e = EsmClass {
        message_mode: EsmClassMessageMode::StoreForward,
        message_type: EsmClassMessageType::IntermediateDeliveryNotification,
        ansi41: EsmClassAnsi41::Abort,
        gsm: EsmClassGsm::UDHIandReplyPath,
    };
    assert_eq!(u8::from(e), 0b1111_1011);
    assert_eq!(encode_to_vec(&e).unwrap(), vec![0b1111_1011]);
    let e = EsmClass {
        message_mode: EsmClassMessageMode::Datagram,
        message_type: EsmClassMessageType::Default,
        ansi41: EsmClassAnsi41::DeliveryAck,
        gsm: EsmClassGsm::UDHI,
    };
    assert_eq!(u8::from(e), 0b0100_1001);
}

#[test]
fn esm_class_every_octet_round_trips() {
    for u in 0..=u8::MAX {
        let e = EsmClass::from(u);
        assert_eq!(u8::from(e), u);
        assert_eq!(EsmClass::from(u8::from(e)), e);
        assert_eq!(encode_to_vec(&e).unwrap(), vec![u]);
    }
}

#[test]
fn esm_class_keeps_bits_two_and_five_together() {
    let e = EsmClass::from(0b0010_0100);
    assert_eq!(e.message_type, EsmClassMessageType::Reserved);
    assert_eq!(e.message_mode, EsmClassMessageMode::Default);
    assert_eq!(e.ansi41, EsmClassAnsi41::NoFeature);
    assert_eq!(e.gsm, EsmClassGsm::NoFeature);
    assert_eq!(u8::from(e), 0b0010_0100);
    let e = EsmClass::from(0xFF);
    assert_eq!(
        e,
        EsmClass {
            message_mode: EsmClassMessageMode::StoreForward,
            message_type: EsmClassMessageType::Reserved,
            ansi41: EsmClassAnsi41::Abort,
            gsm: EsmClassGsm::UDHIandReplyPath,
        }
    );
    assert_eq!(u8::from(e), 0xFF);
}

#[test]
fn esm_class_sub_field_tables() {
    assert_eq!(EsmClassMessageMode::from_u8(3), Some(EsmClassMessageMode::StoreForward));
    assert_eq!(EsmClassMessageMode::from_u8(4), None);
    assert_eq!(EsmClassMessageType::from_u8(0x20), Some(EsmClassMessageType::IntermediateDeliveryNotification));
    assert_eq!(EsmClassMessageType::from_u8(0x24), Some(EsmClassMessageType::Reserved));
    assert_eq!(EsmClassMessageType::from_u8(0x01), None);
    assert_eq!(EsmClassMessageType::Reserved.to_u8(), 0x24);
    assert_eq!(EsmClassAnsi41::from_u8(0x18), Some(EsmClassAnsi41::Abort));
    assert_eq!(EsmClassAnsi41::from_u8(0x01), None);
    assert_eq!(EsmClassGsm::from_u8(0x40), Some(EsmClassGsm::UDHI));
    assert_eq!(EsmClassGsm::from_u8(0x20), None);
    assert_eq!(EsmClassMessageMode::Forward.to_u8(), 2);
    assert_eq!(EsmClassMessageType::DeliveryReceipt.to_u8(), 4);
    assert_eq!(EsmClassAnsi41::ManualAck.to_u8(), 0x10);
    assert_eq!(EsmClassGsm::UDHIandReplyPath.to_u8(), 0xC0);
}

#[test]
fn esm_class_decodes_one_octet() {
    let bytes = [0b0100_0011u8, 0xFF];
    let mut d = Decoder::new(&bytes);
    let e = EsmClass::decode(&mut d).unwrap();
    assert_eq!(e.message_mode, EsmClassMessageMode::StoreForward);
    assert_eq!(e.gsm, EsmClassGsm::UDHI);
    assert_eq!(d.remaining(), 1);
}
