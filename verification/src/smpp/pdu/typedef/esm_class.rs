//! The `esm_class` octet: four fields packed into eight bits. The message
//! mode takes bits 0 and 1, the message type bits 2 and 5, the ANSI-41
//! feature bits 3 and 4, the GSM feature bits 6 and 7.

use crate::smpp::pdu::wire::{parse_u8, CodecError, Decoder, Encode, Encoder};
use vstd::prelude::*;
use vstd::std_specs::convert::FromSpecImpl;

verus! {

/// The bits of the message mode.
pub const MESSAGE_MODE_MASK: u8 = 0b0000_0011;

/// The bits of the message type.
pub const MESSAGE_TYPE_MASK: u8 = 0b0010_0100;

/// The bits of the ANSI-41 feature.
pub const ANSI41_MASK: u8 = 0b0001_1000;

/// The bits of the GSM feature.
pub const GSM_MASK: u8 = 0b1100_0000;

/// How the message centre is to handle the message.
#[derive(Clone, Copy, Debug, PartialEq, Eq, Structural)]
pub enum EsmClassMessageMode {
    /// Whatever the message centre does by default. Bits `0b00`.
    Default,
    /// Datagram mode. Bits `0b01`.
    Datagram,
    /// Forward, or transaction, mode. Bits `0b10`.
    Forward,
    /// Store and forward, asked for by name. Bits `0b11`.
    StoreForward,
}

/// What the short message holds.
#[derive(Clone, Copy, Debug, PartialEq, Eq, Structural)]
pub enum EsmClassMessageType {
    /// An ordinary message. No bit set.
    Default,
    /// A delivery receipt of the message centre. Bit 2.
    DeliveryReceipt,
    /// An intermediate delivery notification. Bit 5.
    IntermediateDeliveryNotification,
    /// Bits 2 and 5 together, which the protocol leaves undefined. The
    /// variant is there so that such an octet comes back as it came.
    Reserved,
}

/// The ANSI-41 feature of the message.
#[derive(Clone, Copy, Debug, PartialEq, Eq, Structural)]
pub enum EsmClassAnsi41 {
    /// No feature. No bit set.
    NoFeature,
    /// A delivery acknowledgement. Bit 3.
    DeliveryAck,
    /// A manual, or user, acknowledgement. Bit 4.
    ManualAck,
    /// A conversation abort. Bits 3 and 4.
    Abort,
}

/// The GSM feature of the message.
#[derive(Clone, Copy, Debug, PartialEq, Eq, Structural)]
pub enum EsmClassGsm {
    /// No feature. No bit set.
    NoFeature,
    /// The message starts with a user data header. Bit 6.
    UDHI,
    /// A reply path is set. Bit 7.
    ReplyPath,
    /// User data header and reply path. Bits 6 and 7.
    UDHIandReplyPath,
}

impl EsmClassMessageMode {
    /// The bits of each mode.
    pub open spec fn bits(&self) -> u8 {
        match *self {
            EsmClassMessageMode::Default => 0b0000_0000,
            EsmClassMessageMode::Datagram => 0b0000_0001,
            EsmClassMessageMode::Forward => 0b0000_0010,
            EsmClassMessageMode::StoreForward => 0b0000_0011,
        }
    }

    /// The mode whose bits are `n`, if there is one.
    pub open spec fn of_bits(n: u8) -> Option<EsmClassMessageMode> {
        match n {
            0b0000_0000 => Some(EsmClassMessageMode::Default),
            0b0000_0001 => Some(EsmClassMessageMode::Datagram),
            0b0000_0010 => Some(EsmClassMessageMode::Forward),
            0b0000_0011 => Some(EsmClassMessageMode::StoreForward),
            _ => None,
        }
    }

    /// The mode whose bits are `n`, if there is one.
    pub fn from_u8(n: u8) -> (r: Option<EsmClassMessageMode>)
        ensures
            r == Self::of_bits(n),
    {
        match n {
            0b0000_0000 => Some(EsmClassMessageMode::Default),
            0b0000_0001 => Some(EsmClassMessageMode::Datagram),
            0b0000_0010 => Some(EsmClassMessageMode::Forward),
            0b0000_0011 => Some(EsmClassMessageMode::StoreForward),
            _ => None,
        }
    }

    /// The bits of the mode.
    pub fn to_u8(&self) -> (n: u8)
        ensures
            n == self.bits(),
    {
        match self {
            EsmClassMessageMode::Default => 0b0000_0000,
            EsmClassMessageMode::Datagram => 0b0000_0001,
            EsmClassMessageMode::Forward => 0b0000_0010,
            EsmClassMessageMode::StoreForward => 0b0000_0011,
        }
    }
}

impl Default for EsmClassMessageMode {
    fn default() -> (r: Self)
        ensures
            r == EsmClassMessageMode::Default,
    {
        EsmClassMessageMode::Default
    }
}

impl EsmClassMessageType {
    /// The bits of each type.
    pub open spec fn bits(&self) -> u8 {
        match *self {
            EsmClassMessageType::Default => 0b0000_0000,
            EsmClassMessageType::DeliveryReceipt => 0b0000_0100,
            EsmClassMessageType::IntermediateDeliveryNotification => 0b0010_0000,
            EsmClassMessageType::Reserved => 0b0010_0100,
        }
    }

    /// The type whose bits are `n`, if there is one.
    pub open spec fn of_bits(n: u8) -> Option<EsmClassMessageType> {
        match n {
            0b0000_0000 => Some(EsmClassMessageType::Default),
            0b0000_0100 => Some(EsmClassMessageType::DeliveryReceipt),
            0b0010_0000 => Some(EsmClassMessageType::IntermediateDeliveryNotification),
            0b0010_0100 => Some(EsmClassMessageType::Reserved),
            _ => None,
        }
    }

    /// The type whose bits are `n`, if there is one.
    pub fn from_u8(n: u8) -> (r: Option<EsmClassMessageType>)
        ensures
            r == Self::of_bits(n),
    {
        match n {
            0b0000_0000 => Some(EsmClassMessageType::Default),
            0b0000_0100 => Some(EsmClassMessageType::DeliveryReceipt),
            0b0010_0000 => Some(EsmClassMessageType::IntermediateDeliveryNotification),
            0b0010_0100 => Some(EsmClassMessageType::Reserved),
            _ => None,
        }
    }

    /// The bits of the type.
    pub fn to_u8(&self) -> (n: u8)
        ensures
            n == self.bits(),
    {
        match self {
            EsmClassMessageType::Default => 0b0000_0000,
            EsmClassMessageType::DeliveryReceipt => 0b0000_0100,
            EsmClassMessageType::IntermediateDeliveryNotification => 0b0010_0000,
            EsmClassMessageType::Reserved => 0b0010_0100,
        }
    }
}

impl Default for EsmClassMessageType {
    fn default() -> (r: Self)
        ensures
            r == EsmClassMessageType::Default,
    {
        EsmClassMessageType::Default
    }
}

impl EsmClassAnsi41 {
    /// The bits of each feature.
    pub open spec fn bits(&self) -> u8 {
        match *self {
            EsmClassAnsi41::NoFeature => 0b0000_0000,
            EsmClassAnsi41::DeliveryAck => 0b0000_1000,
            EsmClassAnsi41::ManualAck => 0b0001_0000,
            EsmClassAnsi41::Abort => 0b0001_1000,
        }
    }

    /// The feature whose bits are `n`, if there is one.
    pub open spec fn of_bits(n: u8) -> Option<EsmClassAnsi41> {
        match n {
            0b0000_0000 => Some(EsmClassAnsi41::NoFeature),
            0b0000_1000 => Some(EsmClassAnsi41::DeliveryAck),
            0b0001_0000 => Some(EsmClassAnsi41::ManualAck),
            0b0001_1000 => Some(EsmClassAnsi41::Abort),
            _ => None,
        }
    }

    /// The feature whose bits are `n`, if there is one.
    pub fn from_u8(n: u8) -> (r: Option<EsmClassAnsi41>)
        ensures
            r == Self::of_bits(n),
    {
        match n {
            0b0000_0000 => Some(EsmClassAnsi41::NoFeature),
            0b0000_1000 => Some(EsmClassAnsi41::DeliveryAck),
            0b0001_0000 => Some(EsmClassAnsi41::ManualAck),
            0b0001_1000 => Some(EsmClassAnsi41::Abort),
            _ => None,
        }
    }

    /// The bits of the feature.
    pub fn to_u8(&self) -> (n: u8)
        ensures
            n == self.bits(),
    {
        match self {
            EsmClassAnsi41::NoFeature => 0b0000_0000,
            EsmClassAnsi41::DeliveryAck => 0b0000_1000,
            EsmClassAnsi41::ManualAck => 0b0001_0000,
            EsmClassAnsi41::Abort => 0b0001_1000,
        }
    }
}

impl Default for EsmClassAnsi41 {
    fn default() -> (r: Self)
        ensures
            r == EsmClassAnsi41::NoFeature,
    {
        EsmClassAnsi41::NoFeature
    }
}

impl EsmClassGsm {
    /// The bits of each feature.
    pub open spec fn bits(&self) -> u8 {
        match *self {
            EsmClassGsm::NoFeature => 0b0000_0000,
            EsmClassGsm::UDHI => 0b0100_0000,
            EsmClassGsm::ReplyPath => 0b1000_0000,
            EsmClassGsm::UDHIandReplyPath => 0b1100_0000,
        }
    }

    /// The feature whose bits are `n`, if there is one.
    pub open spec fn of_bits(n: u8) -> Option<EsmClassGsm> {
        match n {
            0b0000_0000 => Some(EsmClassGsm::NoFeature),
            0b0100_0000 => Some(EsmClassGsm::UDHI),
            0b1000_0000 => Some(EsmClassGsm::ReplyPath),
            0b1100_0000 => Some(EsmClassGsm::UDHIandReplyPath),
            _ => None,
        }
    }

    /// The feature whose bits are `n`, if there is one.
    pub fn from_u8(n: u8) -> (r: Option<EsmClassGsm>)
        ensures
            r == Self::of_bits(n),
    {
        match n {
            0b0000_0000 => Some(EsmClassGsm::NoFeature),
            0b0100_0000 => Some(EsmClassGsm::UDHI),
            0b1000_0000 => Some(EsmClassGsm::ReplyPath),
            0b1100_0000 => Some(EsmClassGsm::UDHIandReplyPath),
            _ => None,
        }
    }

    /// The bits of the feature.
    pub fn to_u8(&self) -> (n: u8)
        ensures
            n == self.bits(),
    {
        match self {
            EsmClassGsm::NoFeature => 0b0000_0000,
            EsmClassGsm::UDHI => 0b0100_0000,
            EsmClassGsm::ReplyPath => 0b1000_0000,
            EsmClassGsm::UDHIandReplyPath => 0b1100_0000,
        }
    }
}

impl Default for EsmClassGsm {
    fn default() -> (r: Self)
        ensures
            r == EsmClassGsm::NoFeature,
    {
        EsmClassGsm::NoFeature
    }
}

/// The special attributes of a short message.
#[derive(Clone, Copy, Debug, PartialEq, Eq, Structural)]
pub struct EsmClass {
    pub message_mode: EsmClassMessageMode,
    pub message_type: EsmClassMessageType,
    pub ansi41: EsmClassAnsi41,
    pub gsm: EsmClassGsm,
}

/// What an `Option` holds, or `d` in place of nothing.
pub open spec fn or_default<T>(o: Option<T>, d: T) -> T {
    match o {
        Some(x) => x,
        None => d,
    }
}

impl EsmClass {
    /// The four fields that the octet `u` packs. Each is read from its own
    /// bits, and every combination of a field's bits spells one of its
    /// variants.
    pub open spec fn of_octet(u: u8) -> EsmClass {
        EsmClass {
            message_mode: or_default(
                EsmClassMessageMode::of_bits(u & MESSAGE_MODE_MASK),
                EsmClassMessageMode::Default,
            ),
            message_type: or_default(
                EsmClassMessageType::of_bits(u & MESSAGE_TYPE_MASK),
                EsmClassMessageType::Default,
            ),
            ansi41: or_default(EsmClassAnsi41::of_bits(u & ANSI41_MASK), EsmClassAnsi41::NoFeature),
            gsm: or_default(EsmClassGsm::of_bits(u & GSM_MASK), EsmClassGsm::NoFeature),
        }
    }

    /// The octet that packs the four fields: the sum of their bits, which
    /// never overlap.
    pub open spec fn octet(&self) -> u8 {
        (self.message_mode.bits() + self.message_type.bits() + self.ansi41.bits()
            + self.gsm.bits()) as u8
    }

    /// What decoding makes of the bytes `s`.
    pub open spec fn parse(s: Seq<u8>) -> Result<(EsmClass, Seq<u8>), CodecError> {
        match parse_u8(s) {
            Ok((u, tail)) => Ok((Self::of_octet(u), tail)),
            Err(e) => Err(e),
        }
    }

    /// Reads the octet and unpacks it. On failure nothing is consumed.
    pub fn decode(decoder: &mut Decoder<'_>) -> (r: Result<EsmClass, CodecError>)
        ensures
            match Self::parse(old(decoder)@) {
                Ok((v, tail)) => r == Ok::<EsmClass, CodecError>(v) && final(decoder)@ == tail,
                Err(e) => r == Err::<EsmClass, CodecError>(e) && final(decoder)@ == old(
                    decoder,
                )@,
            },
    {
        let u = decoder.read_u8()?;
        Ok(EsmClass::from(u))
    }
}

impl From<u8> for EsmClass {
    fn from(u: u8) -> (r: Self) {
        let message_mode = match EsmClassMessageMode::from_u8(u & MESSAGE_MODE_MASK) {
            Some(x) => x,
            None => EsmClassMessageMode::default(),
        };
        let message_type = match EsmClassMessageType::from_u8(u & MESSAGE_TYPE_MASK) {
            Some(x) => x,
            None => EsmClassMessageType::default(),
        };
        let ansi41 = match EsmClassAnsi41::from_u8(u & ANSI41_MASK) {
            Some(x) => x,
            None => EsmClassAnsi41::default(),
        };
        let gsm = match EsmClassGsm::from_u8(u & GSM_MASK) {
            Some(x) => x,
            None => EsmClassGsm::default(),
        };
        EsmClass { message_mode, message_type, ansi41, gsm }
    }
}

impl FromSpecImpl<u8> for EsmClass {
    open spec fn obeys_from_spec() -> bool {
        true
    }

    open spec fn from_spec(u: u8) -> EsmClass {
        EsmClass::of_octet(u)
    }
}

impl From<EsmClass> for u8 {
    fn from(x: EsmClass) -> (r: u8) {
        x.message_mode.to_u8() + x.message_type.to_u8() + x.ansi41.to_u8() + x.gsm.to_u8()
    }
}

impl FromSpecImpl<EsmClass> for u8 {
    open spec fn obeys_from_spec() -> bool {
        true
    }

    open spec fn from_spec(x: EsmClass) -> u8 {
        x.octet()
    }
}

impl Encode for EsmClass {
    open spec fn wire(&self) -> Seq<u8> {
        seq![self.octet()]
    }

    open spec fn encodable(&self) -> bool {
        true
    }

    fn encode(&self, encoder: &mut Encoder) -> (r: Result<(), CodecError>) {
        encoder.write_u8(u8::from(*self));
        Ok(())
    }
}

/// The four masks share no bit and together cover the octet.
pub proof fn lemma_esm_class_masks()
    ensures
        MESSAGE_MODE_MASK & MESSAGE_TYPE_MASK == 0,
        MESSAGE_MODE_MASK & ANSI41_MASK == 0,
        MESSAGE_MODE_MASK & GSM_MASK == 0,
        MESSAGE_TYPE_MASK & ANSI41_MASK == 0,
        MESSAGE_TYPE_MASK & GSM_MASK == 0,
        ANSI41_MASK & GSM_MASK == 0,
        MESSAGE_MODE_MASK | MESSAGE_TYPE_MASK | ANSI41_MASK | GSM_MASK == 0xFF,
{
    assert(0b0000_0011u8 & 0b0010_0100u8 == 0) by (bit_vector);
    assert(0b0000_0011u8 & 0b0001_1000u8 == 0) by (bit_vector);
    assert(0b0000_0011u8 & 0b1100_0000u8 == 0) by (bit_vector);
    assert(0b0010_0100u8 & 0b0001_1000u8 == 0) by (bit_vector);
    assert(0b0010_0100u8 & 0b1100_0000u8 == 0) by (bit_vector);
    assert(0b0001_1000u8 & 0b1100_0000u8 == 0) by (bit_vector);
    assert(0b0000_0011u8 | 0b0010_0100u8 | 0b0001_1000u8 | 0b1100_0000u8 == 0xFF) by (bit_vector);
}

/// Whatever the octet, the bits of each field spell one of its variants.
pub proof fn lemma_esm_class_fields_total(u: u8)
    ensures
        EsmClassMessageMode::of_bits(u & MESSAGE_MODE_MASK) is Some,
        EsmClassMessageType::of_bits(u & MESSAGE_TYPE_MASK) is Some,
        EsmClassAnsi41::of_bits(u & ANSI41_MASK) is Some,
        EsmClassGsm::of_bits(u & GSM_MASK) is Some,
{
    let a = u & 0b0000_0011;
    let b = u & 0b0010_0100;
    let c = u & 0b0001_1000;
    let d = u & 0b1100_0000;
    assert(a <= 3 && (b == 0 || b == 0b0000_0100 || b == 0b0010_0000 || b == 0b0010_0100) && (c
        == 0 || c == 0b0000_1000 || c == 0b0001_0000 || c == 0b0001_1000) && (d == 0 || d
        == 0b0100_0000 || d == 0b1000_0000 || d == 0b1100_0000)) by (bit_vector)
        requires
            a == u & 0b0000_0011,
            b == u & 0b0010_0100,
            c == u & 0b0001_1000,
            d == u & 0b1100_0000,
    ;
}

/// Packing the four fields and unpacking the octet gives the fields back.
pub proof fn lemma_esm_class_round_trip(x: EsmClass)
    ensures
        EsmClass::of_octet(x.octet()) == x,
{
    let u = x.octet();
    let a = x.message_mode.bits();
    let b = x.message_type.bits();
    let c = x.ansi41.bits();
    let d = x.gsm.bits();
    assert(u & 0b0000_0011 == a && u & 0b0010_0100 == b && u & 0b0001_1000 == c && u
        & 0b1100_0000 == d) by (bit_vector)
        requires
            u == a + b + c + d,
            a <= 3,
            b == 0 || b == 0b0000_0100 || b == 0b0010_0000 || b == 0b0010_0100,
            c == 0 || c == 0b0000_1000 || c == 0b0001_0000 || c == 0b0001_1000,
            d == 0 || d == 0b0100_0000 || d == 0b1000_0000 || d == 0b1100_0000,
    ;
}

/// Unpacking an octet and packing the fields gives the octet back, whatever
/// the octet.
pub proof fn lemma_esm_class_octet_kept(u: u8)
    ensures
        EsmClass::of_octet(u).octet() == u,
{
    let a = u & 0b0000_0011;
    let b = u & 0b0010_0100;
    let c = u & 0b0001_1000;
    let d = u & 0b1100_0000;
    assert(a + b + c + d == u && a <= 3 && (b == 0 || b == 0b0000_0100 || b == 0b0010_0000 || b
        == 0b0010_0100) && (c == 0 || c == 0b0000_1000 || c == 0b0001_0000 || c == 0b0001_1000)
        && (d == 0 || d == 0b0100_0000 || d == 0b1000_0000 || d == 0b1100_0000)) by (bit_vector)
        requires
            a == u & 0b0000_0011,
            b == u & 0b0010_0100,
            c == u & 0b0001_1000,
            d == u & 0b1100_0000,
    ;
}

} // verus!
