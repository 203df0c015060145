//! Session management: binding and unbinding, the link check, the alert and
//! the generic negative acknowledgement.

use crate::smpp::pdu::typedef::c_octet::{lemma_c_octet_round_trip, no_nul, COctet};
use crate::smpp::pdu::typedef::tlv::{
    lemma_tlv_list_round_trip, lemma_tlv_optional_round_trip, tag_canonical, tags_canonical,
    tlv_view_of, tlv_views, TlvView, TLV,
};
use crate::smpp::pdu::wire::{
    lemma_concat_assoc, lemma_u8_round_trip, parse_u8, rest, value, CodecError, Decoder, Encode,
    Encoder,
};
use vstd::prelude::*;

verus! {

/// The request to open a session, as transmitter, receiver or transceiver.
#[derive(Clone, Debug, PartialEq, Eq)]
pub struct Bind {
    /// Who asks to bind.
    pub system_id: COctet,
    /// The password that goes with `system_id`.
    pub password: COctet,
    /// The kind of system that asks.
    pub system_type: COctet,
    /// The version of the protocol that the ESME speaks.
    pub interface_version: u8,
    /// The type of number of the addresses served; 0 if not known.
    pub addr_ton: u8,
    /// The numbering plan of the addresses served; 0 if not known.
    pub addr_npi: u8,
    /// The addresses served; empty if not known.
    pub address_range: COctet,
}

/// [`Bind`] as a mathematical value.
pub struct BindView {
    pub system_id: Seq<u8>,
    pub password: Seq<u8>,
    pub system_type: Seq<u8>,
    pub interface_version: u8,
    pub addr_ton: u8,
    pub addr_npi: u8,
    pub address_range: Seq<u8>,
}

impl View for Bind {
    type V = BindView;

    open spec fn view(&self) -> BindView {
        BindView {
            system_id: self.system_id@,
            password: self.password@,
            system_type: self.system_type@,
            interface_version: self.interface_version,
            addr_ton: self.addr_ton,
            addr_npi: self.addr_npi,
            address_range: self.address_range@,
        }
    }
}

impl BindView {
    /// Whether the body can be written: every stated length is the length of
    /// what it counts.
    pub open spec fn encodable(self) -> bool {
        true
    }

    /// The fields in the order of the wire, each in its own wire form.
    pub open spec fn wire(self) -> Seq<u8> {
        COctet::wire_of(self.system_id)
            + COctet::wire_of(self.password)
            + COctet::wire_of(self.system_type)
            + seq![self.interface_version]
            + seq![self.addr_ton]
            + seq![self.addr_npi]
            + COctet::wire_of(self.address_range)
    }

    /// What decoding makes of the bytes `s`: each field is read from where the
    /// one before it ended, and the first that cannot be read gives the error.
    pub open spec fn parse(s: Seq<u8>) -> Result<(BindView, Seq<u8>), CodecError> {
        let system_id = COctet::parse(s);
        let password = COctet::parse(rest(system_id));
        let system_type = COctet::parse(rest(password));
        let interface_version = parse_u8(rest(system_type));
        let addr_ton = parse_u8(rest(interface_version));
        let addr_npi = parse_u8(rest(addr_ton));
        let address_range = COctet::parse(rest(addr_npi));
        if system_id is Err {
            Err(system_id->Err_0)
        } else if password is Err {
            Err(password->Err_0)
        } else if system_type is Err {
            Err(system_type->Err_0)
        } else if interface_version is Err {
            Err(interface_version->Err_0)
        } else if addr_ton is Err {
            Err(addr_ton->Err_0)
        } else if addr_npi is Err {
            Err(addr_npi->Err_0)
        } else if address_range is Err {
            Err(address_range->Err_0)
        } else {
            Ok(
                (
                    BindView {
                        system_id: value(system_id),
                        password: value(password),
                        system_type: value(system_type),
                        interface_version: value(interface_version),
                        addr_ton: value(addr_ton),
                        addr_npi: value(addr_npi),
                        address_range: value(address_range),
                    },
                    rest(address_range),
                ),
            )
        }
    }
}

impl Bind {
    /// Reads the body. On failure nothing is consumed.
    pub fn decode(decoder: &mut Decoder<'_>) -> (r: Result<Bind, CodecError>)
        ensures
            match BindView::parse(old(decoder)@) {
                Ok((v, tail)) => r is Ok && r->Ok_0@ == v && final(decoder)@ == tail,
                Err(e) => r == Err::<Bind, CodecError>(e) && final(decoder)@ == old(decoder)@,
            },
    {
        let mut d = *decoder;
        let system_id = COctet::decode(&mut d)?;
        let password = COctet::decode(&mut d)?;
        let system_type = COctet::decode(&mut d)?;
        let interface_version = d.read_u8()?;
        let addr_ton = d.read_u8()?;
        let addr_npi = d.read_u8()?;
        let address_range = COctet::decode(&mut d)?;
        *decoder = d;
        Ok(Bind { system_id, password, system_type, interface_version, addr_ton, addr_npi, address_range })
    }
}

impl Encode for Bind {
    open spec fn wire(&self) -> Seq<u8> {
        self@.wire()
    }

    open spec fn encodable(&self) -> bool {
        self@.encodable()
    }

    fn encode(&self, encoder: &mut Encoder) -> (r: Result<(), CodecError>) {
        let _ = self.system_id.encode(encoder);
        let _ = self.password.encode(encoder);
        let _ = self.system_type.encode(encoder);
        encoder.write_u8(self.interface_version);
        encoder.write_u8(self.addr_ton);
        encoder.write_u8(self.addr_npi);
        let _ = self.address_range.encode(encoder);
        assert(encoder@ =~= old(encoder)@ + self@.wire());
        Ok(())
    }
}

/// The body survives the trip over the wire, whatever bytes follow it, if
/// it can be written and its strings hold no `0x00`.
pub proof fn lemma_bind_round_trip(v: BindView, tail: Seq<u8>)
    requires
        v.encodable(),
        no_nul(v.system_id),
        no_nul(v.password),
        no_nul(v.system_type),
        no_nul(v.address_range),
    ensures
        BindView::parse(v.wire() + tail) == Ok::<(BindView, Seq<u8>), CodecError>((v, tail)),
{
    let from6 = COctet::wire_of(v.address_range) + tail;
    let from5 = seq![v.addr_npi] + from6;
    let from4 = seq![v.addr_ton] + from5;
    let from3 = seq![v.interface_version] + from4;
    let from2 = COctet::wire_of(v.system_type) + from3;
    let from1 = COctet::wire_of(v.password) + from2;
    let upto0 = COctet::wire_of(v.system_id);
    let upto1 = upto0 + COctet::wire_of(v.password);
    let upto2 = upto1 + COctet::wire_of(v.system_type);
    let upto3 = upto2 + seq![v.interface_version];
    let upto4 = upto3 + seq![v.addr_ton];
    let upto5 = upto4 + seq![v.addr_npi];
    lemma_concat_assoc(upto5, COctet::wire_of(v.address_range), tail);
    lemma_concat_assoc(upto4, seq![v.addr_npi], from6);
    lemma_concat_assoc(upto3, seq![v.addr_ton], from5);
    lemma_concat_assoc(upto2, seq![v.interface_version], from4);
    lemma_concat_assoc(upto1, COctet::wire_of(v.system_type), from3);
    lemma_concat_assoc(upto0, COctet::wire_of(v.password), from2);
    lemma_c_octet_round_trip(v.system_id, from1);
    lemma_c_octet_round_trip(v.password, from2);
    lemma_c_octet_round_trip(v.system_type, from3);
    lemma_u8_round_trip(v.interface_version, from4);
    lemma_u8_round_trip(v.addr_ton, from5);
    lemma_u8_round_trip(v.addr_npi, from6);
    lemma_c_octet_round_trip(v.address_range, tail);
}

/// The answer to a request to bind.
#[derive(Clone, Debug, PartialEq, Eq)]
pub struct BindResp {
    /// The message centre that answers.
    pub system_id: COctet,
    /// The version of the protocol that the message centre speaks, if it says.
    pub sc_interface_version: Option<TLV>,
}

/// [`BindResp`] as a mathematical value.
pub struct BindRespView {
    pub system_id: Seq<u8>,
    pub sc_interface_version: Option<TlvView>,
}

impl View for BindResp {
    type V = BindRespView;

    open spec fn view(&self) -> BindRespView {
        BindRespView {
            system_id: self.system_id@,
            sc_interface_version: tlv_view_of(self.sc_interface_version),
        }
    }
}

impl BindRespView {
    /// Whether the body can be written: every stated length is the length of
    /// what it counts.
    pub open spec fn encodable(self) -> bool {
        &&& TlvView::optional_encodable(self.sc_interface_version)
    }

    /// The fields in the order of the wire, each in its own wire form.
    pub open spec fn wire(self) -> Seq<u8> {
        COctet::wire_of(self.system_id)
            + TlvView::optional_wire(self.sc_interface_version)
    }

    /// What decoding makes of the bytes `s`: each field is read from where the
    /// one before it ended, and the first that cannot be read gives the error.
    pub open spec fn parse(s: Seq<u8>) -> Result<(BindRespView, Seq<u8>), CodecError> {
        let system_id = COctet::parse(s);
        let sc_interface_version = TlvView::parse_optional(rest(system_id));
        if system_id is Err {
            Err(system_id->Err_0)
        } else {
            Ok(
                (
                    BindRespView {
                        system_id: value(system_id),
                        sc_interface_version: sc_interface_version.0,
                    },
                    sc_interface_version.1,
                ),
            )
        }
    }
}

impl BindResp {
    /// Reads the body. On failure nothing is consumed.
    pub fn decode(decoder: &mut Decoder<'_>) -> (r: Result<BindResp, CodecError>)
        ensures
            match BindRespView::parse(old(decoder)@) {
                Ok((v, tail)) => r is Ok && r->Ok_0@ == v && final(decoder)@ == tail,
                Err(e) => r == Err::<BindResp, CodecError>(e) && final(decoder)@ == old(decoder)@,
            },
    {
        let mut d = *decoder;
        let system_id = COctet::decode(&mut d)?;
        let sc_interface_version = match TLV::decode(&mut d) {
            Ok(t) => Some(t),
            Err(_) => None,
        };
        *decoder = d;
        Ok(BindResp { system_id, sc_interface_version })
    }
}

impl Encode for BindResp {
    open spec fn wire(&self) -> Seq<u8> {
        self@.wire()
    }

    open spec fn encodable(&self) -> bool {
        self@.encodable()
    }

    fn encode(&self, encoder: &mut Encoder) -> (r: Result<(), CodecError>) {
        if let Some(t) = &self.sc_interface_version {
            if t.val.len() != t.len as usize {
                return Err(CodecError::InvalidArgument);
            }
        }
        let _ = self.system_id.encode(encoder);
        if let Some(t) = &self.sc_interface_version {
            let _ = t.encode(encoder);
        }
        assert(encoder@ =~= old(encoder)@ + self@.wire());
        Ok(())
    }
}

/// The body survives the trip over the wire, whatever bytes follow it, if
/// it can be written, its strings hold no `0x00`, its tags are canonical and
/// the bytes that follow do not themselves read as a parameter.
pub proof fn lemma_bind_resp_round_trip(v: BindRespView, tail: Seq<u8>)
    requires
        v.encodable(),
        no_nul(v.system_id),
        v.sc_interface_version matches Some(t) ==> tag_canonical(t.tag),
        TlvView::parse(tail) is Err,
    ensures
        BindRespView::parse(v.wire() + tail) == Ok::<(BindRespView, Seq<u8>), CodecError>(
            (v, tail),
        ),
{
    let from1 = TlvView::optional_wire(v.sc_interface_version) + tail;
    let upto0 = COctet::wire_of(v.system_id);
    lemma_concat_assoc(upto0, TlvView::optional_wire(v.sc_interface_version), tail);
    lemma_c_octet_round_trip(v.system_id, from1);
    lemma_tlv_optional_round_trip(v.sc_interface_version, tail);
}

/// `outbind`: the message centre asks an ESME to bind as a receiver.
#[derive(Clone, Debug, PartialEq, Eq)]
pub struct OutBind {
    /// The message centre that asks.
    pub system_id: COctet,
    /// The password by which the ESME may know the message centre.
    pub password: COctet,
}

/// [`OutBind`] as a mathematical value.
pub struct OutBindView {
    pub system_id: Seq<u8>,
    pub password: Seq<u8>,
}

impl View for OutBind {
    type V = OutBindView;

    open spec fn view(&self) -> OutBindView {
        OutBindView {
            system_id: self.system_id@,
            password: self.password@,
        }
    }
}

impl OutBindView {
    /// Whether the body can be written: every stated length is the length of
    /// what it counts.
    pub open spec fn encodable(self) -> bool {
        true
    }

    /// The fields in the order of the wire, each in its own wire form.
    pub open spec fn wire(self) -> Seq<u8> {
        COctet::wire_of(self.system_id)
            + COctet::wire_of(self.password)
    }

    /// What decoding makes of the bytes `s`: each field is read from where the
    /// one before it ended, and the first that cannot be read gives the error.
    pub open spec fn parse(s: Seq<u8>) -> Result<(OutBindView, Seq<u8>), CodecError> {
        let system_id = COctet::parse(s);
        let password = COctet::parse(rest(system_id));
        if system_id is Err {
            Err(system_id->Err_0)
        } else if password is Err {
            Err(password->Err_0)
        } else {
            Ok(
                (
                    OutBindView {
                        system_id: value(system_id),
                        password: value(password),
                    },
                    rest(password),
                ),
            )
        }
    }
}

impl OutBind {
    /// Reads the body. On failure nothing is consumed.
    pub fn decode(decoder: &mut Decoder<'_>) -> (r: Result<OutBind, CodecError>)
        ensures
            match OutBindView::parse(old(decoder)@) {
                Ok((v, tail)) => r is Ok && r->Ok_0@ == v && final(decoder)@ == tail,
                Err(e) => r == Err::<OutBind, CodecError>(e) && final(decoder)@ == old(decoder)@,
            },
    {
        let mut d = *decoder;
        let system_id = COctet::decode(&mut d)?;
        let password = COctet::decode(&mut d)?;
        *decoder = d;
        Ok(OutBind { system_id, password })
    }
}

impl Encode for OutBind {
    open spec fn wire(&self) -> Seq<u8> {
        self@.wire()
    }

    open spec fn encodable(&self) -> bool {
        self@.encodable()
    }

    fn encode(&self, encoder: &mut Encoder) -> (r: Result<(), CodecError>) {
        let _ = self.system_id.encode(encoder);
        let _ = self.password.encode(encoder);
        assert(encoder@ =~= old(encoder)@ + self@.wire());
        Ok(())
    }
}

/// The body survives the trip over the wire, whatever bytes follow it, if
/// it can be written and its strings hold no `0x00`.
pub proof fn lemma_out_bind_round_trip(v: OutBindView, tail: Seq<u8>)
    requires
        v.encodable(),
        no_nul(v.system_id),
        no_nul(v.password),
    ensures
        OutBindView::parse(v.wire() + tail) == Ok::<(OutBindView, Seq<u8>), CodecError>((v, tail)),
{
    let from1 = COctet::wire_of(v.password) + tail;
    let upto0 = COctet::wire_of(v.system_id);
    lemma_concat_assoc(upto0, COctet::wire_of(v.password), tail);
    lemma_c_octet_round_trip(v.system_id, from1);
    lemma_c_octet_round_trip(v.password, tail);
}

/// `unbind`: the request to close the session. It has no body.
#[derive(Clone, Debug, PartialEq, Eq)]
pub struct Unbind {
}

/// [`Unbind`] as a mathematical value.
pub struct UnbindView {
}

impl View for Unbind {
    type V = UnbindView;

    open spec fn view(&self) -> UnbindView {
        UnbindView {
        }
    }
}

impl UnbindView {
    /// Whether the body can be written: every stated length is the length of
    /// what it counts.
    pub open spec fn encodable(self) -> bool {
        true
    }

    /// The fields in the order of the wire, each in its own wire form.
    pub open spec fn wire(self) -> Seq<u8> {
        Seq::empty()
    }

    /// What decoding makes of the bytes `s`: each field is read from where the
    /// one before it ended, and the first that cannot be read gives the error.
    pub open spec fn parse(s: Seq<u8>) -> Result<(UnbindView, Seq<u8>), CodecError> {
        Ok(
            (
                UnbindView {
                },
                s,
            ),
        )
    }
}

impl Unbind {
    /// Reads the body. On failure nothing is consumed.
    pub fn decode(decoder: &mut Decoder<'_>) -> (r: Result<Unbind, CodecError>)
        ensures
            match UnbindView::parse(old(decoder)@) {
                Ok((v, tail)) => r is Ok && r->Ok_0@ == v && final(decoder)@ == tail,
                Err(e) => r == Err::<Unbind, CodecError>(e) && final(decoder)@ == old(decoder)@,
            },
    {
        Ok(Unbind {  })
    }
}

impl Encode for Unbind {
    open spec fn wire(&self) -> Seq<u8> {
        self@.wire()
    }

    open spec fn encodable(&self) -> bool {
        self@.encodable()
    }

    fn encode(&self, encoder: &mut Encoder) -> (r: Result<(), CodecError>) {
        assert(encoder@ =~= old(encoder)@ + self@.wire());
        Ok(())
    }
}

/// The body takes no bytes, and decoding takes none.
pub proof fn lemma_unbind_round_trip(v: UnbindView, tail: Seq<u8>)
    ensures
        UnbindView::parse(v.wire() + tail) == Ok::<(UnbindView, Seq<u8>), CodecError>((v, tail)),
{
    assert(v.wire() + tail =~= tail);
}

/// `unbind_resp`: the answer to `unbind`. It has no body.
#[derive(Clone, Debug, PartialEq, Eq)]
pub struct UnbindResp {
}

/// [`UnbindResp`] as a mathematical value.
pub struct UnbindRespView {
}

impl View for UnbindResp {
    type V = UnbindRespView;

    open spec fn view(&self) -> UnbindRespView {
        UnbindRespView {
        }
    }
}

impl UnbindRespView {
    /// Whether the body can be written: every stated length is the length of
    /// what it counts.
    pub open spec fn encodable(self) -> bool {
        true
    }

    /// The fields in the order of the wire, each in its own wire form.
    pub open spec fn wire(self) -> Seq<u8> {
        Seq::empty()
    }

    /// What decoding makes of the bytes `s`: each field is read from where the
    /// one before it ended, and the first that cannot be read gives the error.
    pub open spec fn parse(s: Seq<u8>) -> Result<(UnbindRespView, Seq<u8>), CodecError> {
        Ok(
            (
                UnbindRespView {
                },
                s,
            ),
        )
    }
}

impl UnbindResp {
    /// Reads the body. On failure nothing is consumed.
    pub fn decode(decoder: &mut Decoder<'_>) -> (r: Result<UnbindResp, CodecError>)
        ensures
            match UnbindRespView::parse(old(decoder)@) {
                Ok((v, tail)) => r is Ok && r->Ok_0@ == v && final(decoder)@ == tail,
                Err(e) => r == Err::<UnbindResp, CodecError>(e) && final(decoder)@ == old(decoder)@,
            },
    {
        Ok(UnbindResp {  })
    }
}

impl Encode for UnbindResp {
    open spec fn wire(&self) -> Seq<u8> {
        self@.wire()
    }

    open spec fn encodable(&self) -> bool {
        self@.encodable()
    }

    fn encode(&self, encoder: &mut Encoder) -> (r: Result<(), CodecError>) {
        assert(encoder@ =~= old(encoder)@ + self@.wire());
        Ok(())
    }
}

/// The body takes no bytes, and decoding takes none.
pub proof fn lemma_unbind_resp_round_trip(v: UnbindRespView, tail: Seq<u8>)
    ensures
        UnbindRespView::parse(v.wire() + tail) == Ok::<(UnbindRespView, Seq<u8>), CodecError>(
            (v, tail),
        ),
{
    assert(v.wire() + tail =~= tail);
}

/// `enquire_link`: the link check. It has no body.
#[derive(Clone, Debug, PartialEq, Eq)]
pub struct EnquireLink {
}

/// [`EnquireLink`] as a mathematical value.
pub struct EnquireLinkView {
}

impl View for EnquireLink {
    type V = EnquireLinkView;

    open spec fn view(&self) -> EnquireLinkView {
        EnquireLinkView {
        }
    }
}

impl EnquireLinkView {
    /// Whether the body can be written: every stated length is the length of
    /// what it counts.
    pub open spec fn encodable(self) -> bool {
        true
    }

    /// The fields in the order of the wire, each in its own wire form.
    pub open spec fn wire(self) -> Seq<u8> {
        Seq::empty()
    }

    /// What decoding makes of the bytes `s`: each field is read from where the
    /// one before it ended, and the first that cannot be read gives the error.
    pub open spec fn parse(s: Seq<u8>) -> Result<(EnquireLinkView, Seq<u8>), CodecError> {
        Ok(
            (
                EnquireLinkView {
                },
                s,
            ),
        )
    }
}

impl EnquireLink {
    /// Reads the body. On failure nothing is consumed.
    pub fn decode(decoder: &mut Decoder<'_>) -> (r: Result<EnquireLink, CodecError>)
        ensures
            match EnquireLinkView::parse(old(decoder)@) {
                Ok((v, tail)) => r is Ok && r->Ok_0@ == v && final(decoder)@ == tail,
                Err(e) => r == Err::<EnquireLink, CodecError>(e) && final(decoder)@ == old(decoder)@,
            },
    {
        Ok(EnquireLink {  })
    }
}

impl Encode for EnquireLink {
    open spec fn wire(&self) -> Seq<u8> {
        self@.wire()
    }

    open spec fn encodable(&self) -> bool {
        self@.encodable()
    }

    fn encode(&self, encoder: &mut Encoder) -> (r: Result<(), CodecError>) {
        assert(encoder@ =~= old(encoder)@ + self@.wire());
        Ok(())
    }
}

/// The body takes no bytes, and decoding takes none.
pub proof fn lemma_enquire_link_round_trip(v: EnquireLinkView, tail: Seq<u8>)
    ensures
        EnquireLinkView::parse(v.wire() + tail) == Ok::<(EnquireLinkView, Seq<u8>), CodecError>(
            (v, tail),
        ),
{
    assert(v.wire() + tail =~= tail);
}

/// `enquire_link_resp`: the answer to the link check. It has no body.
#[derive(Clone, Debug, PartialEq, Eq)]
pub struct EnquireLinkResp {
}

/// [`EnquireLinkResp`] as a mathematical value.
pub struct EnquireLinkRespView {
}

impl View for EnquireLinkResp {
    type V = EnquireLinkRespView;

    open spec fn view(&self) -> EnquireLinkRespView {
        EnquireLinkRespView {
        }
    }
}

impl EnquireLinkRespView {
    /// Whether the body can be written: every stated length is the length of
    /// what it counts.
    pub open spec fn encodable(self) -> bool {
        true
    }

    /// The fields in the order of the wire, each in its own wire form.
    pub open spec fn wire(self) -> Seq<u8> {
        Seq::empty()
    }

    /// What decoding makes of the bytes `s`: each field is read from where the
    /// one before it ended, and the first that cannot be read gives the error.
    pub open spec fn parse(s: Seq<u8>) -> Result<(EnquireLinkRespView, Seq<u8>), CodecError> {
        Ok(
            (
                EnquireLinkRespView {
                },
                s,
            ),
        )
    }
}

impl EnquireLinkResp {
    /// Reads the body. On failure nothing is consumed.
    pub fn decode(decoder: &mut Decoder<'_>) -> (r: Result<EnquireLinkResp, CodecError>)
        ensures
            match EnquireLinkRespView::parse(old(decoder)@) {
                Ok((v, tail)) => r is Ok && r->Ok_0@ == v && final(decoder)@ == tail,
                Err(e) => r == Err::<EnquireLinkResp, CodecError>(e) && final(decoder)@ == old(decoder)@,
            },
    {
        Ok(EnquireLinkResp {  })
    }
}

impl Encode for EnquireLinkResp {
    open spec fn wire(&self) -> Seq<u8> {
        self@.wire()
    }

    open spec fn encodable(&self) -> bool {
        self@.encodable()
    }

    fn encode(&self, encoder: &mut Encoder) -> (r: Result<(), CodecError>) {
        assert(encoder@ =~= old(encoder)@ + self@.wire());
        Ok(())
    }
}

/// The body takes no bytes, and decoding takes none.
pub proof fn lemma_enquire_link_resp_round_trip(v: EnquireLinkRespView, tail: Seq<u8>)
    ensures
        EnquireLinkRespView::parse(v.wire() + tail) == Ok::<(EnquireLinkRespView, Seq<u8>), CodecError>(
            (v, tail),
        ),
{
    assert(v.wire() + tail =~= tail);
}

/// `generic_nack`: the answer to a header that could not be accepted. It has no body.
#[derive(Clone, Debug, PartialEq, Eq)]
pub struct GenericNack {
}

/// [`GenericNack`] as a mathematical value.
pub struct GenericNackView {
}

impl View for GenericNack {
    type V = GenericNackView;

    open spec fn view(&self) -> GenericNackView {
        GenericNackView {
        }
    }
}

impl GenericNackView {
    /// Whether the body can be written: every stated length is the length of
    /// what it counts.
    pub open spec fn encodable(self) -> bool {
        true
    }

    /// The fields in the order of the wire, each in its own wire form.
    pub open spec fn wire(self) -> Seq<u8> {
        Seq::empty()
    }

    /// What decoding makes of the bytes `s`: each field is read from where the
    /// one before it ended, and the first that cannot be read gives the error.
    pub open spec fn parse(s: Seq<u8>) -> Result<(GenericNackView, Seq<u8>), CodecError> {
        Ok(
            (
                GenericNackView {
                },
                s,
            ),
        )
    }
}

impl GenericNack {
    /// Reads the body. On failure nothing is consumed.
    pub fn decode(decoder: &mut Decoder<'_>) -> (r: Result<GenericNack, CodecError>)
        ensures
            match GenericNackView::parse(old(decoder)@) {
                Ok((v, tail)) => r is Ok && r->Ok_0@ == v && final(decoder)@ == tail,
                Err(e) => r == Err::<GenericNack, CodecError>(e) && final(decoder)@ == old(decoder)@,
            },
    {
        Ok(GenericNack {  })
    }
}

impl Encode for GenericNack {
    open spec fn wire(&self) -> Seq<u8> {
        self@.wire()
    }

    open spec fn encodable(&self) -> bool {
        self@.encodable()
    }

    fn encode(&self, encoder: &mut Encoder) -> (r: Result<(), CodecError>) {
        assert(encoder@ =~= old(encoder)@ + self@.wire());
        Ok(())
    }
}

/// The body takes no bytes, and decoding takes none.
pub proof fn lemma_generic_nack_round_trip(v: GenericNackView, tail: Seq<u8>)
    ensures
        GenericNackView::parse(v.wire() + tail) == Ok::<(GenericNackView, Seq<u8>), CodecError>(
            (v, tail),
        ),
{
    assert(v.wire() + tail =~= tail);
}

/// `alert_notification`: a subscriber has become available. There is no answer to it.
#[derive(Clone, Debug, PartialEq, Eq)]
pub struct AlertNotification {
    /// The type of number of the subscriber address.
    pub source_addr_ton: u8,
    /// The numbering plan of the subscriber address.
    pub source_addr_npi: u8,
    /// The subscriber that has become available.
    pub source_addr: COctet,
    /// The type of number of the ESME address.
    pub esme_addr_ton: u8,
    /// The numbering plan of the ESME address.
    pub esme_addr_npi: u8,
    /// The ESME that asked to be told.
    pub esme_addr: COctet,
    /// The optional parameters, in the order of the wire.
    pub ms_availability_status: Vec<TLV>,
}

/// [`AlertNotification`] as a mathematical value.
pub struct AlertNotificationView {
    pub source_addr_ton: u8,
    pub source_addr_npi: u8,
    pub source_addr: Seq<u8>,
    pub esme_addr_ton: u8,
    pub esme_addr_npi: u8,
    pub esme_addr: Seq<u8>,
    pub ms_availability_status: Seq<TlvView>,
}

impl View for AlertNotification {
    type V = AlertNotificationView;

    open spec fn view(&self) -> AlertNotificationView {
        AlertNotificationView {
            source_addr_ton: self.source_addr_ton,
            source_addr_npi: self.source_addr_npi,
            source_addr: self.source_addr@,
            esme_addr_ton: self.esme_addr_ton,
            esme_addr_npi: self.esme_addr_npi,
            esme_addr: self.esme_addr@,
            ms_availability_status: tlv_views(self.ms_availability_status@),
        }
    }
}

impl AlertNotificationView {
    /// Whether the body can be written: every stated length is the length of
    /// what it counts.
    pub open spec fn encodable(self) -> bool {
        &&& TlvView::list_encodable(self.ms_availability_status)
    }

    /// The fields in the order of the wire, each in its own wire form.
    pub open spec fn wire(self) -> Seq<u8> {
        seq![self.source_addr_ton]
            + seq![self.source_addr_npi]
            + COctet::wire_of(self.source_addr)
            + seq![self.esme_addr_ton]
            + seq![self.esme_addr_npi]
            + COctet::wire_of(self.esme_addr)
            + TlvView::list_wire(self.ms_availability_status)
    }

    /// What decoding makes of the bytes `s`: each field is read from where the
    /// one before it ended, and the first that cannot be read gives the error.
    pub open spec fn parse(s: Seq<u8>) -> Result<(AlertNotificationView, Seq<u8>), CodecError> {
        let source_addr_ton = parse_u8(s);
        let source_addr_npi = parse_u8(rest(source_addr_ton));
        let source_addr = COctet::parse(rest(source_addr_npi));
        let esme_addr_ton = parse_u8(rest(source_addr));
        let esme_addr_npi = parse_u8(rest(esme_addr_ton));
        let esme_addr = COctet::parse(rest(esme_addr_npi));
        let ms_availability_status = TlvView::parse_list(rest(esme_addr));
        if source_addr_ton is Err {
            Err(source_addr_ton->Err_0)
        } else if source_addr_npi is Err {
            Err(source_addr_npi->Err_0)
        } else if source_addr is Err {
            Err(source_addr->Err_0)
        } else if esme_addr_ton is Err {
            Err(esme_addr_ton->Err_0)
        } else if esme_addr_npi is Err {
            Err(esme_addr_npi->Err_0)
        } else if esme_addr is Err {
            Err(esme_addr->Err_0)
        } else {
            Ok(
                (
                    AlertNotificationView {
                        source_addr_ton: value(source_addr_ton),
                        source_addr_npi: value(source_addr_npi),
                        source_addr: value(source_addr),
                        esme_addr_ton: value(esme_addr_ton),
                        esme_addr_npi: value(esme_addr_npi),
                        esme_addr: value(esme_addr),
                        ms_availability_status: ms_availability_status.0,
                    },
                    ms_availability_status.1,
                ),
            )
        }
    }
}

impl AlertNotification {
    /// Reads the body. On failure nothing is consumed.
    pub fn decode(decoder: &mut Decoder<'_>) -> (r: Result<AlertNotification, CodecError>)
        ensures
            match AlertNotificationView::parse(old(decoder)@) {
                Ok((v, tail)) => r is Ok && r->Ok_0@ == v && final(decoder)@ == tail,
                Err(e) => r == Err::<AlertNotification, CodecError>(e) && final(decoder)@ == old(decoder)@,
            },
    {
        let mut d = *decoder;
        let source_addr_ton = d.read_u8()?;
        let source_addr_npi = d.read_u8()?;
        let source_addr = COctet::decode(&mut d)?;
        let esme_addr_ton = d.read_u8()?;
        let esme_addr_npi = d.read_u8()?;
        let esme_addr = COctet::decode(&mut d)?;
        let ms_availability_status = TLV::decode_list(&mut d);
        *decoder = d;
        Ok(AlertNotification { source_addr_ton, source_addr_npi, source_addr, esme_addr_ton, esme_addr_npi, esme_addr, ms_availability_status })
    }
}

impl Encode for AlertNotification {
    open spec fn wire(&self) -> Seq<u8> {
        self@.wire()
    }

    open spec fn encodable(&self) -> bool {
        self@.encodable()
    }

    fn encode(&self, encoder: &mut Encoder) -> (r: Result<(), CodecError>) {
        if !TLV::list_is_encodable(&self.ms_availability_status) {
            return Err(CodecError::InvalidArgument);
        }
        encoder.write_u8(self.source_addr_ton);
        encoder.write_u8(self.source_addr_npi);
        let _ = self.source_addr.encode(encoder);
        encoder.write_u8(self.esme_addr_ton);
        encoder.write_u8(self.esme_addr_npi);
        let _ = self.esme_addr.encode(encoder);
        let _ = TLV::encode_list(&self.ms_availability_status, encoder);
        assert(encoder@ =~= old(encoder)@ + self@.wire());
        Ok(())
    }
}

/// The body survives the trip over the wire, whatever bytes follow it, if
/// it can be written, its strings hold no `0x00`, its tags are canonical and
/// the bytes that follow do not themselves read as a parameter.
pub proof fn lemma_alert_notification_round_trip(v: AlertNotificationView, tail: Seq<u8>)
    requires
        v.encodable(),
        no_nul(v.source_addr),
        no_nul(v.esme_addr),
        tags_canonical(v.ms_availability_status),
        TlvView::parse(tail) is Err,
    ensures
        AlertNotificationView::parse(v.wire() + tail) == Ok::<(AlertNotificationView, Seq<u8>), CodecError>(
            (v, tail),
        ),
{
    let from6 = TlvView::list_wire(v.ms_availability_status) + tail;
    let from5 = COctet::wire_of(v.esme_addr) + from6;
    let from4 = seq![v.esme_addr_npi] + from5;
    let from3 = seq![v.esme_addr_ton] + from4;
    let from2 = COctet::wire_of(v.source_addr) + from3;
    let from1 = seq![v.source_addr_npi] + from2;
    let upto0 = seq![v.source_addr_ton];
    let upto1 = upto0 + seq![v.source_addr_npi];
    let upto2 = upto1 + COctet::wire_of(v.source_addr);
    let upto3 = upto2 + seq![v.esme_addr_ton];
    let upto4 = upto3 + seq![v.esme_addr_npi];
    let upto5 = upto4 + COctet::wire_of(v.esme_addr);
    lemma_concat_assoc(upto5, TlvView::list_wire(v.ms_availability_status), tail);
    lemma_concat_assoc(upto4, COctet::wire_of(v.esme_addr), from6);
    lemma_concat_assoc(upto3, seq![v.esme_addr_npi], from5);
    lemma_concat_assoc(upto2, seq![v.esme_addr_ton], from4);
    lemma_concat_assoc(upto1, COctet::wire_of(v.source_addr), from3);
    lemma_concat_assoc(upto0, seq![v.source_addr_npi], from2);
    lemma_u8_round_trip(v.source_addr_ton, from1);
    lemma_u8_round_trip(v.source_addr_npi, from2);
    lemma_c_octet_round_trip(v.source_addr, from3);
    lemma_u8_round_trip(v.esme_addr_ton, from4);
    lemma_u8_round_trip(v.esme_addr_npi, from5);
    lemma_c_octet_round_trip(v.esme_addr, from6);
    lemma_tlv_list_round_trip(v.ms_availability_status, tail);
}

/// `bind_transmitter` has the layout of every request to bind.
pub type BindTransmitter = Bind;

/// `bind_transmitter_resp` has the layout of every answer to one.
pub type BindTransmitterResp = BindResp;

/// `bind_receiver` has the layout of every request to bind.
pub type BindReceiver = Bind;

/// `bind_receiver_resp` has the layout of every answer to one.
pub type BindReceiverResp = BindResp;

/// `bind_transceiver` has the layout of every request to bind.
pub type BindTransceiver = Bind;

/// `bind_transceiver_resp` has the layout of every answer to one.
pub type BindTransceiverResp = BindResp;

} // verus!
