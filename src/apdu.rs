//! ISO 7816-4 short command APDUs and the builder that assembles them.

use vstd::prelude::*;

use crate::smart_card::APDU;

verus! {

/// Class-byte families (the high nibble of the class byte).
#[derive(Debug, PartialEq, Eq, Structural, Clone, Copy)]
pub enum Classes {
    /// Command, response and encoding follow ISO.
    IsoFullAccording,
    /// Structure and low flags follow ISO; encoding and meaning are proprietary.
    StructAndFlagsIsoAccordingProprietarySemanticsAndEncoding1,
    /// Structure and low flags follow ISO; encoding and meaning are proprietary.
    StructAndFlagsIsoAccordingProprietarySemanticsAndEncoding2,
    /// Follows ISO in principle.
    IsoPrincipleFullAccording,
    /// Only the command/response structure follows ISO.
    StructIsoAccording1,
    /// Only the command/response structure follows ISO.
    StructIsoAccording2,
    /// Fully proprietary encoding.
    Proprietary1,
    /// Fully proprietary encoding.
    Proprietary2,
}

pub open spec fn class_code(c: Classes) -> u8 {
    match c {
        Classes::IsoFullAccording => 0x00,
        Classes::StructAndFlagsIsoAccordingProprietarySemanticsAndEncoding1 => 0x80,
        Classes::StructAndFlagsIsoAccordingProprietarySemanticsAndEncoding2 => 0x90,
        Classes::IsoPrincipleFullAccording => 0xa0,
        Classes::StructIsoAccording1 => 0xb0,
        Classes::StructIsoAccording2 => 0xc0,
        Classes::Proprietary1 => 0xd0,
        Classes::Proprietary2 => 0xe0,
    }
}

impl Classes {
    /// The class byte of this family.
    pub fn code(&self) -> (r: u8)
        ensures
            r == class_code(*self),
    {
        match self {
            Classes::IsoFullAccording => 0x00,
            Classes::StructAndFlagsIsoAccordingProprietarySemanticsAndEncoding1 => 0x80,
            Classes::StructAndFlagsIsoAccordingProprietarySemanticsAndEncoding2 => 0x90,
            Classes::IsoPrincipleFullAccording => 0xa0,
            Classes::StructIsoAccording1 => 0xb0,
            Classes::StructIsoAccording2 => 0xc0,
            Classes::Proprietary1 => 0xd0,
            Classes::Proprietary2 => 0xe0,
        }
    }
}

/// Inter-industry instruction bytes.
#[derive(Debug, PartialEq, Eq, Structural, Clone, Copy)]
pub enum Instructions {
    EraseBinary,
    Verify,
    ManageChannel,
    ExternalAuthenticate,
    GetChallenge,
    InternalAuthenticate,
    SelectFile,
    ReadBinary,
    ReadRecords,
    GetResponse,
    Envelope,
    GetData,
    WriteBinary,
    WriteRecord,
    UpdateBinary,
    PutData,
    UpdateData,
    AppendRecord,
}

pub open spec fn instruction_code(i: Instructions) -> u8 {
    match i {
        Instructions::EraseBinary => 0x0e,
        Instructions::Verify => 0x20,
        Instructions::ManageChannel => 0x70,
        Instructions::ExternalAuthenticate => 0x82,
        Instructions::GetChallenge => 0x84,
        Instructions::InternalAuthenticate => 0x88,
        Instructions::SelectFile => 0xa4,
        Instructions::ReadBinary => 0xb0,
        Instructions::ReadRecords => 0xb2,
        Instructions::GetResponse => 0xc0,
        Instructions::Envelope => 0xc2,
        Instructions::GetData => 0xca,
        Instructions::WriteBinary => 0xd0,
        Instructions::WriteRecord => 0xd2,
        Instructions::UpdateBinary => 0xd6,
        Instructions::PutData => 0xda,
        Instructions::UpdateData => 0xdc,
        Instructions::AppendRecord => 0xe2,
    }
}

impl Instructions {
    /// The instruction byte.
    pub fn code(&self) -> (r: u8)
        ensures
            r == instruction_code(*self),
    {
        match self {
            Instructions::EraseBinary => 0x0e,
            Instructions::Verify => 0x20,
            Instructions::ManageChannel => 0x70,
            Instructions::ExternalAuthenticate => 0x82,
            Instructions::GetChallenge => 0x84,
            Instructions::InternalAuthenticate => 0x88,
            Instructions::SelectFile => 0xa4,
            Instructions::ReadBinary => 0xb0,
            Instructions::ReadRecords => 0xb2,
            Instructions::GetResponse => 0xc0,
            Instructions::Envelope => 0xc2,
            Instructions::GetData => 0xca,
            Instructions::WriteBinary => 0xd0,
            Instructions::WriteRecord => 0xd2,
            Instructions::UpdateBinary => 0xd6,
            Instructions::PutData => 0xda,
            Instructions::UpdateData => 0xdc,
            Instructions::AppendRecord => 0xe2,
        }
    }
}

/// Secure-messaging selector held in bits [3:2] of the class byte.
#[derive(Debug, PartialEq, Eq, Structural, Clone, Copy)]
pub enum SecureMessaging {
    /// No secure messaging.
    Plain,
    /// Proprietary secure messaging.
    Proprietary,
    /// Clause 6 secure messaging, header not authenticated.
    Clause6,
    /// Clause 6 secure messaging, header authenticated.
    Clause6HeaderAuth,
    /// A pattern that no two-bit field can hold; kept for exhaustive matches.
    Undefined,
}

/// The two-bit value that stands for a secure-messaging mode.
pub open spec fn secure_bits(m: SecureMessaging) -> u8 {
    match m {
        SecureMessaging::Plain => 0,
        SecureMessaging::Proprietary => 1,
        SecureMessaging::Clause6 => 2,
        SecureMessaging::Clause6HeaderAuth => 3,
        SecureMessaging::Undefined => 4,
    }
}

/// The mode that a two-bit value decodes to.
pub open spec fn secure_mode_of(bits: u8) -> SecureMessaging {
    if bits == 0 {
        SecureMessaging::Plain
    } else if bits == 1 {
        SecureMessaging::Proprietary
    } else if bits == 2 {
        SecureMessaging::Clause6
    } else if bits == 3 {
        SecureMessaging::Clause6HeaderAuth
    } else {
        SecureMessaging::Undefined
    }
}

/// The fields of a command as plain values.
pub struct ApduModel {
    pub cla: u8,
    pub ins: u8,
    pub p1: u8,
    pub p2: u8,
    pub data: Option<Seq<u8>>,
}

/// The bytes that a command is sent as: the four header bytes, then the data
/// field when there is one. No length byte is emitted.
pub open spec fn wire_bytes(m: ApduModel) -> Seq<u8> {
    seq![m.cla, m.ins, m.p1, m.p2] + match m.data {
        Some(d) => d,
        None => Seq::<u8>::empty(),
    }
}

/// The class byte with bit 7 (proprietary structure) set or cleared.
pub open spec fn with_extended(cla: u8, on: bool) -> u8 {
    if on {
        cla | 0x80
    } else {
        cla & 0x7f
    }
}

/// The class byte with bits [3:2] replaced by `bits`.
pub open spec fn with_secure_bits(cla: u8, bits: u8) -> u8 {
    (cla & 0xf3) | ((bits << 2u8) as u8)
}

/// The class byte with bits [1:0] replaced by `channel` when it is in `0..=3`.
pub open spec fn with_channel(cla: u8, channel: u8) -> u8 {
    if channel <= 3 {
        (cla & 0xfc) | channel
    } else {
        cla
    }
}

/// A command under construction.
#[derive(Debug, Clone)]
pub struct ApduBuilder {
    cla: u8,
    ins: u8,
    parameter: [u8; 2],
    data_field: Option<Vec<u8>>,
}

/// A finished command, ready to be sent.
#[derive(Debug)]
pub struct Apdu {
    cla: u8,
    ins: u8,
    parameter: [u8; 2],
    data_field: Option<Vec<u8>>,
}

/// The data field as a sequence of bytes.
pub open spec fn data_view(d: Option<Vec<u8>>) -> Option<Seq<u8>> {
    match d {
        Some(v) => Some(v@),
        None => None,
    }
}

impl View for ApduBuilder {
    type V = ApduModel;

    closed spec fn view(&self) -> ApduModel {
        ApduModel {
            cla: self.cla,
            ins: self.ins,
            p1: self.parameter[0],
            p2: self.parameter[1],
            data: data_view(self.data_field),
        }
    }
}

impl View for Apdu {
    type V = ApduModel;

    closed spec fn view(&self) -> ApduModel {
        ApduModel {
            cla: self.cla,
            ins: self.ins,
            p1: self.parameter[0],
            p2: self.parameter[1],
            data: data_view(self.data_field),
        }
    }
}

fn clone_data(d: &Option<Vec<u8>>) -> (r: Option<Vec<u8>>)
    ensures
        data_view(r) == data_view(*d),
{
    match d {
        Some(v) => Some(v.clone()),
        None => None,
    }
}

impl ApduBuilder {
    /// An empty command: every header byte zero, no data field.
    pub fn new() -> (r: Self)
        ensures
            r@ == (ApduModel { cla: 0, ins: 0, p1: 0, p2: 0, data: None }),
    {
        ApduBuilder { cla: 0, ins: 0, parameter: [0, 0], data_field: None }
    }

    /// Sets (`true`) or clears (`false`) the proprietary-structure bit of the
    /// class byte; the other bits stay.
    pub fn set_ext(&mut self, use_ext_spec: bool) -> (r: &mut Self)
        ensures
            r@ == (ApduModel { cla: with_extended(old(self)@.cla, use_ext_spec), ..old(self)@ }),
            final(self)@ == final(r)@,
    {
        if use_ext_spec {
            self.cla = self.cla | 0x80;
        } else {
            self.cla = self.cla & 0x7f;
        }
        self
    }

    /// Replaces the whole class byte, for encodings that the structured
    /// setters do not cover.
    pub fn set_raw_classs_code(&mut self, class_code: u8) -> (r: &mut Self)
        ensures
            r@ == (ApduModel { cla: class_code, ..old(self)@ }),
            final(self)@ == final(r)@,
    {
        self.cla = class_code;
        self
    }

    /// Stores a logical channel number in bits [1:0] of the class byte.
    /// A number above 3 leaves the builder as it was.
    pub fn set_vchannel(&mut self, vchanel_no: u8) -> (r: &mut Self)
        ensures
            r@ == (ApduModel { cla: with_channel(old(self)@.cla, vchanel_no), ..old(self)@ }),
            final(self)@ == final(r)@,
    {
        if vchanel_no <= 3 {
            self.cla = (self.cla & 0xfc) | vchanel_no;
        }
        self
    }

    /// The logical channel number held in bits [1:0] of the class byte.
    pub fn get_vchannel(&self) -> (r: u8)
        ensures
            r == self@.cla & 3,
    {
        self.cla & 0x03
    }

    /// Whether command chaining is in use; this encoder never chains.
    pub fn is_command_chain(&mut self) -> (r: bool)
        ensures
            !r,
            final(self)@ == old(self)@,
    {
        false
    }

    /// Clears bits [3:2] of the class byte and stores the mode there.
    pub fn set_secure_mode(&mut self, secure_type: SecureMessaging) -> (r: &mut Self)
        requires
            secure_type != SecureMessaging::Undefined,
        ensures
            r@ == (ApduModel {
                cla: with_secure_bits(old(self)@.cla, secure_bits(secure_type)),
                ..old(self)@
            }),
            final(self)@ == final(r)@,
    {
        let bits: u8 = match secure_type {
            SecureMessaging::Plain => 0,
            SecureMessaging::Proprietary => 1,
            SecureMessaging::Clause6 => 2,
            SecureMessaging::Clause6HeaderAuth => 3,
            SecureMessaging::Undefined => 4,
        };
        self.cla = (self.cla & 0xf3) | (bits << 2u8);
        self
    }

    /// The mode held in bits [3:2] of the class byte.
    pub fn get_secure_mode(&self) -> (r: SecureMessaging)
        ensures
            r == secure_mode_of((self@.cla >> 2u8) & 3),
    {
        match (self.cla >> 2u8) & 3 {
            0 => SecureMessaging::Plain,
            1 => SecureMessaging::Proprietary,
            2 => SecureMessaging::Clause6,
            3 => SecureMessaging::Clause6HeaderAuth,
            _ => SecureMessaging::Undefined,
        }
    }

    /// A command holding the builder's current fields.
    pub fn build(&self) -> (r: Apdu)
        ensures
            r@ == self@,
    {
        Apdu {
            cla: self.cla,
            ins: self.ins,
            parameter: self.parameter,
            data_field: clone_data(&self.data_field),
        }
    }
}

/// The vendor GET DATA preset: class 0xFF, instruction 0xCA, parameters
/// `[p1, 0]` and a single zero data byte asking for up to 256 bytes back.
pub open spec fn get_data_preset(p1: u8) -> ApduModel {
    ApduModel { cla: 0xff, ins: 0xca, p1: p1, p2: 0, data: Some(seq![0u8]) }
}

impl ApduBuilder {
    fn set_get_data(&mut self, p1: u8)
        ensures
            final(self)@ == get_data_preset(p1),
    {
        self.cla = 0xff;
        self.ins = 0xca;
        self.parameter = [p1, 0];
        self.data_field = Some(vec![0u8]);
        assert(self.data_field.unwrap()@ =~= seq![0u8]);
    }
}

/// PC/SC part 3 GET DATA requests.
pub trait ApduBuilderExtWithPcsc3V2 {
    /// Turns the builder into the request for the card's serial number (UID).
    fn get_serial(&mut self) -> &mut Self;

    /// Turns the builder into the request for the answer to select (ATS).
    fn get_ats(&mut self) -> &mut Self;
}

/// Reader-vendor GET DATA requests used with FeliCa readers.
pub trait ApduBuilderExtWithFelica {
    /// Turns the builder into the request for the card identifier.
    fn get_card_id(&mut self) -> &mut Self;

    /// Turns the builder into the request for the card kind number.
    fn get_card_kind(&mut self) -> &mut Self;

    /// Turns the builder into the request for the card kind's name.
    fn get_card_kind_name(&mut self) -> &mut Self;

    /// Turns the builder into the request for the card's name.
    fn get_card_name(&mut self) -> &mut Self;
}

impl ApduBuilderExtWithPcsc3V2 for ApduBuilder {
    fn get_serial(&mut self) -> (r: &mut Self)
        ensures
            r@ == get_data_preset(0x00),
            final(self)@ == final(r)@,
    {
        self.set_get_data(0x00);
        self
    }

    fn get_ats(&mut self) -> (r: &mut Self)
        ensures
            r@ == get_data_preset(0x01),
            final(self)@ == final(r)@,
    {
        self.set_get_data(0x01);
        self
    }
}

impl ApduBuilderExtWithFelica for ApduBuilder {
    fn get_card_id(&mut self) -> (r: &mut Self)
        ensures
            r@ == get_data_preset(0xf0),
            final(self)@ == final(r)@,
    {
        self.set_get_data(0xf0);
        self
    }

    fn get_card_kind(&mut self) -> (r: &mut Self)
        ensures
            r@ == get_data_preset(0xf3),
            final(self)@ == final(r)@,
    {
        self.set_get_data(0xf3);
        self
    }

    fn get_card_kind_name(&mut self) -> (r: &mut Self)
        ensures
            r@ == get_data_preset(0xf4),
            final(self)@ == final(r)@,
    {
        self.set_get_data(0xf4);
        self
    }

    fn get_card_name(&mut self) -> (r: &mut Self)
        ensures
            r@ == get_data_preset(0xf1),
            final(self)@ == final(r)@,
    {
        self.set_get_data(0xf1);
        self
    }
}

impl APDU for Apdu {
    open spec fn wire(&self) -> Seq<u8> {
        wire_bytes(self@)
    }

    fn read8(&self) -> (r: Vec<u8>) {
        let mut out: Vec<u8> = Vec::new();
        out.push(self.cla);
        out.push(self.ins);
        out.push(self.parameter[0]);
        out.push(self.parameter[1]);
        match &self.data_field {
            Some(d) => {
                let mut i: usize = 0;
                while i < d.len()
                    invariant
                        i <= d@.len(),
                        out@ == seq![self.cla, self.ins, self.parameter[0], self.parameter[1]]
                            + d@.subrange(0, i as int),
                    decreases d@.len() - i,
                {
                    out.push(d[i]);
                    i = i + 1;
                    assert(d@.subrange(0, i as int) =~= d@.subrange(0, i - 1).push(d@[i - 1]));
                }
                assert(d@.subrange(0, d@.len() as int) =~= d@);
            },
            None => {
                assert(out@ =~= seq![self.cla, self.ins, self.parameter[0], self.parameter[1]]
                    + Seq::<u8>::empty());
            },
        }
        out
    }
}

/// Reading back the secure-messaging mode gives the mode last stored,
/// whatever the class byte held before.
pub proof fn lemma_secure_mode_round_trip(cla: u8, m: SecureMessaging)
    requires
        m != SecureMessaging::Undefined,
    ensures
        secure_mode_of((with_secure_bits(cla, secure_bits(m)) >> 2u8) & 3) == m,
{
    let b = secure_bits(m);
    assert(((((cla & 0xf3) | ((b << 2u8) as u8)) >> 2u8) & 3) == b) by (bit_vector)
        requires
            b <= 3,
    ;
}

/// Storing a secure-messaging mode twice leaves the class byte as storing
/// the second mode alone would.
pub proof fn lemma_secure_mode_last_wins(cla: u8, first: SecureMessaging, second: SecureMessaging)
    requires
        first != SecureMessaging::Undefined,
        second != SecureMessaging::Undefined,
    ensures
        with_secure_bits(with_secure_bits(cla, secure_bits(first)), secure_bits(second))
            == with_secure_bits(cla, secure_bits(second)),
{
    let a = secure_bits(first);
    let b = secure_bits(second);
    assert((((((cla & 0xf3) | ((a << 2u8) as u8)) & 0xf3) | ((b << 2u8) as u8)))
        == ((cla & 0xf3) | ((b << 2u8) as u8))) by (bit_vector)
        requires
            a <= 3,
            b <= 3,
    ;
}

/// Storing the secure-messaging mode changes no class-byte bit outside [3:2].
pub proof fn lemma_secure_mode_keeps_other_bits(cla: u8, m: SecureMessaging)
    requires
        m != SecureMessaging::Undefined,
    ensures
        with_secure_bits(cla, secure_bits(m)) & 0xf3 == cla & 0xf3,
{
    let b = secure_bits(m);
    assert((((cla & 0xf3) | ((b << 2u8) as u8)) & 0xf3) == (cla & 0xf3)) by (bit_vector)
        requires
            b <= 3,
    ;
}

/// A channel number in range is read back as stored, and the bits above
/// [1:0] stay as they were.
pub proof fn lemma_channel_round_trip(cla: u8, channel: u8)
    requires
        channel <= 3,
    ensures
        with_channel(cla, channel) & 3 == channel,
        with_channel(cla, channel) & 0xfc == cla & 0xfc,
{
    assert((((cla & 0xfc) | channel) & 3) == channel) by (bit_vector)
        requires
            channel <= 3,
    ;
    assert((((cla & 0xfc) | channel) & 0xfc) == (cla & 0xfc)) by (bit_vector)
        requires
            channel <= 3,
    ;
}

/// The extended-structure bit reads back as set, and no other bit moves.
pub proof fn lemma_extended_bit(cla: u8, on: bool)
    ensures
        (with_extended(cla, on) & 0x80 != 0) == on,
        with_extended(cla, on) & 0x7f == cla & 0x7f,
{
    assert((cla | 0x80) & 0x80 != 0) by (bit_vector);
    assert((cla & 0x7f) & 0x80 == 0) by (bit_vector);
    assert((cla | 0x80) & 0x7f == cla & 0x7f) by (bit_vector);
    assert((cla & 0x7f) & 0x7f == cla & 0x7f) by (bit_vector);
}

} // verus!
