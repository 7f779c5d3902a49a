//! Answer-To-Reset decoding (ISO 7816-3) and card identification.

use vstd::prelude::*;

use crate::hex::{hex_dump, hex_dump_of};
use crate::registry::CardRegistry;

verus! {

/// Chip families a card can be identified as.
#[derive(Debug, Clone, Copy, PartialEq, Eq, Structural)]
pub enum CardName {
    MifareClassic1k,
    MifareClassic4k,
    MifareUltralight,
    Srix512,
    MifareMini,
    MifarePlusSl12k,
    MifarePlusSl14k,
    MifarePlusSl22k,
    MifarePlusSl24k,
    MifareUltralightC,
    TopazJewel,
    Felica,
    Jcop30,
    /// Found in the card registry.
    OtherTag,
    /// Not identified.
    UnknownTagName,
}

/// Contactless card classes, in the order of their numbers `0..=10`.
#[derive(Debug, Clone, Copy, PartialEq, Eq, Structural)]
pub enum CardType {
    UnknownCard,
    Iso14443A,
    Iso14443B,
    PicoPass,
    FeliCa,
    NfcType1Tag,
    MifareEmulationCard,
    Iso14443_4A,
    Iso14443_4B,
    TypeANfcDepTarget,
    FeliCaNfcDepTarget,
}

/// The card class numbered `n`; every number outside `0..=10` is
/// `UnknownCard`.
pub open spec fn card_type_of(n: int) -> CardType {
    if n == 1 {
        CardType::Iso14443A
    } else if n == 2 {
        CardType::Iso14443B
    } else if n == 3 {
        CardType::PicoPass
    } else if n == 4 {
        CardType::FeliCa
    } else if n == 5 {
        CardType::NfcType1Tag
    } else if n == 6 {
        CardType::MifareEmulationCard
    } else if n == 7 {
        CardType::Iso14443_4A
    } else if n == 8 {
        CardType::Iso14443_4B
    } else if n == 9 {
        CardType::TypeANfcDepTarget
    } else if n == 10 {
        CardType::FeliCaNfcDepTarget
    } else {
        CardType::UnknownCard
    }
}

impl From<u8> for CardType {
    fn from(value: u8) -> Self {
        match value {
            1 => CardType::Iso14443A,
            2 => CardType::Iso14443B,
            3 => CardType::PicoPass,
            4 => CardType::FeliCa,
            5 => CardType::NfcType1Tag,
            6 => CardType::MifareEmulationCard,
            7 => CardType::Iso14443_4A,
            8 => CardType::Iso14443_4B,
            9 => CardType::TypeANfcDepTarget,
            10 => CardType::FeliCaNfcDepTarget,
            _ => CardType::UnknownCard,
        }
    }
}

impl vstd::std_specs::convert::FromSpecImpl<u8> for CardType {
    open spec fn obeys_from_spec() -> bool {
        true
    }

    open spec fn from_spec(v: u8) -> Self {
        card_type_of(v as int)
    }
}

impl From<u16> for CardType {
    fn from(value: u16) -> Self {
        if value < 255 {
            Self::from(value as u8)
        } else {
            Self::from(0u8)
        }
    }
}

impl vstd::std_specs::convert::FromSpecImpl<u16> for CardType {
    open spec fn obeys_from_spec() -> bool {
        true
    }

    open spec fn from_spec(v: u16) -> Self {
        card_type_of(v as int)
    }
}

impl From<u32> for CardType {
    fn from(value: u32) -> Self {
        if value < 255 {
            Self::from(value as u8)
        } else {
            Self::from(0u8)
        }
    }
}

impl vstd::std_specs::convert::FromSpecImpl<u32> for CardType {
    open spec fn obeys_from_spec() -> bool {
        true
    }

    open spec fn from_spec(v: u32) -> Self {
        card_type_of(v as int)
    }
}

impl From<u64> for CardType {
    fn from(value: u64) -> Self {
        if value < 255 {
            Self::from(value as u8)
        } else {
            Self::from(0u8)
        }
    }
}

impl vstd::std_specs::convert::FromSpecImpl<u64> for CardType {
    open spec fn obeys_from_spec() -> bool {
        true
    }

    open spec fn from_spec(v: u64) -> Self {
        card_type_of(v as int)
    }
}

impl From<u128> for CardType {
    fn from(value: u128) -> Self {
        if value < 255 {
            Self::from(value as u8)
        } else {
            Self::from(0u8)
        }
    }
}

impl vstd::std_specs::convert::FromSpecImpl<u128> for CardType {
    open spec fn obeys_from_spec() -> bool {
        true
    }

    open spec fn from_spec(v: u128) -> Self {
        card_type_of(v as int)
    }
}

impl From<usize> for CardType {
    fn from(value: usize) -> Self {
        if value < 255 {
            Self::from(value as u8)
        } else {
            Self::from(0u8)
        }
    }
}

impl vstd::std_specs::convert::FromSpecImpl<usize> for CardType {
    open spec fn obeys_from_spec() -> bool {
        true
    }

    open spec fn from_spec(v: usize) -> Self {
        card_type_of(v as int)
    }
}

/// Every number outside `0..=10`, among them all from 255 up, names
/// `UnknownCard`.
pub proof fn lemma_card_type_out_of_range(n: int)
    requires
        n < 0 || n > 10,
    ensures
        card_type_of(n) == CardType::UnknownCard,
{
}

/// The numbers `0..=10` name the card classes one to one: no class has two
/// numbers.
pub proof fn lemma_card_type_numbers_distinct(a: int, b: int)
    requires
        0 <= a <= 10,
        0 <= b <= 10,
        a != b,
    ensures
        card_type_of(a) != card_type_of(b),
{
}

/// The presence nibble (Y) of a format byte: which of TA, TB, TC and TD
/// follow it.
pub open spec fn presence(b: u8) -> u8 {
    (b >> 4u8) & 0x0f
}

/// Bit `i` of `n`, as 0 or 1.
pub open spec fn bit_value(n: u8, i: u8) -> nat {
    if (n >> i) & 1 == 1 {
        1
    } else {
        0
    }
}

/// How many of the bits `0..i` of `n` are set.
pub open spec fn bits_set(n: u8, i: nat) -> nat
    decreases i,
{
    if i == 0 {
        0
    } else {
        bits_set(n, (i - 1) as nat) + bit_value(n, (i - 1) as u8)
    }
}

/// How many interface bytes follow a format byte.
pub open spec fn interface_count(b: u8) -> nat {
    bits_set(presence(b), 4)
}

/// Whether a TD byte, and so another link of the chain, follows.
pub open spec fn td_follows(b: u8) -> bool {
    presence(b) & 0x08 == 0x08
}

/// A format byte that announces a TD byte announces at least one interface
/// byte, so the chain walk always moves forward.
pub proof fn lemma_td_is_counted(b: u8)
    ensures
        td_follows(b) ==> interface_count(b) >= 1,
{
    let y = presence(b);
    assert(y & 0x08 == 0x08 ==> (y >> 3u8) & 1 == 1) by (bit_vector);
    reveal_with_fuel(bits_set, 5);
}

/// Where the historical bytes start, found by walking the interface-byte
/// chain from the format byte at `index`; `None` when the walk leaves the
/// buffer.
pub open spec fn historical_start(raw: Seq<u8>, index: int) -> Option<int>
    decreases raw.len() - index,
{
    if 0 <= index < raw.len() {
        let b = raw[index];
        let next = index + interface_count(b);
        if td_follows(b) {
            if next < raw.len() {
                proof {
                    lemma_td_is_counted(b);
                }
                historical_start(raw, next)
            } else {
                None
            }
        } else {
            Some(next + 1)
        }
    } else {
        None
    }
}

/// The historical bytes, or `None` when the chain or the declared count
/// runs past the buffer.
pub open spec fn historical_bytes(raw: Seq<u8>) -> Option<Seq<u8>> {
    match historical_start(raw, 1) {
        Some(start) => {
            let end = start + (raw[1] & 0x0f);
            if end <= raw.len() {
                Some(raw.subrange(start, end))
            } else {
                None
            }
        },
        None => None,
    }
}

/// The identity fixed by the category and name bytes at offsets 13 and 14.
pub open spec fn fixed_identity(category: u8, name: u8) -> Option<(Seq<char>, CardName)> {
    if category == 0x00 {
        if name == 0x01 {
            Some(("MIFARE Classic 1K"@, CardName::MifareClassic1k))
        } else if name == 0x02 {
            Some(("MIFARE Classic 4K"@, CardName::MifareClassic4k))
        } else if name == 0x03 {
            Some(("MIFARE Ultralight"@, CardName::MifareUltralight))
        } else if name == 0x07 {
            Some(("SRIX512"@, CardName::Srix512))
        } else if name == 0x26 {
            Some(("MIFARE Mini"@, CardName::MifareMini))
        } else if name == 0x36 {
            Some(("MIFARE Plus SL1 2K"@, CardName::MifarePlusSl12k))
        } else if name == 0x37 {
            Some(("MIFARE Plus SL1 4K"@, CardName::MifarePlusSl14k))
        } else if name == 0x38 {
            Some(("MIFARE Plus SL2 2K"@, CardName::MifarePlusSl12k))
        } else if name == 0x39 {
            Some(("MIFARE Plus SL2 4K"@, CardName::MifarePlusSl14k))
        } else if name == 0x3a {
            Some(("MIFARE Ultralight C"@, CardName::MifareUltralightC))
        } else if name == 0x30 {
            Some(("Topaz/Jewel"@, CardName::TopazJewel))
        } else {
            None
        }
    } else if category == 0xff && name == 28 {
        Some(("JCOP 30"@, CardName::Jcop30))
    } else {
        None
    }
}

/// The name given to a card that nothing identifies.
pub open spec fn unknown_tag() -> Seq<char> {
    "Unknown Tag Name"@
}

/// The identity of a card: the fixed table first, then the registry by
/// historical bytes, else unknown.
pub open spec fn card_identity(
    raw: Seq<u8>,
    historical: Seq<u8>,
    registry: Map<Seq<u8>, Seq<char>>,
) -> (Seq<char>, CardName) {
    match fixed_identity(raw[13], raw[14]) {
        Some(id) => id,
        None => if registry.contains_key(historical) {
            (registry[historical], CardName::OtherTag)
        } else {
            (unknown_tag(), CardName::UnknownTagName)
        },
    }
}

/// Why an Answer-To-Reset was refused.
#[derive(Debug, Clone, Copy, PartialEq, Eq, Structural)]
pub enum ATRParseErrorCode {
    /// The first byte is not the direct-convention byte 0x3B.
    InvalidHeader(u8),
    /// The interface bytes or the historical bytes run past the buffer.
    Truncated,
}

/// An Answer-To-Reset that could not be decoded.
#[derive(Debug)]
pub struct ATRParseError {
    code: ATRParseErrorCode,
}

impl ATRParseError {
    pub closed spec fn spec_code(&self) -> ATRParseErrorCode {
        self.code
    }

    pub fn new(code: ATRParseErrorCode) -> (r: Self)
        ensures
            r.code() == code,
    {
        ATRParseError { code: code }
    }

    /// What went wrong.
    #[verifier::when_used_as_spec(spec_code)]
    pub fn code(&self) -> (r: ATRParseErrorCode)
        ensures
            r == self.spec_code(),
    {
        self.code
    }
}

/// The decoded Answer-To-Reset as plain values.
pub struct AtrModel {
    pub raw: Seq<u8>,
    pub historical: Seq<u8>,
    pub card: (Seq<char>, CardName),
}

/// What decoding a 32-byte buffer gives, against a registry.
pub open spec fn parse_result(
    raw: Seq<u8>,
    registry: Map<Seq<u8>, Seq<char>>,
) -> Result<AtrModel, ATRParseErrorCode> {
    if raw[0] != 0x3b {
        Err(ATRParseErrorCode::InvalidHeader(raw[0]))
    } else {
        match historical_bytes(raw) {
            Some(h) => Ok(
                AtrModel { raw: raw, historical: h, card: card_identity(raw, h, registry) },
            ),
            None => Err(ATRParseErrorCode::Truncated),
        }
    }
}

/// A buffer that does not start with the direct-convention byte is refused
/// with that byte, whatever follows it.
pub proof fn lemma_invalid_header(raw: Seq<u8>, registry: Map<Seq<u8>, Seq<char>>)
    requires
        raw.len() == 32,
        raw[0] != 0x3b,
    ensures
        parse_result(raw, registry) == Err::<AtrModel, _>(ATRParseErrorCode::InvalidHeader(raw[0])),
{
}

/// A card's Answer-To-Reset; every field is `None` before a card is
/// connected.
#[derive(Debug, Clone)]
pub struct AnswerToReset {
    pub raw_atr: Option<Vec<u8>>,
    pub historical_data: Option<Vec<u8>>,
    pub card_name: Option<(String, CardName)>,
}

/// Whether an Answer-To-Reset holds exactly the decoded values.
pub open spec fn holds_model(a: AnswerToReset, m: AtrModel) -> bool {
    &&& a.raw_atr matches Some(r) && r@ == m.raw
    &&& a.historical_data matches Some(h) && h@ == m.historical
    &&& a.card_name matches Some(c) && c.0@ == m.card.0 && c.1 == m.card.1
}

impl Default for AnswerToReset {
    fn default() -> (r: Self)
        ensures
            r.raw_atr is None,
            r.historical_data is None,
            r.card_name is None,
    {
        AnswerToReset { raw_atr: None, historical_data: None, card_name: None }
    }
}

/// Whether the format byte's presence nibble announces a TD byte, and how
/// many interface bytes it announces.
pub fn next_tables(atr: u8) -> (r: (bool, usize))
    ensures
        r.0 == td_follows(atr),
        r.1 == interface_count(atr),
        r.1 <= 4,
{
    let flags = (atr >> 4u8) & 0x0f;
    let mut count: usize = 0;
    let mut i: u8 = 0;
    while i < 4
        invariant
            i <= 4,
            flags == presence(atr),
            count == bits_set(flags, i as nat),
            count <= i,
        decreases 4 - i,
    {
        if (flags >> i) & 1 == 1 {
            count = count + 1;
        }
        i = i + 1;
    }
    (flags & 0x08 == 0x08, count)
}

/// The index of the first historical byte, from the chain walk that starts
/// at the format byte `atr[1]`; `None` when the walk leaves the buffer.
pub fn historical_offset(atr: &[u8; 32]) -> (r: Option<usize>)
    ensures
        match r {
            Some(i) => historical_start(atr@, 1) == Some(i as int),
            None => historical_start(atr@, 1) is None,
        },
{
    let mut index: usize = 1;
    loop
        invariant
            1 <= index < 32,
            atr@.len() == 32,
            historical_start(atr@, index as int) == historical_start(atr@, 1),
        decreases 32 - index,
    {
        let (next_exists, count) = next_tables(atr[index]);
        proof {
            lemma_td_is_counted(atr@[index as int]);
        }
        if !next_exists {
            return Some(index + count + 1);
        }
        if index + count >= 32 {
            return None;
        }
        index = index + count;
    }
}

fn fixed_card_name(category: u8, name: u8) -> (r: Option<(String, CardName)>)
    ensures
        match r {
            Some(id) => fixed_identity(category, name) == Some((id.0@, id.1)),
            None => fixed_identity(category, name) is None,
        },
{
    let id = if category == 0x00 {
        match name {
            0x01 => ("MIFARE Classic 1K", CardName::MifareClassic1k),
            0x02 => ("MIFARE Classic 4K", CardName::MifareClassic4k),
            0x03 => ("MIFARE Ultralight", CardName::MifareUltralight),
            0x07 => ("SRIX512", CardName::Srix512),
            0x26 => ("MIFARE Mini", CardName::MifareMini),
            0x36 => ("MIFARE Plus SL1 2K", CardName::MifarePlusSl12k),
            0x37 => ("MIFARE Plus SL1 4K", CardName::MifarePlusSl14k),
            0x38 => ("MIFARE Plus SL2 2K", CardName::MifarePlusSl12k),
            0x39 => ("MIFARE Plus SL2 4K", CardName::MifarePlusSl14k),
            0x3a => ("MIFARE Ultralight C", CardName::MifareUltralightC),
            0x30 => ("Topaz/Jewel", CardName::TopazJewel),
            _ => {
                return None;
            },
        }
    } else if category == 0xff && name == 28 {
        ("JCOP 30", CardName::Jcop30)
    } else {
        return None;
    };
    Some((id.0.to_owned(), id.1))
}

impl AnswerToReset {
    /// Decodes a 32-byte Answer-To-Reset buffer and identifies the card.
    pub fn new(atr: &[u8; 32], registry: &CardRegistry) -> (r: Result<Self, ATRParseError>)
        ensures
            match r {
                Ok(a) => parse_result(atr@, registry@) matches Ok(m) && holds_model(a, m),
                Err(e) => parse_result(atr@, registry@) == Err::<AtrModel, _>(e.code()),
            },
    {
        if atr[0] != 0x3b {
            return Err(ATRParseError::new(ATRParseErrorCode::InvalidHeader(atr[0])));
        }
        match AnswerToReset::parse_atr(atr, registry) {
            Ok((historical_data, card_name)) => Ok(
                AnswerToReset {
                    raw_atr: Some(atr_to_vec(atr)),
                    historical_data: Some(historical_data),
                    card_name: Some(card_name),
                },
            ),
            Err(code) => Err(ATRParseError::new(code)),
        }
    }

    /// The historical bytes and the card's identity.
    fn parse_atr(atr: &[u8; 32], registry: &CardRegistry) -> (r: Result<
        (Vec<u8>, (String, CardName)),
        ATRParseErrorCode,
    >)
        ensures
            match r {
                Ok((h, c)) => historical_bytes(atr@) == Some(h@) && card_identity(atr@, h@, registry@)
                    == (c.0@, c.1),
                Err(code) => historical_bytes(atr@) is None && code == ATRParseErrorCode::Truncated,
            },
    {
        let historical_len = (atr[1] & 0x0f) as usize;
        let start = match historical_offset(atr) {
            Some(i) => i,
            None => {
                return Err(ATRParseErrorCode::Truncated);
            },
        };
        if start > 32 || historical_len > 32 - start {
            return Err(ATRParseErrorCode::Truncated);
        }
        let historical_data = slice_range(atr, start, start + historical_len);
        let card_name = match fixed_card_name(atr[13], atr[14]) {
            Some(id) => id,
            None => AnswerToReset::lookup_to_histdata(&historical_data, registry),
        };
        Ok((historical_data, card_name))
    }

    /// The registry's name for the historical bytes, or the unknown tag.
    fn lookup_to_histdata(historical_data: &Vec<u8>, registry: &CardRegistry) -> (r: (
        String,
        CardName,
    ))
        ensures
            r.0@ == (if registry@.contains_key(historical_data@) {
                registry@[historical_data@]
            } else {
                unknown_tag()
            }),
            r.1 == (if registry@.contains_key(historical_data@) {
                CardName::OtherTag
            } else {
                CardName::UnknownTagName
            }),
    {
        match registry.lookup(historical_data.as_slice()) {
            Some(name) => (name, CardName::OtherTag),
            None => ("Unknown Tag Name".to_owned(), CardName::UnknownTagName),
        }
    }

    /// The raw buffer, once a card is connected.
    pub fn get_raw_atr(&self) -> (r: Option<&Vec<u8>>)
        ensures
            match r {
                Some(v) => self.raw_atr == Some(*v),
                None => self.raw_atr is None,
            },
    {
        match self.raw_atr {
            Some(ref atr) => Some(atr),
            None => None,
        }
    }

    /// The historical bytes as hex pairs joined by `-`.
    pub fn historical_data_to_string(&self) -> (r: String)
        requires
            self.historical_data is Some,
        ensures
            r@ == hex_dump_of(self.historical_data.unwrap()@),
    {
        match &self.historical_data {
            Some(h) => hex_dump(h.as_slice()),
            None => String::new(),
        }
    }
}

/// The text shown for a connected card: its historical bytes, then its name.
pub open spec fn atr_summary(historical: Seq<u8>, name: Seq<char>) -> Seq<char> {
    "rid: "@ + hex_dump_of(historical) + "\ncard_name: "@ + name
}

impl AnswerToReset {
    /// The historical bytes and the card's name, on two lines.
    pub fn to_string(&self) -> (r: String)
        requires
            self.historical_data is Some,
            self.card_name is Some,
        ensures
            r@ == atr_summary(self.historical_data.unwrap()@, self.card_name.unwrap().0@),
    {
        let mut s = "rid: ".to_owned();
        let hist = self.historical_data_to_string();
        s.append(hist.as_str());
        s.append("\ncard_name: ");
        match &self.card_name {
            Some(c) => s.append(c.0.as_str()),
            None => {},
        }
        s
    }
}

fn atr_to_vec(atr: &[u8; 32]) -> (r: Vec<u8>)
    ensures
        r@ == atr@,
{
    slice_range(atr, 0, 32)
}

/// A copy of `atr[from..to]`.
fn slice_range(atr: &[u8; 32], from: usize, to: usize) -> (r: Vec<u8>)
    requires
        from <= to <= 32,
    ensures
        r@ == atr@.subrange(from as int, to as int),
{
    let mut out: Vec<u8> = Vec::new();
    let mut i: usize = from;
    while i < to
        invariant
            from <= i <= to <= 32,
            atr@.len() == 32,
            out@ == atr@.subrange(from as int, i as int),
        decreases to - i,
    {
        out.push(atr[i]);
        i = i + 1;
        assert(out@ =~= atr@.subrange(from as int, i as int));
    }
    out
}

} // verus!
