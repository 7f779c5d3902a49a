//! The connection session: protocol preference, protocol negotiation,
//! the card's Answer-To-Reset, and the reading of response status words.
//!
//! The reader channel itself lives outside the library. Each step here takes
//! what the channel answered and says what to ask of it next.

use vstd::prelude::*;
use vstd::string::*;

use crate::atr::{holds_model, parse_result, ATRParseError, AnswerToReset, AtrModel};
use crate::registry::CardRegistry;
use crate::smart_card::{ProtocolType, SmartcardConnectMethod, SmartcardError, SmartcardErrorKind};

verus! {

/// PC/SC protocol mask: no protocol agreed.
pub const SCARD_PROTOCOL_UNDEFINED: u32 = 0x0000_0000;

/// PC/SC protocol mask: T=0.
pub const SCARD_PROTOCOL_T0: u32 = 0x0000_0001;

/// PC/SC protocol mask: T=1.
pub const SCARD_PROTOCOL_T1: u32 = 0x0000_0002;

/// PC/SC protocol mask: T=0 or T=1.
pub const SCARD_PROTOCOL_TX: u32 = 0x0000_0003;

/// PC/SC protocol mask: raw transfer.
pub const SCARD_PROTOCOL_RAW: u32 = 0x0001_0000;

/// A protocol together with the mask that requests it from the reader.
#[derive(Debug, Clone, Copy, PartialEq, Eq, Structural)]
pub struct ProtocolTypeSet(pub ProtocolType, pub u32);

/// The mask that requests a protocol.
pub open spec fn protocol_mask(p: ProtocolType) -> u32 {
    match p {
        ProtocolType::T0 => SCARD_PROTOCOL_T0,
        ProtocolType::T1 => SCARD_PROTOCOL_T1,
        ProtocolType::T0T1 => SCARD_PROTOCOL_TX,
        ProtocolType::RAW => SCARD_PROTOCOL_RAW,
        _ => SCARD_PROTOCOL_UNDEFINED,
    }
}

/// The protocol that a mask reported by the reader stands for.
pub open spec fn protocol_of_mask(mask: u32) -> ProtocolTypeSet {
    if mask == SCARD_PROTOCOL_T0 {
        ProtocolTypeSet(ProtocolType::T0, SCARD_PROTOCOL_T0)
    } else if mask == SCARD_PROTOCOL_T1 {
        ProtocolTypeSet(ProtocolType::T1, SCARD_PROTOCOL_T1)
    } else if mask == SCARD_PROTOCOL_UNDEFINED {
        ProtocolTypeSet(ProtocolType::RAW, SCARD_PROTOCOL_RAW)
    } else if mask == SCARD_PROTOCOL_TX {
        ProtocolTypeSet(ProtocolType::T0T1, SCARD_PROTOCOL_TX)
    } else {
        ProtocolTypeSet(ProtocolType::Unknown, 0)
    }
}

/// The protocol that a mask reported by the reader stands for.
pub fn lookup_protocol_from_mask(protocol: u32) -> (r: ProtocolTypeSet)
    ensures
        r == protocol_of_mask(protocol),
{
    if protocol == SCARD_PROTOCOL_T0 {
        ProtocolTypeSet(ProtocolType::T0, SCARD_PROTOCOL_T0)
    } else if protocol == SCARD_PROTOCOL_T1 {
        ProtocolTypeSet(ProtocolType::T1, SCARD_PROTOCOL_T1)
    } else if protocol == SCARD_PROTOCOL_UNDEFINED {
        ProtocolTypeSet(ProtocolType::RAW, SCARD_PROTOCOL_RAW)
    } else if protocol == SCARD_PROTOCOL_TX {
        ProtocolTypeSet(ProtocolType::T0T1, SCARD_PROTOCOL_TX)
    } else {
        ProtocolTypeSet(ProtocolType::Unknown, 0)
    }
}

/// The protocol preference that a request sets: `InActive` keeps the
/// current one.
pub open spec fn preference_after(
    current: ProtocolTypeSet,
    requested: ProtocolType,
) -> ProtocolTypeSet {
    if requested == ProtocolType::InActive {
        current
    } else {
        ProtocolTypeSet(requested, protocol_mask(requested))
    }
}

/// The protocols tried, most permissive first.
pub open spec fn negotiation_candidate(i: int) -> ProtocolType {
    if i == 0 {
        ProtocolType::T0T1
    } else if i == 1 {
        ProtocolType::T0
    } else {
        ProtocolType::T1
    }
}

/// How many protocols negotiation tries.
pub const NEGOTIATION_CANDIDATES: usize = 3;

/// Where a session stands.
#[derive(Debug, Clone, Copy, PartialEq, Eq, Structural)]
pub enum ConnectionState {
    /// No channel is open.
    Disconnected,
    /// The candidate with this position is being tried.
    Negotiating(usize),
    /// A channel is open; the card's Answer-To-Reset is still to be read.
    Opened,
    /// A channel is open and the Answer-To-Reset is decoded.
    Connected,
}

/// What the reader answered to a request to open a channel.
#[derive(Debug, Clone, Copy, PartialEq, Eq, Structural)]
pub enum OpenResult {
    /// The channel is open; the value is the mask of the protocol agreed.
    Opened(u32),
    /// Reader and card share none of the requested protocols.
    ProtocolMismatch,
    /// Any other failure.
    Failed,
}

/// What to do next while connecting.
#[derive(Debug)]
pub enum NegotiationStep {
    /// Ask the reader to open a channel with this protocol mask.
    Attempt(ProtocolTypeSet),
    /// Negotiation is over, with the protocol agreed or the failure.
    Done(Result<ProtocolType, SmartcardError>),
}

/// The session with one card: the protocol preference or the protocol in
/// use, the card's Answer-To-Reset, and the connection state.
pub struct Session {
    protocol: ProtocolTypeSet,
    atr: AnswerToReset,
    state: ConnectionState,
}

impl Session {
    pub closed spec fn spec_protocol(&self) -> ProtocolTypeSet {
        self.protocol
    }

    pub closed spec fn spec_state(&self) -> ConnectionState {
        self.state
    }

    pub closed spec fn spec_atr(&self) -> AnswerToReset {
        self.atr
    }

    /// A disconnected session that prefers T=0 and holds no Answer-To-Reset.
    pub fn new() -> (r: Self)
        ensures
            r.protocol() == ProtocolTypeSet(ProtocolType::T0, SCARD_PROTOCOL_T0),
            r.state() == ConnectionState::Disconnected,
            r.spec_atr().raw_atr is None,
            r.spec_atr().historical_data is None,
            r.spec_atr().card_name is None,
    {
        Session {
            protocol: ProtocolTypeSet(ProtocolType::T0, SCARD_PROTOCOL_T0),
            atr: AnswerToReset::default(),
            state: ConnectionState::Disconnected,
        }
    }

    /// The protocol preference, or the protocol in use once connected.
    #[verifier::when_used_as_spec(spec_protocol)]
    pub fn protocol(&self) -> (r: ProtocolTypeSet)
        ensures
            r == self.spec_protocol(),
    {
        self.protocol
    }

    #[verifier::when_used_as_spec(spec_state)]
    pub fn state(&self) -> (r: ConnectionState)
        ensures
            r == self.spec_state(),
    {
        self.state
    }

    /// The card's Answer-To-Reset; empty before a card is connected.
    pub fn get_atr(&self) -> (r: &AnswerToReset)
        ensures
            *r == self.spec_atr(),
    {
        &self.atr
    }

    fn set_protocol(&mut self, protocol: ProtocolType)
        requires
            protocol != ProtocolType::Unknown,
        ensures
            final(self).protocol == preference_after(old(self).protocol, protocol),
            final(self).state == old(self).state,
            final(self).atr == old(self).atr,
    {
        self.protocol = match protocol {
            ProtocolType::InActive => self.protocol,
            ProtocolType::T0 => ProtocolTypeSet(ProtocolType::T0, SCARD_PROTOCOL_T0),
            ProtocolType::T1 => ProtocolTypeSet(ProtocolType::T1, SCARD_PROTOCOL_T1),
            ProtocolType::T0T1 => ProtocolTypeSet(ProtocolType::T0T1, SCARD_PROTOCOL_TX),
            ProtocolType::RAW => ProtocolTypeSet(ProtocolType::RAW, SCARD_PROTOCOL_RAW),
            ProtocolType::Unknown => self.protocol,
        }
    }

    /// Sets the protocol preference for the next connection and returns the
    /// protocol now in force; `InActive` only reads it. An open channel is
    /// not renegotiated.
    pub fn config_protocol(&mut self, protocol: ProtocolType) -> (r: Option<ProtocolType>)
        requires
            protocol != ProtocolType::Unknown,
        ensures
            final(self).protocol() == preference_after(old(self).protocol(), protocol),
            r == Some(final(self).protocol().0),
            final(self).state() == old(self).state(),
            final(self).spec_atr() == old(self).spec_atr(),
    {
        self.set_protocol(protocol);
        Some(self.protocol.0)
    }

    /// Starts negotiation: the first candidate becomes the preference, and
    /// the reader is to be asked for it.
    pub fn begin_negotiation(&mut self) -> (r: NegotiationStep)
        ensures
            final(self).state() == ConnectionState::Negotiating(0),
            final(self).protocol() == preference_after(
                old(self).protocol(),
                negotiation_candidate(0),
            ),
            r == NegotiationStep::Attempt(final(self).protocol()),
            final(self).spec_atr() == old(self).spec_atr(),
    {
        self.state = ConnectionState::Negotiating(0);
        self.set_protocol(ProtocolType::T0T1);
        NegotiationStep::Attempt(self.protocol)
    }

    /// Takes the reader's answer to the last attempt. An open channel ends
    /// negotiation with the protocol the reader agreed, a mismatch moves to
    /// the next candidate, and any other failure ends it at once. When every
    /// candidate was refused, the session is not ready.
    pub fn negotiation_event(&mut self, result: OpenResult) -> (r: NegotiationStep)
        requires
            old(self).state() matches ConnectionState::Negotiating(i) && i < NEGOTIATION_CANDIDATES,
        ensures
            final(self).spec_atr() == old(self).spec_atr(),
            match (old(self).state(), result) {
                (ConnectionState::Negotiating(i), OpenResult::Opened(mask)) => {
                    &&& final(self).protocol() == protocol_of_mask(mask)
                    &&& final(self).state() == ConnectionState::Opened
                    &&& r matches NegotiationStep::Done(Ok(p)) && p == protocol_of_mask(mask).0
                },
                (ConnectionState::Negotiating(i), OpenResult::ProtocolMismatch) => {
                    if i + 1 < NEGOTIATION_CANDIDATES {
                        &&& final(self).state() == ConnectionState::Negotiating((i + 1) as usize)
                        &&& final(self).protocol() == preference_after(
                            old(self).protocol(),
                            negotiation_candidate(i + 1),
                        )
                        &&& r == NegotiationStep::Attempt(final(self).protocol())
                    } else {
                        &&& final(self).state() == ConnectionState::Disconnected
                        &&& final(self).protocol() == old(self).protocol()
                        &&& r matches NegotiationStep::Done(Err(e)) && e.kind()
                            == SmartcardErrorKind::NotReady
                    }
                },
                (_, _) => {
                    &&& final(self).state() == ConnectionState::Disconnected
                    &&& final(self).protocol() == old(self).protocol()
                    &&& r matches NegotiationStep::Done(Err(e)) && e.kind()
                        == SmartcardErrorKind::ReaderNotAvailable
                },
            },
    {
        let i = match self.state {
            ConnectionState::Negotiating(i) => i,
            _ => 0,
        };
        match result {
            OpenResult::Opened(mask) => {
                self.protocol = lookup_protocol_from_mask(mask);
                self.state = ConnectionState::Opened;
                NegotiationStep::Done(Ok(self.protocol.0))
            },
            OpenResult::ProtocolMismatch => {
                if i + 1 < NEGOTIATION_CANDIDATES {
                    let next = if i == 0 {
                        ProtocolType::T0
                    } else {
                        ProtocolType::T1
                    };
                    self.set_protocol(next);
                    self.state = ConnectionState::Negotiating(i + 1);
                    NegotiationStep::Attempt(self.protocol)
                } else {
                    self.state = ConnectionState::Disconnected;
                    NegotiationStep::Done(Err(SmartcardError::new(SmartcardErrorKind::NotReady)))
                }
            },
            OpenResult::Failed => {
                self.state = ConnectionState::Disconnected;
                NegotiationStep::Done(
                    Err(SmartcardError::new(SmartcardErrorKind::ReaderNotAvailable)),
                )
            },
        }
    }

    /// Decodes the Answer-To-Reset read from the open channel and keeps it.
    /// A buffer that cannot be decoded fails the connection.
    pub fn record_atr(&mut self, raw: &[u8; 32], registry: &CardRegistry) -> (r: Result<
        ProtocolType,
        ATRParseError,
    >)
        requires
            old(self).state() == ConnectionState::Opened,
        ensures
            final(self).protocol() == old(self).protocol(),
            match r {
                Ok(p) => {
                    &&& p == old(self).protocol().0
                    &&& final(self).state() == ConnectionState::Connected
                    &&& parse_result(raw@, registry@) matches Ok(m) && holds_model(
                        final(self).spec_atr(),
                        m,
                    )
                },
                Err(e) => {
                    &&& final(self).state() == ConnectionState::Disconnected
                    &&& final(self).spec_atr() == old(self).spec_atr()
                    &&& parse_result(raw@, registry@) == Err::<AtrModel, _>(e.code())
                },
            },
    {
        match AnswerToReset::new(raw, registry) {
            Ok(atr) => {
                self.atr = atr;
                self.state = ConnectionState::Connected;
                Ok(self.protocol.0)
            },
            Err(e) => {
                self.state = ConnectionState::Disconnected;
                Err(e)
            },
        }
    }

    /// Marks the channel as released.
    pub fn disconnect(&mut self)
        ensures
            final(self).state() == ConnectionState::Disconnected,
            final(self).protocol() == old(self).protocol(),
            final(self).spec_atr() == old(self).spec_atr(),
    {
        self.state = ConnectionState::Disconnected;
    }
}

/// How the reader is settled from the list of readers.
#[derive(Debug, Clone, Copy, PartialEq, Eq, Structural)]
pub enum ReaderChoice {
    /// The reader at this position.
    Index(usize),
    /// The user has to pick one of several readers.
    AskUser,
}

/// Settles the reader from the number of readers present and the connect
/// method. With no reader, or a position past the end of the list, no
/// reader is available; a prompt with a single reader takes it.
pub fn select_reader(reader_count: usize, method: &SmartcardConnectMethod) -> (r: Result<
    ReaderChoice,
    SmartcardError,
>)
    ensures
        match r {
            Ok(ReaderChoice::Index(i)) => i < reader_count && match method {
                SmartcardConnectMethod::ListIdx(n) => i == *n,
                SmartcardConnectMethod::UserPrompt => reader_count == 1 && i == 0,
            },
            Ok(ReaderChoice::AskUser) => reader_count > 1 && method is UserPrompt,
            Err(e) => e.kind() == SmartcardErrorKind::ReaderNotAvailable && (reader_count == 0
                || (method matches SmartcardConnectMethod::ListIdx(n) && n >= reader_count)),
        },
{
    if reader_count == 0 {
        return Err(SmartcardError::new(SmartcardErrorKind::ReaderNotAvailable));
    }
    match method {
        SmartcardConnectMethod::ListIdx(idx) => {
            if *idx < reader_count {
                Ok(ReaderChoice::Index(*idx))
            } else {
                Err(SmartcardError::new(SmartcardErrorKind::ReaderNotAvailable))
            }
        },
        SmartcardConnectMethod::UserPrompt => {
            if reader_count == 1 {
                Ok(ReaderChoice::Index(0))
            } else {
                Ok(ReaderChoice::AskUser)
            }
        },
    }
}

/// The position of the first NUL at or after `from`, or the end of `s`.
pub open spec fn nul_from(s: Seq<u16>, from: int) -> int
    decreases s.len() - from,
{
    if from < 0 || from >= s.len() || s[from] == 0 {
        from
    } else {
        nul_from(s, from + 1)
    }
}

/// `nul_from` never moves back, and stops at the end of `s`.
pub proof fn lemma_nul_from_bounds(s: Seq<u16>, from: int)
    requires
        0 <= from <= s.len(),
    ensures
        from <= nul_from(s, from) <= s.len(),
        nul_from(s, from) < s.len() ==> s[nul_from(s, from)] == 0,
        forall|j: int| from <= j < nul_from(s, from) ==> s[j] != 0,
    decreases s.len() - from,
{
    if from < s.len() && s[from] != 0 {
        lemma_nul_from_bounds(s, from + 1);
    }
}

/// The strings of a NUL-separated list that starts at `from`, up to the
/// first empty string or the end of `s`.
pub open spec fn strings_from(s: Seq<u16>, from: int) -> Seq<Seq<u16>>
    decreases s.len() + 1 - from,
{
    if 0 <= from < s.len() {
        let end = nul_from(s, from);
        proof {
            lemma_nul_from_bounds(s, from);
        }
        if end == from {
            Seq::empty()
        } else {
            seq![s.subrange(from, end)] + strings_from(s, end + 1)
        }
    } else {
        Seq::empty()
    }
}

/// Splits a list of UTF-16 strings written as `name1 NUL name2 NUL ... NUL
/// NUL` (the form in which readers and cards are listed) into its names.
/// A last name with no NUL after it still counts.
pub fn split_multi_string(units: &[u16]) -> (r: Vec<Vec<u16>>)
    ensures
        r@.map_values(|v: Vec<u16>| v@) == strings_from(units@, 0),
{
    let len = units.len();
    let mut out: Vec<Vec<u16>> = Vec::new();
    let mut start: usize = 0;
    while start < len
        invariant
            len == units@.len(),
            start <= len,
            out@.map_values(|v: Vec<u16>| v@) + strings_from(units@, start as int) == strings_from(
                units@,
                0,
            ),
        decreases len - start,
    {
        let mut end: usize = start;
        while end < len && units[end] != 0
            invariant
                len == units@.len(),
                start <= end <= len,
                nul_from(units@, end as int) == nul_from(units@, start as int),
            decreases len - end,
        {
            end = end + 1;
        }
        proof {
            lemma_nul_from_bounds(units@, start as int);
        }
        if end == start {
            assert(strings_from(units@, start as int) =~= Seq::<Seq<u16>>::empty());
            assert(out@.map_values(|v: Vec<u16>| v@) =~= strings_from(units@, 0));
            return out;
        }
        let mut name: Vec<u16> = Vec::new();
        let mut k: usize = start;
        while k < end
            invariant
                len == units@.len(),
                start <= k <= end <= len,
                name@ == units@.subrange(start as int, k as int),
            decreases end - k,
        {
            name.push(units[k]);
            k = k + 1;
            assert(name@ =~= units@.subrange(start as int, k as int));
        }
        let ghost before = out@.map_values(|v: Vec<u16>| v@);
        out.push(name);
        let ghost name_view = units@.subrange(start as int, end as int);
        assert(out@.map_values(|v: Vec<u16>| v@) =~= before.push(name_view));
        assert(strings_from(units@, start as int) == seq![name_view]
            + strings_from(units@, end + 1));
        assert(before.push(name_view) + strings_from(units@, end + 1)
            =~= before + strings_from(units@, start as int));
        if end == len {
            assert(strings_from(units@, end + 1) =~= Seq::<Seq<u16>>::empty());
            assert(out@.map_values(|v: Vec<u16>| v@) =~= strings_from(units@, 0));
            return out;
        }
        start = end + 1;
    }
    assert(strings_from(units@, start as int) =~= Seq::<Seq<u16>>::empty());
    assert(out@.map_values(|v: Vec<u16>| v@) =~= strings_from(units@, 0));
    out
}

/// Whether a character is one of the ASCII digits `0` to `9`.
pub open spec fn is_decimal_digit(c: char) -> bool {
    '0' <= c && c <= '9'
}

/// The decimal digits of a text, in order, all else dropped.
pub open spec fn digits_in(s: Seq<char>) -> Seq<char>
    decreases s.len(),
{
    if s.len() == 0 {
        Seq::empty()
    } else if is_decimal_digit(s.last()) {
        digits_in(s.drop_last()).push(s.last())
    } else {
        digits_in(s.drop_last())
    }
}

/// The number that a sequence of decimal digits writes.
pub open spec fn decimal_value(d: Seq<char>) -> nat
    decreases d.len(),
{
    if d.len() == 0 {
        0
    } else {
        decimal_value(d.drop_last()) * 10 + ((d.last() as u32) - 48) as nat
    }
}

/// Reads the reader number typed at the prompt: the digits of the line,
/// all else dropped, as one decimal number, taken only when below `max`.
pub fn parse_reader_number(line: &str, max: usize) -> (r: Option<usize>)
    ensures
        match r {
            Some(n) => digits_in(line@).len() > 0 && n == decimal_value(digits_in(line@)) && n
                < max,
            None => digits_in(line@).len() == 0 || decimal_value(digits_in(line@)) >= max,
        },
{
    let len = line.unicode_len();
    let mut acc: usize = 0;
    let mut seen = false;
    let mut over = false;
    let mut i: usize = 0;
    while i < len
        invariant
            len == line@.len(),
            i <= len,
            seen == (digits_in(line@.subrange(0, i as int)).len() > 0),
            over ==> decimal_value(digits_in(line@.subrange(0, i as int))) >= max,
            !over ==> acc == decimal_value(digits_in(line@.subrange(0, i as int))),
        decreases len - i,
    {
        let c = line.get_char(i);
        let ghost prefix = line@.subrange(0, i as int);
        let ghost next = line@.subrange(0, i + 1);
        assert(next.drop_last() =~= prefix);
        assert(next.last() == c);
        let ghost ds = digits_in(prefix);
        if '0' <= c && c <= '9' {
            assert(digits_in(next) == ds.push(c));
            assert(ds.push(c).drop_last() =~= ds);
            assert(decimal_value(ds.push(c)) == decimal_value(ds) * 10 + ((c as u32) - 48) as nat);
            seen = true;
            let d = ((c as u32) - 48) as usize;
            if !over {
                if acc > (usize::MAX - d) / 10 {
                    assert(acc * 10 + d > usize::MAX) by (nonlinear_arith)
                        requires
                            acc > (usize::MAX - d) / 10,
                            d <= 9,
                    ;
                    over = true;
                } else {
                    assert(acc * 10 + d <= usize::MAX) by (nonlinear_arith)
                        requires
                            acc <= (usize::MAX - d) / 10,
                            d <= 9,
                    ;
                    acc = acc * 10 + d;
                    if acc >= max {
                        over = true;
                    }
                }
            }
        } else {
            assert(digits_in(next) == ds);
        }
        i = i + 1;
    }
    assert(line@.subrange(0, len as int) =~= line@);
    if seen && !over && acc < max {
        Some(acc)
    } else {
        None
    }
}

/// How a command exchange ended, when it did not simply succeed.
#[derive(Debug, Clone, Copy, PartialEq, Eq, Structural)]
pub enum TransmitErrorKind {
    Success(u8, u8),
    /// Any status word but 0x9000 whose first byte is not 0x62.
    Warn(u8, u8),
    /// A status word whose first byte is 0x62.
    Error(u8, u8),
    /// The channel itself failed, with the backend's code.
    ApiError(i32),
}

/// A failed command exchange.
#[derive(Debug)]
pub struct TransmitError {
    code: TransmitErrorKind,
}

impl TransmitError {
    pub closed spec fn spec_code(&self) -> TransmitErrorKind {
        self.code
    }

    pub fn new(code: TransmitErrorKind) -> (r: Self)
        ensures
            r.code() == code,
    {
        TransmitError { code }
    }

    #[verifier::when_used_as_spec(spec_code)]
    pub fn code(&self) -> (r: TransmitErrorKind)
        ensures
            r == self.spec_code(),
    {
        self.code
    }
}

/// What a response means: its trailing two bytes are the status word;
/// 0x9000 gives the bytes before it.
pub open spec fn response_outcome(response: Seq<u8>) -> Result<Seq<u8>, TransmitErrorKind> {
    let n = response.len();
    let sw1 = response[n - 2];
    let sw2 = response[n - 1];
    if sw1 == 0x90 && sw2 == 0x00 {
        Ok(response.subrange(0, n - 2))
    } else if sw1 == 0x62 {
        Err(TransmitErrorKind::Error(sw1, sw2))
    } else {
        Err(TransmitErrorKind::Warn(sw1, sw2))
    }
}

/// Reads the status word at the end of a card's response.
pub fn interpret_response(response: &[u8]) -> (r: Result<Vec<u8>, TransmitError>)
    requires
        response@.len() >= 2,
    ensures
        match r {
            Ok(v) => response_outcome(response@) == Ok::<_, TransmitErrorKind>(v@),
            Err(e) => response_outcome(response@) == Err::<Seq<u8>, _>(e.code()),
        },
{
    let n = response.len();
    let sw1 = response[n - 2];
    let sw2 = response[n - 1];
    if sw1 == 0x90 && sw2 == 0x00 {
        let mut out: Vec<u8> = Vec::new();
        let mut i: usize = 0;
        while i < n - 2
            invariant
                n == response@.len(),
                n >= 2,
                i <= n - 2,
                out@ == response@.subrange(0, i as int),
            decreases n - 2 - i,
        {
            out.push(response[i]);
            i = i + 1;
            assert(out@ =~= response@.subrange(0, i as int));
        }
        Ok(out)
    } else if sw1 == 0x62 {
        Err(TransmitError::new(TransmitErrorKind::Error(sw1, sw2)))
    } else {
        Err(TransmitError::new(TransmitErrorKind::Warn(sw1, sw2)))
    }
}

} // verus!
