//! Types shared by every part of the library: the command interface,
//! transmission protocols, versions and session-level errors.

use vstd::prelude::*;

verus! {

/// A command that can be put on the wire.
pub trait APDU {
    /// The bytes this command is sent as.
    spec fn wire(&self) -> Seq<u8>;

    /// The bytes this command is sent as.
    fn read8(&self) -> (r: Vec<u8>)
        ensures
            r@ == self.wire(),
    ;
}

/// How the reader to connect to is chosen.
pub enum SmartcardConnectMethod {
    /// Ask the user to pick one when there is more than one reader.
    UserPrompt,
    /// Take the reader at this position of the reader list.
    ListIdx(usize),
}

/// Identification queries a card family can answer without a session.
pub trait SmartcardInfo {
    fn get_card_type() -> Option<(u32, String)>;

    fn get_card_name() -> Option<(u32, String)>;

    fn get_card_kind() -> Option<(u32, String)>;
}

/// The version of a reader backend.
#[derive(Debug, Clone, Copy)]
pub struct SmartcardVersion {
    pub major: u32,
    pub minor: u32,
    pub build: u32,
    pub revision: u32,
}

impl SmartcardVersion {
    pub fn new(major: u32, minor: u32, build: u32, revision: u32) -> (r: Self)
        ensures
            r.major == major,
            r.minor == minor,
            r.build == build,
            r.revision == revision,
    {
        SmartcardVersion { major: major, minor: minor, build: build, revision: revision }
    }
}

/// Transmission protocols between reader and card.
#[derive(Debug, Clone, Copy, PartialEq, Eq, Structural)]
pub enum ProtocolType {
    /// Keep the protocol that is active now.
    InActive,
    /// Raw transfer.
    RAW,
    /// ISO 7816-3 T=0, character oriented half duplex.
    T0,
    /// ISO 7816-3 T=1, block oriented half duplex.
    T1,
    /// Either T=0 or T=1.
    T0T1,
    /// A protocol none of the others names.
    Unknown,
}

/// The display name of a protocol.
pub open spec fn protocol_name(p: ProtocolType) -> Seq<char> {
    match p {
        ProtocolType::T1 => "T1(ブロック転送)"@,
        ProtocolType::T0 => "T0(キャラクタ転送)"@,
        ProtocolType::RAW => "RAW"@,
        _ => "<不明>"@,
    }
}

impl ProtocolType {
    /// The display name of the protocol.
    pub fn to_string(&self) -> (r: String)
        ensures
            r@ == protocol_name(*self),
    {
        match self {
            ProtocolType::T1 => "T1(ブロック転送)",
            ProtocolType::T0 => "T0(キャラクタ転送)",
            ProtocolType::RAW => "RAW",
            _ => "<不明>",
        }.to_owned()
    }
}

/// What a reader reports while a card is awaited.
#[derive(Debug, Clone, PartialEq)]
pub enum SmartcardState {
    /// Scanning; the value is the timeout, `None` waits without end.
    Scanning(Option<usize>),
    /// The wait ran out before a card came.
    ScanTimeout,
    /// No card is on the reader.
    CardReaderEmpty,
    /// No reader is connected.
    CardReaderUnavailable,
    /// Anything else, with a message for the user when there is one.
    UndefineState(Option<String>),
}

/// Session-level failure kinds.
#[derive(Debug, Clone, Copy, PartialEq, Eq, Structural)]
pub enum SmartcardErrorKind {
    Success,
    /// The resource manager's context could not be set up.
    ResMgrCtxInit,
    /// No usable reader.
    ReaderNotAvailable,
    /// No usable card.
    CardNotAvailable,
    /// The card could not be detected.
    CardDetectionFailed,
    /// The reader list could not be read.
    ReaderDetectionFailed,
    /// No connection to the card could be made.
    NotReady,
    /// Reader and card share no protocol.
    ProtocolMismatch,
    /// The connection to the card broke off.
    ConnectionLost,
}

/// The message that goes with each error kind.
pub open spec fn kind_message(kind: SmartcardErrorKind) -> Seq<char> {
    match kind {
        SmartcardErrorKind::Success => "Success"@,
        SmartcardErrorKind::ResMgrCtxInit => {
            "Resource manager unavailable. context acquire failed."@
        },
        SmartcardErrorKind::ReaderDetectionFailed => "Smart card reader detection failed."@,
        SmartcardErrorKind::ReaderNotAvailable => "Smart card reader not available."@,
        SmartcardErrorKind::ConnectionLost => "The connection to the smart card has been lost."@,
        SmartcardErrorKind::CardNotAvailable => "Smart card not available."@,
        SmartcardErrorKind::CardDetectionFailed => "Smart card detection failed."@,
        SmartcardErrorKind::ProtocolMismatch => "Smart card Protocol mismatch."@,
        SmartcardErrorKind::NotReady => "Smart card not ready."@,
    }
}

/// A session-level error: its kind, and the message that the kind fixes.
#[derive(Debug)]
pub struct SmartcardError {
    msg: String,
    kind: SmartcardErrorKind,
}

impl SmartcardError {
    #[verifier::type_invariant]
    spec fn message_matches_kind(self) -> bool {
        self.msg@ == kind_message(self.kind)
    }

    pub closed spec fn spec_kind(&self) -> SmartcardErrorKind {
        self.kind
    }

    pub fn new(kind: SmartcardErrorKind) -> (r: Self)
        ensures
            r.kind() == kind,
    {
        SmartcardError { msg: SmartcardError::kind2msg(kind), kind: kind }
    }

    fn kind2msg(kind: SmartcardErrorKind) -> (r: String)
        ensures
            r@ == kind_message(kind),
    {
        let msg = match kind {
            SmartcardErrorKind::Success => "Success",
            SmartcardErrorKind::ResMgrCtxInit => {
                "Resource manager unavailable. context acquire failed."
            },
            SmartcardErrorKind::ReaderDetectionFailed => "Smart card reader detection failed.",
            SmartcardErrorKind::ReaderNotAvailable => "Smart card reader not available.",
            SmartcardErrorKind::ConnectionLost => "The connection to the smart card has been lost.",
            SmartcardErrorKind::CardNotAvailable => "Smart card not available.",
            SmartcardErrorKind::CardDetectionFailed => "Smart card detection failed.",
            SmartcardErrorKind::ProtocolMismatch => "Smart card Protocol mismatch.",
            SmartcardErrorKind::NotReady => "Smart card not ready.",
        };
        msg.to_owned()
    }

    /// The kind of the error.
    #[verifier::when_used_as_spec(spec_kind)]
    pub fn kind(&self) -> (r: SmartcardErrorKind)
        ensures
            r == self.spec_kind(),
    {
        self.kind
    }

    /// The human-readable message, which the kind determines.
    pub fn message(&self) -> (r: String)
        ensures
            r@ == kind_message(self.kind()),
    {
        proof {
            use_type_invariant(self);
        }
        self.msg.clone()
    }
}

impl Clone for SmartcardError {
    fn clone(&self) -> (r: Self)
        ensures
            r.kind() == self.kind(),
    {
        proof {
            use_type_invariant(self);
        }
        SmartcardError { msg: self.msg.clone(), kind: self.kind }
    }
}

impl PartialEq for SmartcardError {
    fn eq(&self, other: &SmartcardError) -> (r: bool) {
        self.kind == other.kind
    }
}

impl vstd::std_specs::cmp::PartialEqSpecImpl for SmartcardError {
    open spec fn obeys_eq_spec() -> bool {
        true
    }

    open spec fn eq_spec(&self, other: &SmartcardError) -> bool {
        self.kind() == other.kind()
    }
}

} // verus!
