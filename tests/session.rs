use smartcard::atr::{ATRParseErrorCode, CardName};
use smartcard::nfc_null::NFCNull;
use smartcard::registry::CardRegistry;
use smartcard::session::{
    interpret_response, lookup_protocol_from_mask, parse_reader_number, select_reader,
    split_multi_string,
    ConnectionState, NegotiationStep, OpenResult, ProtocolTypeSet, ReaderChoice, Session,
    TransmitErrorKind,
};
use smartcard::smart_card::{
    ProtocolType, SmartcardConnectMethod, SmartcardError, SmartcardErrorKind, SmartcardVersion,
};

fn attempt(step: NegotiationStep) -> ProtocolTypeSet {
    match step {
        NegotiationStep::Attempt(set) => set,
        NegotiationStep::Done(_) => panic!("negotiation ended early"),
    }
}

fn done(step: NegotiationStep) -> Result<ProtocolType, SmartcardError> {
    match step {
        NegotiationStep::Done(r) => r,
        NegotiationStep::Attempt(_) => panic!("negotiation still running"),
    }
}

#[test]
fn negotiation_falls_back_to_t1() {
    let mut s = Session::new();
    let mut tried = Vec::new();
    tried.push(attempt(s.begin_negotiation()));
    tried.push(attempt(s.negotiation_event(OpenResult::ProtocolMismatch)));
    tried.push(attempt(s.negotiation_event(OpenResult::ProtocolMismatch)));
    let result = done(s.negotiation_event(OpenResult::Opened(2)));
    assert_eq!(
        tried,
        vec![
            ProtocolTypeSet(ProtocolType::T0T1, 3),
            ProtocolTypeSet(ProtocolType::T0, 1),
            ProtocolTypeSet(ProtocolType::T1, 2),
        ]
    );
    assert_eq!(result.unwrap(), ProtocolType::T1);
    assert_eq!(s.state(), ConnectionState::Opened);
}

#[test]
fn negotiation_adopts_the_protocol_the_reader_agreed() {
    let mut s = Session::new();
    attempt(s.begin_negotiation());
    assert_eq!(done(s.negotiation_event(OpenResult::Opened(1))).unwrap(), ProtocolType::T0);
    assert_eq!(s.protocol(), ProtocolTypeSet(ProtocolType::T0, 1));
}

#[test]
fn negotiation_stops_on_other_failure() {
    let mut s = Session::new();
    attempt(s.begin_negotiation());
    let err = done(s.negotiation_event(OpenResult::Failed)).unwrap_err();
    assert_eq!(err.kind(), SmartcardErrorKind::ReaderNotAvailable);
    assert_eq!(s.state(), ConnectionState::Disconnected);
}

#[test]
fn negotiation_with_every_candidate_refused_is_not_ready() {
    let mut s = Session::new();
    attempt(s.begin_negotiation());
    attempt(s.negotiation_event(OpenResult::ProtocolMismatch));
    attempt(s.negotiation_event(OpenResult::ProtocolMismatch));
    let err = done(s.negotiation_event(OpenResult::ProtocolMismatch)).unwrap_err();
    assert_eq!(err.kind(), SmartcardErrorKind::NotReady);
    assert_eq!(err.message(), "Smart card not ready.");
    assert_eq!(s.state(), ConnectionState::Disconnected);
}

fn mifare_atr() -> [u8; 32] {
    let mut raw = [0u8; 32];
    raw[..20].copy_from_slice(&[
        0x3B, 0x8F, 0x80, 0x01, 0x80, 0x4F, 0x0C, 0xA0, 0x00, 0x00, 0x03, 0x06, 0x03, 0x00, 0x01,
        0x00, 0x00, 0x00, 0x00, 0x6A,
    ]);
    raw
}

#[test]
fn connected_session_keeps_the_decoded_atr() {
    let mut s = Session::new();
    attempt(s.begin_negotiation());
    done(s.negotiation_event(OpenResult::Opened(3))).unwrap();
    let p = s.record_atr(&mifare_atr(), &CardRegistry::new()).unwrap();
    assert_eq!(p, ProtocolType::T0T1);
    assert_eq!(s.state(), ConnectionState::Connected);
    assert_eq!(s.get_atr().card_name.as_ref().unwrap().1, CardName::MifareClassic1k);
    s.disconnect();
    assert_eq!(s.state(), ConnectionState::Disconnected);
}

#[test]
fn undecodable_atr_fails_the_connection() {
    let mut s = Session::new();
    attempt(s.begin_negotiation());
    done(s.negotiation_event(OpenResult::Opened(2))).unwrap();
    let mut raw = mifare_atr();
    raw[0] = 0x3F;
    let err = s.record_atr(&raw, &CardRegistry::new()).unwrap_err();
    assert_eq!(err.code(), ATRParseErrorCode::InvalidHeader(0x3F));
    assert_eq!(s.state(), ConnectionState::Disconnected);
    assert!(s.get_atr().raw_atr.is_none());
}

#[test]
fn config_protocol_sets_the_preference() {
    let mut s = Session::new();
    assert_eq!(s.config_protocol(ProtocolType::InActive), Some(ProtocolType::T0));
    assert_eq!(s.config_protocol(ProtocolType::T1), Some(ProtocolType::T1));
    assert_eq!(s.protocol(), ProtocolTypeSet(ProtocolType::T1, 2));
    assert_eq!(s.config_protocol(ProtocolType::RAW), Some(ProtocolType::RAW));
    assert_eq!(s.protocol(), ProtocolTypeSet(ProtocolType::RAW, 0x1_0000));
    assert_eq!(s.config_protocol(ProtocolType::T0T1), Some(ProtocolType::T0T1));
    assert_eq!(s.config_protocol(ProtocolType::InActive), Some(ProtocolType::T0T1));
    assert_eq!(s.protocol(), ProtocolTypeSet(ProtocolType::T0T1, 3));
}

#[test]
fn protocol_masks_from_the_reader() {
    assert_eq!(lookup_protocol_from_mask(1), ProtocolTypeSet(ProtocolType::T0, 1));
    assert_eq!(lookup_protocol_from_mask(2), ProtocolTypeSet(ProtocolType::T1, 2));
    assert_eq!(lookup_protocol_from_mask(3), ProtocolTypeSet(ProtocolType::T0T1, 3));
    assert_eq!(lookup_protocol_from_mask(0), ProtocolTypeSet(ProtocolType::RAW, 0x1_0000));
    assert_eq!(lookup_protocol_from_mask(8), ProtocolTypeSet(ProtocolType::Unknown, 0));
}

#[test]
fn status_word_9000_gives_the_payload() {
    assert_eq!(interpret_response(&[0xAA, 0xBB, 0x90, 0x00]).unwrap(), vec![0xAA, 0xBB]);
    assert_eq!(interpret_response(&[0x90, 0x00]).unwrap(), Vec::<u8>::new());
}

#[test]
fn status_word_62_is_an_error() {
    let err = interpret_response(&[0xAA, 0xBB, 0x62, 0x81]).unwrap_err();
    assert_eq!(err.code(), TransmitErrorKind::Error(0x62, 0x81));
}

#[test]
fn other_status_words_are_warnings() {
    let err = interpret_response(&[0xAA, 0xBB, 0x6A, 0x82]).unwrap_err();
    assert_eq!(err.code(), TransmitErrorKind::Warn(0x6A, 0x82));
    let err = interpret_response(&[0x90, 0x01]).unwrap_err();
    assert_eq!(err.code(), TransmitErrorKind::Warn(0x90, 0x01));
}

#[test]
fn reader_selection() {
    let none = select_reader(0, &SmartcardConnectMethod::UserPrompt).unwrap_err();
    assert_eq!(none.kind(), SmartcardErrorKind::ReaderNotAvailable);
    assert_eq!(none.message(), "Smart card reader not available.");
    assert_eq!(select_reader(1, &SmartcardConnectMethod::UserPrompt).unwrap(), ReaderChoice::Index(0));
    assert_eq!(select_reader(3, &SmartcardConnectMethod::UserPrompt).unwrap(), ReaderChoice::AskUser);
    assert_eq!(select_reader(3, &SmartcardConnectMethod::ListIdx(2)).unwrap(), ReaderChoice::Index(2));
    let past = select_reader(3, &SmartcardConnectMethod::ListIdx(3)).unwrap_err();
    assert_eq!(past.kind(), SmartcardErrorKind::ReaderNotAvailable);
}

#[test]
fn reader_number_from_a_typed_line() {
    assert_eq!(parse_reader_number("1\n", 3), Some(1));
    assert_eq!(parse_reader_number(" 0 \r\n", 3), Some(0));
    assert_eq!(parse_reader_number("#1x2", 20), Some(12));
    assert_eq!(parse_reader_number("3\n", 3), None);
    assert_eq!(parse_reader_number("abc\n", 3), None);
    assert_eq!(parse_reader_number("", 3), None);
    assert_eq!(parse_reader_number("99999999999999999999999", usize::MAX), None);
}

#[test]
fn error_messages_follow_the_kind() {
    let e = SmartcardError::new(SmartcardErrorKind::ResMgrCtxInit);
    assert_eq!(e.kind(), SmartcardErrorKind::ResMgrCtxInit);
    assert_eq!(e.message(), "Resource manager unavailable. context acquire failed.");
    assert_eq!(e.clone().message(), e.message());
    assert_eq!(SmartcardError::new(SmartcardErrorKind::ProtocolMismatch).message(), "Smart card Protocol mismatch.");
    assert_eq!(SmartcardError::new(SmartcardErrorKind::Success).message(), "Success");
}

#[test]
fn protocol_names() {
    assert_eq!(ProtocolType::T1.to_string(), "T1(ブロック転送)");
    assert_eq!(ProtocolType::T0.to_string(), "T0(キャラクタ転送)");
    assert_eq!(ProtocolType::RAW.to_string(), "RAW");
    assert_eq!(ProtocolType::T0T1.to_string(), "<不明>");
}

#[test]
fn null_backend_versions() {
    let n = NFCNull::new();
    assert_eq!(n.version_str().unwrap(), "NFC Null 0.0.0.1");
    let v = n.version().unwrap();
    assert_eq!((v.major, v.minor, v.build, v.revision), (0, 0, 0, 2));
    let w = SmartcardVersion::new(1, 2, 3, 4);
    assert_eq!((w.major, w.minor, w.build, w.revision), (1, 2, 3, 4));
}

#[test]
fn reader_names_split_at_nul_until_an_empty_name() {
    let a = 'A' as u16;
    let b = 'B' as u16;
    let c = 'C' as u16;
    assert_eq!(split_multi_string(&[a, 0, b, c, 0, 0]), vec![vec![a], vec![b, c]]);
    assert_eq!(split_multi_string(&[a, 0, b, c, 0, 0, a, 0]), vec![vec![a], vec![b, c]]);
    assert_eq!(split_multi_string(&[a, b]), vec![vec![a, b]]);
    assert_eq!(split_multi_string(&[0, a, 0]), Vec::<Vec<u16>>::new());
    assert_eq!(split_multi_string(&[]), Vec::<Vec<u16>>::new());
}

#[test]
fn errors_compare_by_kind() {
    assert_eq!(
        SmartcardError::new(SmartcardErrorKind::NotReady),
        SmartcardError::new(SmartcardErrorKind::NotReady)
    );
    assert_ne!(
        SmartcardError::new(SmartcardErrorKind::NotReady),
        SmartcardError::new(SmartcardErrorKind::ConnectionLost)
    );
}
