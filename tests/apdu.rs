#![allow(non_snake_case)]

use smartcard::apdu::{
    ApduBuilder, ApduBuilderExtWithFelica, ApduBuilderExtWithPcsc3V2, Classes, Instructions,
    SecureMessaging,
};
use smartcard::smart_card::APDU;

#[test]
fn APDU_secure_disable_1() {
    let apdu = ApduBuilder::new();
    let mode = apdu.get_secure_mode();
    assert_eq!(mode, SecureMessaging::Plain);
    let payload = apdu.build();
    assert_eq!(payload.read8()[0], 0);
}

#[test]
fn APDU_secure_disable_2() {
    let mut apdu = ApduBuilder::new();
    apdu.set_secure_mode(SecureMessaging::Plain);
    let mode = apdu.get_secure_mode();
    assert_eq!(mode, SecureMessaging::Plain);
    let payload = apdu.build();
    assert_eq!(payload.read8()[0], 0);
}

#[test]
fn APDU_secure_proprietary() {
    let mut apdu = ApduBuilder::new();
    apdu.set_secure_mode(SecureMessaging::Proprietary);
    let mode = apdu.get_secure_mode();
    assert_eq!(mode, SecureMessaging::Proprietary);
    let payload = apdu.build();
    assert_eq!(payload.read8()[0], 0b0000_0100);
}

#[test]
fn APDU_secure_clause6() {
    let mut apdu = ApduBuilder::new();
    apdu.set_secure_mode(SecureMessaging::Clause6);
    let mode = apdu.get_secure_mode();
    assert_eq!(mode, SecureMessaging::Clause6);
    let payload = apdu.build();
    assert_eq!(payload.read8()[0], 0b0000_1000);
}

#[test]
fn APDU_secure_clause6_auth() {
    let mut apdu = ApduBuilder::new();
    apdu.set_secure_mode(SecureMessaging::Clause6HeaderAuth);
    let mode = apdu.get_secure_mode();
    assert_eq!(mode, SecureMessaging::Clause6HeaderAuth);
    let payload = apdu.build();
    assert_eq!(payload.read8()[0], 0b0000_1100);
}

#[test]
fn APDU_secure_cause6_to_clause6_auth() {
    let mut apdu = ApduBuilder::new();
    apdu.set_secure_mode(SecureMessaging::Clause6);
    apdu.set_secure_mode(SecureMessaging::Clause6HeaderAuth);
    let mode = apdu.get_secure_mode();
    assert_eq!(mode, SecureMessaging::Clause6HeaderAuth);
    let payload = apdu.build();
    assert_eq!(payload.read8()[0], 0b0000_1100);
}

const MODES: [SecureMessaging; 4] = [
    SecureMessaging::Plain,
    SecureMessaging::Proprietary,
    SecureMessaging::Clause6,
    SecureMessaging::Clause6HeaderAuth,
];

#[test]
fn secure_mode_reads_back_over_any_prior_class_byte() {
    for prior in [0x00u8, 0xff, 0x0c, 0x83, 0x5a] {
        for m in MODES {
            let mut b = ApduBuilder::new();
            b.set_raw_classs_code(prior);
            b.set_secure_mode(m);
            assert_eq!(b.get_secure_mode(), m);
            let cla = b.build().read8()[0];
            assert_eq!(cla & 0xf3, prior & 0xf3);
        }
    }
}

#[test]
fn secure_mode_set_twice_keeps_the_last() {
    for first in MODES {
        for second in MODES {
            let mut b = ApduBuilder::new();
            b.set_secure_mode(first).set_secure_mode(second);
            assert_eq!(b.get_secure_mode(), second);
        }
    }
}

#[test]
fn extended_bit_sets_and_clears_only_bit_seven() {
    let mut b = ApduBuilder::new();
    b.set_raw_classs_code(0x0d);
    b.set_ext(true);
    assert_eq!(b.build().read8()[0], 0x8d);
    b.set_ext(false);
    assert_eq!(b.build().read8()[0], 0x0d);
}

#[test]
fn logical_channel_in_range_is_stored() {
    for n in 0u8..=3 {
        let mut b = ApduBuilder::new();
        b.set_raw_classs_code(0xf0);
        b.set_vchannel(n);
        assert_eq!(b.get_vchannel(), n);
        assert_eq!(b.build().read8()[0], 0xf0 | n);
    }
}

#[test]
fn logical_channel_out_of_range_is_ignored() {
    let mut b = ApduBuilder::new();
    b.set_vchannel(2);
    b.set_vchannel(4);
    assert_eq!(b.get_vchannel(), 2);
    b.set_vchannel(255);
    assert_eq!(b.get_vchannel(), 2);
    assert_eq!(b.build().read8()[0], 0x02);
}

#[test]
fn builder_never_chains_commands() {
    let mut b = ApduBuilder::new();
    assert!(!b.is_command_chain());
}

#[test]
fn empty_command_is_four_zero_bytes() {
    assert_eq!(ApduBuilder::new().build().read8(), vec![0, 0, 0, 0]);
}

#[test]
fn get_data_presets_serialize_with_one_data_byte() {
    assert_eq!(ApduBuilder::new().get_serial().build().read8(), vec![0xff, 0xca, 0x00, 0x00, 0x00]);
    assert_eq!(ApduBuilder::new().get_ats().build().read8(), vec![0xff, 0xca, 0x01, 0x00, 0x00]);
    assert_eq!(ApduBuilder::new().get_card_id().build().read8(), vec![0xff, 0xca, 0xf0, 0x00, 0x00]);
    assert_eq!(ApduBuilder::new().get_card_name().build().read8(), vec![0xff, 0xca, 0xf1, 0x00, 0x00]);
    assert_eq!(ApduBuilder::new().get_card_kind().build().read8(), vec![0xff, 0xca, 0xf3, 0x00, 0x00]);
    assert_eq!(
        ApduBuilder::new().get_card_kind_name().build().read8(),
        vec![0xff, 0xca, 0xf4, 0x00, 0x00]
    );
}

#[test]
fn preset_overwrites_earlier_class_bits() {
    let mut b = ApduBuilder::new();
    b.set_secure_mode(SecureMessaging::Clause6).set_vchannel(3);
    b.get_serial();
    assert_eq!(b.get_secure_mode(), SecureMessaging::Clause6HeaderAuth);
    assert_eq!(b.get_vchannel(), 3);
    assert_eq!(b.build().read8()[0], 0xff);
}

#[test]
fn class_and_instruction_codes() {
    assert_eq!(Classes::IsoFullAccording.code(), 0x00);
    assert_eq!(Classes::StructAndFlagsIsoAccordingProprietarySemanticsAndEncoding1.code(), 0x80);
    assert_eq!(Classes::StructAndFlagsIsoAccordingProprietarySemanticsAndEncoding2.code(), 0x90);
    assert_eq!(Classes::IsoPrincipleFullAccording.code(), 0xa0);
    assert_eq!(Classes::StructIsoAccording1.code(), 0xb0);
    assert_eq!(Classes::StructIsoAccording2.code(), 0xc0);
    assert_eq!(Classes::Proprietary1.code(), 0xd0);
    assert_eq!(Classes::Proprietary2.code(), 0xe0);
    assert_eq!(Instructions::EraseBinary.code(), 0x0e);
    assert_eq!(Instructions::SelectFile.code(), 0xa4);
    assert_eq!(Instructions::GetData.code(), 0xca);
    assert_eq!(Instructions::AppendRecord.code(), 0xe2);
}
