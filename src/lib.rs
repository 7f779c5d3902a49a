//! Smart-card protocol layer: APDU command encoding, Answer-To-Reset
//! decoding, card identification and the connection/negotiation session.

pub mod apdu;
pub mod atr;
pub mod hex;
pub mod nfc_null;
pub mod registry;
pub mod session;
pub mod smart_card;
