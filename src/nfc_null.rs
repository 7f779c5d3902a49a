//! A backend with no reader behind it, which only reports its version.

use vstd::prelude::*;

use crate::smart_card::SmartcardVersion;

verus! {

/// A backend that drives no reader.
pub struct NFCNull {}

impl NFCNull {
    pub fn new() -> (r: Self) {
        NFCNull {  }
    }

    /// The backend's version as text.
    pub fn version_str(&self) -> (r: Option<String>)
        ensures
            r matches Some(s) && s@ == "NFC Null 0.0.0.1"@,
    {
        Some("NFC Null 0.0.0.1".to_owned())
    }

    /// The backend's version, 0.0.0.2.
    pub fn version(&self) -> (r: Option<SmartcardVersion>)
        ensures
            r matches Some(v) && v.major == 0 && v.minor == 0 && v.build == 0 && v.revision == 2,
    {
        Some(SmartcardVersion::new(0, 0, 0, 2))
    }
}

} // verus!
