//! The named settings documents the application keeps.

use vstd::prelude::*;

use crate::error::AppError;
use crate::error::code_db_update;

verus! {

/// The settings documents, by name.
#[derive(Debug, Clone, Copy, PartialEq, Eq, Structural)]
pub enum SettingsName {
    Interface,
    Learning,
    Hotkeys,
}

/// The stable key of a settings name, as stored and exchanged.
pub open spec fn spec_settings_key(n: SettingsName) -> Seq<char> {
    match n {
        SettingsName::Interface => "interface"@,
        SettingsName::Learning => "learning"@,
        SettingsName::Hotkeys => "hotkeys"@,
    }
}

impl SettingsName {
    /// The stable key of this settings name.
    pub fn as_key(&self) -> (r: &'static str)
        ensures
            r@ == spec_settings_key(*self),
    {
        match self {
            SettingsName::Interface => "interface",
            SettingsName::Learning => "learning",
            SettingsName::Hotkeys => "hotkeys",
        }
    }

    /// The settings name a stable key denotes; unknown keys are rejected.
    pub fn from_key(key: &str) -> (r: Result<SettingsName, AppError>)
        ensures
            match r {
                Ok(n) => key@ == spec_settings_key(n),
                Err(e) => (forall|n: SettingsName| key@ != spec_settings_key(n)) && e.code@
                    == code_db_update(),
            },
    {
        let owned: String = key.to_owned();
        if owned == "interface".to_owned() {
            Ok(SettingsName::Interface)
        } else if owned == "learning".to_owned() {
            Ok(SettingsName::Learning)
        } else if owned == "hotkeys".to_owned() {
            Ok(SettingsName::Hotkeys)
        } else {
            proof {
                assert forall|n: SettingsName| key@ != spec_settings_key(n) by {
                    match n {
                        SettingsName::Interface => assert(key@ != "interface"@),
                        SettingsName::Learning => assert(key@ != "learning"@),
                        SettingsName::Hotkeys => assert(key@ != "hotkeys"@),
                    }
                }
            }
            let mut details: String = "Invalid settings name: ".to_owned();
            details.append(key);
            Err(AppError::new("db.update", Some(details)))
        }
    }
}

} // verus!
