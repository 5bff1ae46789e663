//! Interface settings: language, theme and motion preferences.

use vstd::prelude::*;

use crate::error::AppError;
use crate::error::code_interface_language;
use crate::error::code_interface_motion;
use crate::error::code_interface_theme;

verus! {

/// The interface preferences, each one of a fixed set of tags.
#[derive(Debug)]
pub struct InterfaceSettings {
    pub language: String,
    pub theme: String,
    pub motion: String,
}

/// Whether the language tag is one the interface offers.
pub open spec fn language_ok(s: Seq<char>) -> bool {
    s == "en"@ || s == "ru"@
}

/// Whether the theme tag is one the interface offers.
pub open spec fn theme_ok(s: Seq<char>) -> bool {
    s == "light"@ || s == "dark"@ || s == "system"@
}

/// Whether the motion tag is one the interface offers.
pub open spec fn motion_ok(s: Seq<char>) -> bool {
    s == "on"@ || s == "off"@ || s == "system"@
}

/// The code reported for rejected interface settings: the language is
/// checked first, then the theme, then motion.
pub open spec fn interface_err_code(s: InterfaceSettings) -> Seq<char> {
    if !language_ok(s.language@) {
        code_interface_language()
    } else if !theme_ok(s.theme@) {
        code_interface_theme()
    } else {
        code_interface_motion()
    }
}

impl InterfaceSettings {
    /// Reject settings holding a tag outside the offered sets.
    pub fn validate(&self) -> (r: Result<(), AppError>)
        ensures
            r is Ok <==> language_ok(self.language@) && theme_ok(self.theme@) && motion_ok(
                self.motion@,
            ),
            r matches Err(e) ==> e.code@ == interface_err_code(*self) && e.details is Some,
    {
        let language_known = self.language == "en".to_owned() || self.language
            == "ru".to_owned();
        if !language_known {
            let mut details: String = "Invalid language: ".to_owned();
            details.append(self.language.as_str());
            return Err(AppError::new("validation.settings-interface.language", Some(details)));
        }
        let theme_known = self.theme == "light".to_owned() || self.theme == "dark".to_owned()
            || self.theme == "system".to_owned();
        if !theme_known {
            let mut details: String = "Invalid theme: ".to_owned();
            details.append(self.theme.as_str());
            return Err(AppError::new("validation.settings-interface.theme", Some(details)));
        }
        let motion_known = self.motion == "on".to_owned() || self.motion == "off".to_owned()
            || self.motion == "system".to_owned();
        if !motion_known {
            let mut details: String = "Invalid motion setting: ".to_owned();
            details.append(self.motion.as_str());
            return Err(AppError::new("validation.settings-interface.motion", Some(details)));
        }
        Ok(())
    }
}

} // verus!
