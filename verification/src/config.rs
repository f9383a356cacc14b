//! The configuration.
use vstd::prelude::*;

use crate::hotkey::{parse_hotkey_or_default, HotkeyChoice};
#[allow(unused_imports)]
use crate::hotkey::{chosen, stands_for, ALT, CONTROL};

verus! {

/// What the configuration file holds.
#[derive(Debug, PartialEq, Eq)]
pub struct MyConfig {
    pub version: u8,
    /// The hotkey that toggles the tracked window.
    pub key_toggle: String,
    /// The hotkey that makes a window the tracked one.
    pub key_track: String,
}

impl Default for MyConfig {
    fn default() -> (config: Self)
        ensures
            config.version == 1,
            config.key_toggle@ == "F8"@,
            config.key_track@ == "Ctrl+Alt+Q"@,
    {
        MyConfig {
            version: 1,
            key_toggle: "F8".to_owned(),
            key_track: "Ctrl+Alt+Q".to_owned(),
        }
    }
}

impl MyConfig {
    /// The hotkey that toggles the tracked window, as configured or else F8, and
    /// the one that makes a window the tracked one, as configured or else Q with
    /// Control and Alt. The two defaults can be told apart.
    pub fn hotkeys(&self) -> (hotkeys: (HotkeyChoice, HotkeyChoice))
        ensures
            hotkeys.0@ == chosen(self.key_toggle@, "F8"@),
            hotkeys.1@ == chosen(self.key_track@, "Ctrl+Alt+Q"@),
            stands_for(hotkeys.0, self.key_toggle@, "F8"@),
            stands_for(hotkeys.1, self.key_track@, "Ctrl+Alt+Q"@),
            self.key_toggle@ == "F8"@ ==> !hotkeys.0.fallback,
            self.key_track@ == "Ctrl+Alt+Q"@ ==> !hotkeys.1.fallback,
            hotkeys.0.fallback || self.key_toggle@ == "F8"@ ==> hotkeys.0.hotkey.mods == 0
                && hotkeys.0.hotkey.key@ == "F8"@,
            hotkeys.1.fallback || self.key_track@ == "Ctrl+Alt+Q"@ ==> hotkeys.1.hotkey.mods
                == CONTROL + ALT && hotkeys.1.hotkey.key@ == "KeyQ"@,
            hotkeys.0.hotkey.mods != hotkeys.1.hotkey.mods ==> hotkeys.0.hotkey.id
                != hotkeys.1.hotkey.id,
    {
        let default: MyConfig = MyConfig::default();
        let toggle: HotkeyChoice = parse_hotkey_or_default(
            self.key_toggle.as_str(),
            default.key_toggle.as_str(),
        );
        let track: HotkeyChoice = parse_hotkey_or_default(
            self.key_track.as_str(),
            default.key_track.as_str(),
        );
        (toggle, track)
    }
}

} // verus!
