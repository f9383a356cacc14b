//! Hotkeys, as they are written in the configuration.
use vstd::prelude::*;

use global_hotkey::hotkey::{HotKey, HotKeyParseError};

verus! {

/// A key with its modifiers.
#[derive(Debug, PartialEq, Eq)]
pub struct Hotkey {
    /// The modifiers, one bit each.
    pub mods: u32,
    /// The name of the key.
    pub key: String,
    /// The number that events of the hotkey carry.
    pub id: u32,
}

impl View for Hotkey {
    type V = (u32, Seq<char>, u32);

    open spec fn view(&self) -> (u32, Seq<char>, u32) {
        (self.mods, self.key@, self.id)
    }
}

impl Clone for Hotkey {
    fn clone(&self) -> (copy: Self)
        ensures
            copy == *self,
    {
        Hotkey { mods: self.mods, key: self.key.clone(), id: self.id }
    }
}

/// Why a text is no hotkey: `global_hotkey::hotkey::HotKeyParseError`, which is
/// passed over unread.
#[verifier::external_type_specification]
#[verifier::external_body]
pub struct ExHotKeyParseError(HotKeyParseError);

/// The hotkey that a text stands for, if it stands for one: its modifiers, the
/// name of its key and its number, as `HotKey`'s parser gives them on Windows.
/// (The parser reads `CmdOrCtrl` as another modifier on macOS alone.)
pub uninterp spec fn hotkey_named(text: Seq<char>) -> Option<(u32, Seq<char>, u32)>;

/// The modifier bit of Alt.
pub const ALT: u32 = 0x1;

/// The modifier bit of Control.
pub const CONTROL: u32 = 0x8;

/// The texts that the program falls back on. They are hotkeys for certain.
pub open spec fn surely_hotkey(text: Seq<char>) -> bool {
    text == "F8"@ || text == "Ctrl+Alt+Q"@
}

/// What is known of the hotkey that a text stands for: its number holds the
/// modifiers above the lower sixteen bits, and the texts that the program falls
/// back on stand for F8 alone, and for Q with Control and Alt.
pub open spec fn known_hotkey(text: Seq<char>, hotkey: (u32, Seq<char>, u32)) -> bool {
    &&& hotkey.2 / 0x1_0000 == hotkey.0
    &&& text == "F8"@ ==> hotkey.0 == 0 && hotkey.1 == "F8"@
    &&& text == "Ctrl+Alt+Q"@ ==> hotkey.0 == CONTROL + ALT && hotkey.1 == "KeyQ"@
}

/// Reads a hotkey with `<HotKey as FromStr>::from_str` of the crate
/// `global_hotkey`, and takes it apart into the bits of its modifiers, the name
/// of its key and its number.
///
/// What the text stands for is given a name, not stated, but for what
/// `known_hotkey` says of it; and the texts that the program falls back on are
/// hotkeys.
#[verifier::external_body]
fn parse_hotkey(text: &str) -> (parsed: Result<Hotkey, HotKeyParseError>)
    ensures
        parsed is Ok ==> hotkey_named(text@) == Some(parsed->Ok_0@),
        parsed is Err ==> hotkey_named(text@) is None,
        parsed is Ok ==> known_hotkey(text@, parsed->Ok_0@),
        surely_hotkey(text@) ==> parsed is Ok,
{
    match text.parse::<HotKey>() {
        Ok(hotkey) => Ok(
            Hotkey { mods: hotkey.mods.bits(), key: hotkey.key.to_string(), id: hotkey.id() },
        ),
        Err(error) => Err(error),
    }
}

/// The hotkey that a text stands for, if it stands for one.
pub fn read_hotkey(text: &str) -> (hotkey: Option<Hotkey>)
    ensures
        hotkey is Some ==> hotkey_named(text@) == Some(hotkey->0@),
        hotkey is None ==> hotkey_named(text@) is None,
        hotkey is Some ==> known_hotkey(text@, hotkey->0@),
        surely_hotkey(text@) ==> hotkey is Some,
{
    match parse_hotkey(text) {
        Ok(hotkey) => Some(hotkey),
        Err(_) => None,
    }
}

/// A hotkey, and whether it is the default because the configured text is no
/// hotkey.
#[derive(Debug, PartialEq, Eq)]
pub struct HotkeyChoice {
    pub hotkey: Hotkey,
    pub fallback: bool,
}

/// What `HotkeyChoice` stands for.
pub ghost struct ChoiceModel {
    pub hotkey: (u32, Seq<char>, u32),
    pub fallback: bool,
}

impl View for HotkeyChoice {
    type V = ChoiceModel;

    open spec fn view(&self) -> ChoiceModel {
        ChoiceModel { hotkey: self.hotkey@, fallback: self.fallback }
    }
}

impl Clone for HotkeyChoice {
    fn clone(&self) -> (copy: Self)
        ensures
            copy == *self,
    {
        HotkeyChoice { hotkey: self.hotkey.clone(), fallback: self.fallback }
    }
}

/// The configured hotkey where there is one, and else the default one; nothing
/// where neither text was a hotkey.
pub fn choose_hotkey(configured: Option<Hotkey>, default: Option<Hotkey>) -> (choice: Option<
    HotkeyChoice,
>)
    ensures
        choice == match (configured, default) {
            (Some(hotkey), _) => Some(HotkeyChoice { hotkey, fallback: false }),
            (None, Some(hotkey)) => Some(HotkeyChoice { hotkey, fallback: true }),
            (None, None) => None,
        },
{
    match configured {
        Some(hotkey) => Some(HotkeyChoice { hotkey, fallback: false }),
        None => match default {
            Some(hotkey) => Some(HotkeyChoice { hotkey, fallback: true }),
            None => None,
        },
    }
}

/// The hotkey of the configured text where it stands for one, and else that of
/// the default text.
pub open spec fn chosen(config_value: Seq<char>, default_value: Seq<char>) -> ChoiceModel {
    match hotkey_named(config_value) {
        Some(hotkey) => ChoiceModel { hotkey, fallback: false },
        None => ChoiceModel { hotkey: hotkey_named(default_value)->0, fallback: true },
    }
}

/// The choice is the default if and only if the configured text stands for no
/// hotkey, and it is the hotkey that the text it was taken from stands for.
pub open spec fn stands_for(
    choice: HotkeyChoice,
    config_value: Seq<char>,
    default_value: Seq<char>,
) -> bool {
    &&& choice.fallback <==> hotkey_named(config_value) is None
    &&& choice.fallback ==> hotkey_named(default_value) == Some(choice.hotkey@)
    &&& !choice.fallback ==> hotkey_named(config_value) == Some(choice.hotkey@)
}

/// The hotkey of the configured text where it stands for one, and else that of
/// the default text, which has to stand for one then.
pub fn parse_hotkey_or_default(config_value: &str, default_value: &str) -> (choice: HotkeyChoice)
    requires
        hotkey_named(config_value@) is Some || surely_hotkey(default_value@) || hotkey_named(
            default_value@,
        ) is Some,
    ensures
        choice@ == chosen(config_value@, default_value@),
        stands_for(choice, config_value@, default_value@),
        choice.fallback ==> known_hotkey(default_value@, choice.hotkey@),
        !choice.fallback ==> known_hotkey(config_value@, choice.hotkey@),
        surely_hotkey(config_value@) ==> !choice.fallback,
{
    let configured: Option<Hotkey> = read_hotkey(config_value);
    let default: Option<Hotkey> = match configured {
        Some(_) => None,
        None => read_hotkey(default_value),
    };
    choose_hotkey(configured, default).unwrap()
}

} // verus!
