//! What the values mean that the calls and replies carry.
use vstd::prelude::*;

use crate::config::MyConfig;
use crate::console::{
    answer_to, CtrlAnswer, CTRL_BREAK_EVENT, CTRL_CLOSE_EVENT, CTRL_C_EVENT,
};
use crate::controller::{wants_toggle, WAIT_MILLIS};
use crate::failure::{prefix_of, Failure, Stage};
use crate::hotkey::{
    chosen, hotkey_named, known_hotkey, stands_for, surely_hotkey, ChoiceModel, Hotkey,
    HotkeyChoice, ALT, CONTROL,
};
use crate::listing::{utf16_text, ListPhase, ListStep};
use crate::open_config::{command_words, opened, OpenFailure};
use crate::protocol::Request;
use crate::startup::{StartPhase, StartRequest};
use crate::types::{work_area_of, EdgeAction, MonitorInfo, Window};

verus! {

/// The numbers that the system and the hotkeys use.
pub proof fn numbers_are_those_of_the_system()
    ensures
        WAIT_MILLIS == 16,
        CTRL_C_EVENT == 0,
        CTRL_BREAK_EVENT == 1,
        CTRL_CLOSE_EVENT == 2,
        ALT == 1,
        CONTROL == 8,
        Window::none().raw == 0,
{
}

/// A window is no window if and only if its handle is null.
pub proof fn only_the_null_handle_is_no_window(window: Window)
    ensures
        window == Window::none() <==> window.raw == 0,
{
}

/// A monitor query gives its work area, unchanged, if and only if it succeeded.
pub proof fn work_area_is_what_was_found(info: MonitorInfo)
    ensures
        work_area_of(info) is Some <==> info.found,
        work_area_of(info) is Some ==> work_area_of(info)->0 == info.work,
{
}

/// The edge trigger asks for a toggle if and only if the toggle brings about what
/// it asks for.
pub proof fn edge_asks_for_what_is_not(action: EdgeAction, visible: bool)
    ensures
        wants_toggle(action, visible) <==> !visible == (action is Show),
        wants_toggle(action, visible) != wants_toggle(action, !visible),
{
}

/// A configured text that stands for a hotkey is taken, whatever the default is;
/// one that stands for none leaves the default, whatever it was.
pub proof fn configured_hotkey_comes_first(text: Seq<char>, default: Seq<char>)
    ensures
        hotkey_named(text) is Some ==> {
            &&& Some(chosen(text, default).hotkey) == hotkey_named(text)
            &&& !chosen(text, default).fallback
        },
        hotkey_named(text) is None ==> {
            &&& chosen(text, default).fallback
            &&& hotkey_named(default) is Some ==> Some(chosen(text, default).hotkey)
                == hotkey_named(default)
        },
{
}

/// A choice stands for two texts if and only if the first of them that stands for
/// a hotkey stands for the chosen one, and the choice tells which of them it was.
pub proof fn choice_stands_for_its_text(
    choice: HotkeyChoice,
    text: Seq<char>,
    default: Seq<char>,
)
    ensures
        hotkey_named(text) is Some ==> (stands_for(choice, text, default) <==> !choice.fallback
            && hotkey_named(text) == Some(choice.hotkey@)),
        hotkey_named(text) is None ==> (stands_for(choice, text, default) <==> choice.fallback
            && hotkey_named(default) == Some(choice.hotkey@)),
{
}

/// Only the two texts that the program falls back on are hotkeys for certain, and
/// what is known of them tells them apart: by their modifiers, their keys and
/// their numbers.
pub proof fn fallbacks_are_told_apart(
    text: Seq<char>,
    toggle: (u32, Seq<char>, u32),
    track: (u32, Seq<char>, u32),
)
    ensures
        surely_hotkey(text) <==> text == "F8"@ || text == "Ctrl+Alt+Q"@,
        known_hotkey("F8"@, toggle) ==> toggle.0 == 0 && toggle.1 == "F8"@ && toggle.2 < 0x1_0000,
        known_hotkey("Ctrl+Alt+Q"@, track) ==> track.0 == 9 && track.1 == "KeyQ"@ && 0x9_0000
            <= track.2 < 0xa_0000,
        known_hotkey("F8"@, toggle) && known_hotkey("Ctrl+Alt+Q"@, track) ==> toggle.2 != track.2,
{
}

/// What a hotkey and a choice stand for leaves nothing out and changes nothing.
pub proof fn hotkey_models_are_whole(hotkey: Hotkey, choice: HotkeyChoice)
    ensures
        hotkey@.0 == hotkey.mods,
        hotkey@.1 == hotkey.key@,
        hotkey@.2 == hotkey.id,
        choice@.hotkey.0 == choice.hotkey.mods,
        choice@.hotkey.1 == choice.hotkey.key@,
        choice@.hotkey.2 == choice.hotkey.id,
        choice@.fallback == choice.fallback,
{
}

/// What a call on the way to the event loop stands for is that call, with what it
/// carries.
pub proof fn start_calls_stand_for_themselves(
    yes: bool,
    choice: HotkeyChoice,
    toggle_id: u32,
    track_id: u32,
    failure: Failure,
)
    ensures
        StartRequest::<HotkeyChoice>::ConfigPath@ is ConfigPath,
        StartRequest::<HotkeyChoice>::LoadConfig@ is LoadConfig,
        StartRequest::<HotkeyChoice>::ListWindows@ is ListWindows,
        StartRequest::<HotkeyChoice>::CreateTray@ is CreateTray,
        StartRequest::<HotkeyChoice>::AutolaunchEnabled@ is AutolaunchEnabled,
        StartRequest::<HotkeyChoice>::EdgeEnabled@ is EdgeEnabled,
        StartRequest::<HotkeyChoice>::CreateHotkeyManager@ is CreateHotkeyManager,
        StartRequest::<HotkeyChoice>::InstallConsoleHandler@ is InstallConsoleHandler,
        StartRequest::<HotkeyChoice>::MarkAutolaunch(yes)@ == StartRequest::<
            ChoiceModel,
        >::MarkAutolaunch(yes),
        StartRequest::<HotkeyChoice>::MarkEdge(yes)@ == StartRequest::<ChoiceModel>::MarkEdge(yes),
        StartRequest::<HotkeyChoice>::RegisterHotkey(choice)@ == StartRequest::<
            ChoiceModel,
        >::RegisterHotkey(choice@),
        (StartRequest::<HotkeyChoice>::Run { toggle_id, track_id })@ == (StartRequest::<
            ChoiceModel,
        >::Run { toggle_id, track_id }),
        StartRequest::<HotkeyChoice>::Fail(failure)@ == StartRequest::<ChoiceModel>::Fail(failure),
{
}

/// What a place on the way to the event loop stands for is that place, with what
/// is known there.
pub proof fn start_places_stand_for_themselves(
    config: MyConfig,
    enabled: bool,
    toggle: HotkeyChoice,
    track: HotkeyChoice,
    toggle_id: u32,
    track_id: u32,
    failure: Failure,
)
    ensures
        StartPhase::<HotkeyChoice>::ConfigPath@ is ConfigPath,
        StartPhase::<HotkeyChoice>::LoadConfig@ is LoadConfig,
        (StartPhase::<HotkeyChoice>::ListWindows { config })@ == (StartPhase::<
            ChoiceModel,
        >::ListWindows { config }),
        (StartPhase::<HotkeyChoice>::CreateTray { config })@ == (StartPhase::<
            ChoiceModel,
        >::CreateTray { config }),
        (StartPhase::<HotkeyChoice>::AutolaunchEnabled { config })@ == (StartPhase::<
            ChoiceModel,
        >::AutolaunchEnabled { config }),
        (StartPhase::<HotkeyChoice>::MarkAutolaunch { config, enabled })@ == (StartPhase::<
            ChoiceModel,
        >::MarkAutolaunch { config, enabled }),
        (StartPhase::<HotkeyChoice>::EdgeEnabled { config })@ == (StartPhase::<
            ChoiceModel,
        >::EdgeEnabled { config }),
        (StartPhase::<HotkeyChoice>::MarkEdge { config, enabled })@ == (StartPhase::<
            ChoiceModel,
        >::MarkEdge { config, enabled }),
        (StartPhase::<HotkeyChoice>::CreateHotkeyManager { config })@ == (StartPhase::<
            ChoiceModel,
        >::CreateHotkeyManager { config }),
        (StartPhase::<HotkeyChoice>::RegisterToggle { toggle, track })@ == (StartPhase::<
            ChoiceModel,
        >::RegisterToggle { toggle: toggle@, track: track@ }),
        (StartPhase::<HotkeyChoice>::RegisterTrack { toggle_id, track })@ == (StartPhase::<
            ChoiceModel,
        >::RegisterTrack { toggle_id, track: track@ }),
        (StartPhase::<HotkeyChoice>::InstallConsoleHandler { toggle_id, track_id })@ == (
        StartPhase::<ChoiceModel>::InstallConsoleHandler { toggle_id, track_id }),
        (StartPhase::<HotkeyChoice>::Ready { toggle_id, track_id })@ == (StartPhase::<
            ChoiceModel,
        >::Ready { toggle_id, track_id }),
        StartPhase::<HotkeyChoice>::Failed(failure)@ == StartPhase::<ChoiceModel>::Failed(failure),
{
}

/// What a step of the list stands for is that step, with the text of its title.
pub proof fn list_steps_stand_for_themselves(phase: ListPhase, title: Option<String>, go_on: bool)
    ensures
        ListStep::<String>::Next(phase)@ == ListStep::<Seq<char>>::Next(phase),
        (ListStep::<String>::Over { title, go_on })@ is Over,
        (ListStep::<String>::Over { title, go_on })@->go_on == go_on,
        (ListStep::<String>::Over { title, go_on })@->title is Some <==> title is Some,
        title is Some ==> (ListStep::<String>::Over { title, go_on })@->title == Some(title->0@),
{
}

/// The opening of the configuration file ends well if and only if there was a
/// path to open and the command was started; a start that failed is told with its
/// cause where there was a path, and without one the search decides alone.
pub proof fn opening_ends_as_its_calls_did(
    found: Result<Option<String>, String>,
    started: Result<(), String>,
    other: Result<(), String>,
)
    ensures
        opened(found, started) is Ok <==> found is Ok && found->Ok_0 is Some && started is Ok,
        found is Ok && found->Ok_0 is Some && started is Err ==> opened(found, started) == Err::<
            (),
            OpenFailure,
        >(OpenFailure::Launch(started->Err_0)),
        found is Ok && found->Ok_0 is None ==> opened(found, started) == Err::<(), OpenFailure>(
            OpenFailure::NotUnicode,
        ),
        found is Err ==> opened(found, started) == Err::<(), OpenFailure>(
            OpenFailure::Path(found->Err_0),
        ),
        !(found is Ok && found->Ok_0 is Some) ==> opened(found, started) == opened(found, other),
{
}

/// Ctrl+C and Ctrl+Break end the program, the closing of the console restores the
/// window first, and no other signal is handled.
pub proof fn signals_are_answered(signal: u32)
    ensures
        answer_to(signal).asks().contains(Request::RequestShutdown) <==> signal < 3,
        answer_to(signal).asks().contains(Request::RestoreOriginal) <==> signal == 2,
        answer_to(signal) is Unhandled <==> signal >= 3,
        answer_to(signal) is RestoreThenShutdown <==> signal == 2,
{
    let calls = answer_to(signal).asks();
    if signal < 3 {
        assert(calls[calls.len() - 1] == Request::RequestShutdown);
        assert(signal == 2 ==> calls[0] == Request::RestoreOriginal);
    }
}

/// The command is made of fixed words and the path, which stands last, behind an
/// empty title; so only the path tells two commands apart.
pub proof fn command_ends_with_the_path(path: Seq<char>, other: Seq<char>)
    ensures
        command_words(path).len() == 5,
        command_words(path).last() == path,
        command_words(path)[3] == ""@,
        command_words(path).drop_last() == command_words(other).drop_last(),
        command_words(path).take(3) == seq!["cmd"@, "/C"@, "start"@],
{
    assert(command_words(path).drop_last() =~= command_words(other).drop_last());
    assert(command_words(path).take(3) =~= seq!["cmd"@, "/C"@, "start"@]);
}

/// What could not be found or started is told with its cause, a start with the
/// word that it was one, and a path that is not Unicode as such.
pub proof fn open_failures_tell_their_cause(cause: String)
    ensures
        OpenFailure::Path(cause).text() == cause@,
        OpenFailure::Launch(cause).text() == "launch failed: "@ + cause@,
        OpenFailure::NotUnicode.text() == "config path is not valid UTF-8"@,
{
}

/// A signal that is handled ends the program, one that is not does nothing, and a
/// window is restored before the program is told to end, never after.
pub proof fn signals_end_the_program(answer: CtrlAnswer)
    ensures
        answer is Unhandled <==> answer.asks().len() == 0,
        !(answer is Unhandled) ==> answer.asks().last() == Request::RequestShutdown,
        forall|i: int|
            0 <= i < answer.asks().len() - 1 ==> #[trigger] answer.asks()[i]
                == Request::RestoreOriginal,
        answer.asks().len() == 2 <==> answer is RestoreThenShutdown,
        answer.asks().len() <= 2,
{
}

/// What stands before the cause tells the stage; what concerns the configuration
/// is told by its cause alone.
pub proof fn messages_tell_the_stage(stage: Stage)
    ensures
        stage is ConfigPath || stage is ConfigLoad ==> prefix_of(stage) == ""@,
        stage is Tray ==> prefix_of(stage) == "TrayState: "@,
        stage is HotkeyManager ==> prefix_of(stage) == "GlobalHotKeyManager: "@,
        stage is ToggleHotkey ==> prefix_of(stage) == "Toggle hotkey register: "@,
        stage is TrackHotkey ==> prefix_of(stage) == "Track hotkey register: "@,
        stage is ConsoleHandler ==> prefix_of(stage) == "SetConsoleCtrlHandler: "@,
{
}

/// A text in UTF-16 begins with what its first unit or pair stands for, and goes
/// on with what the rest stands for.
pub proof fn utf16_is_read_from_the_front(units: Seq<u16>)
    requires
        units.len() > 0,
    ensures
        units[0] < 0xd800 || units[0] >= 0xe000 ==> {
            &&& utf16_text(units)[0] == units[0] as char
            &&& utf16_text(units).skip(1) == utf16_text(units.skip(1))
        },
        units.len() > 1 && 0xd800 <= units[0] < 0xdc00 && 0xdc00 <= units[1] < 0xe000 ==> {
            &&& utf16_text(units)[0] == (0x1_0000 + (units[0] - 0xd800) * 0x400 + (units[1]
                - 0xdc00)) as char
            &&& utf16_text(units).skip(1) == utf16_text(units.skip(2))
        },
        0xdc00 <= units[0] < 0xe000 || (0xd800 <= units[0] < 0xdc00 && (units.len() == 1
            || units[1] < 0xdc00 || units[1] >= 0xe000)) ==> {
            &&& utf16_text(units)[0] == '\u{fffd}'
            &&& utf16_text(units).skip(1) == utf16_text(units.skip(1))
        },
{
    assert(utf16_text(units).len() > 0);
    assert(utf16_text(units).skip(1) =~= utf16_text(units.skip(1)) || utf16_text(units).skip(1)
        =~= utf16_text(units.skip(2)));
    let one = utf16_text(units.skip(1));
    let two = utf16_text(units.skip(2));
    assert(utf16_text(units) == seq![utf16_text(units)[0]] + one || utf16_text(units)
        == seq![utf16_text(units)[0]] + two);
    assert((seq![utf16_text(units)[0]] + one).skip(1) =~= one);
    assert((seq![utf16_text(units)[0]] + two).skip(1) =~= two);
}

/// Without halves, each unit stands for its own character.
pub proof fn plain_text_keeps_its_units(units: Seq<u16>)
    requires
        forall|i: int| 0 <= i < units.len() ==> !(0xd800 <= #[trigger] units[i] < 0xe000),
    ensures
        utf16_text(units) == units.map_values(|unit: u16| unit as char),
    decreases units.len(),
{
    if units.len() > 0 {
        let rest = units.skip(1);
        assert forall|i: int| 0 <= i < rest.len() implies !(0xd800 <= #[trigger] rest[i]
            < 0xe000) by {
            assert(rest[i] == units[i + 1]);
        }
        plain_text_keeps_its_units(rest);
    }
    assert(utf16_text(units) =~= units.map_values(|unit: u16| unit as char));
}

} // verus!
