use global_hotkey::hotkey::{Code, HotKey, Modifiers};
use quake_modoki::config::MyConfig;
use quake_modoki::console::{
    ctrl_handler, CtrlAnswer, CTRL_BREAK_EVENT, CTRL_CLOSE_EVENT, CTRL_C_EVENT,
};
use quake_modoki::failure::{Failure, Stage};
use quake_modoki::hotkey::{
    choose_hotkey, parse_hotkey_or_default, read_hotkey, Hotkey, HotkeyChoice, ALT, CONTROL,
};
use quake_modoki::listing::{ListPhase, ListReply, ListRequest, ListStep};
use quake_modoki::open_config::{open_command, open_config_file, path_to_open, OpenFailure};
use quake_modoki::protocol::Request;
use quake_modoki::startup::{StartPhase, StartReply, StartRequest};

fn hotkey(mods: u32, key: &str, id: u32) -> Hotkey {
    Hotkey { mods, key: key.to_string(), id }
}

fn f8() -> Hotkey {
    hotkey(0, "F8", HotKey::new(None, Code::F8).id())
}

fn ctrl_alt_q() -> Hotkey {
    let id = HotKey::new(Some(Modifiers::CONTROL | Modifiers::ALT), Code::KeyQ).id();
    hotkey(9, "KeyQ", id)
}

#[test]
fn default_configuration() {
    let config = MyConfig::default();
    assert_eq!(config.version, 1);
    assert_eq!(config.key_toggle, "F8");
    assert_eq!(config.key_track, "Ctrl+Alt+Q");
}

#[test]
fn default_hotkeys_are_valid_and_differ() {
    let (toggle, track) = MyConfig::default().hotkeys();
    assert_eq!(toggle, HotkeyChoice { hotkey: f8(), fallback: false });
    assert_eq!(track, HotkeyChoice { hotkey: ctrl_alt_q(), fallback: false });
    assert_ne!(toggle.hotkey.id, track.hotkey.id);
}

#[test]
fn modifier_bits_are_those_of_the_hotkeys() {
    assert_eq!(ALT, Modifiers::ALT.bits());
    assert_eq!(CONTROL, Modifiers::CONTROL.bits());
}

#[test]
fn hotkeys_are_read() {
    let read = read_hotkey("Shift+F5").unwrap();
    let expected = HotKey::new(Some(Modifiers::SHIFT), Code::F5);
    assert_eq!(read, hotkey(Modifiers::SHIFT.bits(), "F5", expected.id()));
    assert_eq!(read.id >> 16, read.mods);
    assert_eq!(read_hotkey("F5+Shift"), None);
    assert_eq!(read_hotkey("Nonsense"), None);
    assert_eq!(read_hotkey(""), None);
}

#[test]
fn configured_hotkey_wins_over_the_default() {
    let choice = parse_hotkey_or_default("Alt+KeyZ", "F8");
    let expected = HotKey::new(Some(Modifiers::ALT), Code::KeyZ);
    assert_eq!(choice.hotkey, hotkey(1, "KeyZ", expected.id()));
    assert!(!choice.fallback);
}

#[test]
fn invalid_hotkey_falls_back() {
    let choice = parse_hotkey_or_default("Hyper+Whatever", "F8");
    assert_eq!(choice, HotkeyChoice { hotkey: f8(), fallback: true });

    let config = MyConfig {
        version: 1,
        key_toggle: "nothing".to_string(),
        key_track: "".to_string(),
    };
    let (toggle, track) = config.hotkeys();
    assert_eq!(toggle, HotkeyChoice { hotkey: f8(), fallback: true });
    assert_eq!(track, HotkeyChoice { hotkey: ctrl_alt_q(), fallback: true });
}

#[test]
fn choice_between_two_texts() {
    let chosen = |hotkey, fallback| Some(HotkeyChoice { hotkey, fallback });
    assert_eq!(choose_hotkey(Some(f8()), None), chosen(f8(), false));
    assert_eq!(choose_hotkey(Some(f8()), Some(ctrl_alt_q())), chosen(f8(), false));
    assert_eq!(choose_hotkey(None, Some(ctrl_alt_q())), chosen(ctrl_alt_q(), true));
    assert_eq!(choose_hotkey(None, None), None);
}

/// Answers the calls of the start one by one, and returns them.
fn start(replies: Vec<StartReply>) -> (StartPhase<HotkeyChoice>, Vec<StartRequest<HotkeyChoice>>) {
    let mut phase = StartPhase::new();
    let mut made = Vec::new();
    for reply in replies {
        let request = phase.request();
        assert!(request.accepts(&reply), "{request:?} got {reply:?}");
        made.push(request);
        phase = phase.step(reply);
    }
    (phase, made)
}

fn good() -> StartReply {
    StartReply::Outcome(Ok(()))
}

fn good_replies() -> Vec<StartReply> {
    vec![
        good(),
        StartReply::Config(Ok(MyConfig::default())),
        StartReply::Flag(true),
        good(),
        StartReply::Flag(true),
        StartReply::Done,
        StartReply::Flag(false),
        StartReply::Done,
        good(),
        good(),
        good(),
        good(),
    ]
}

#[test]
fn start_goes_through_all_stages() {
    let (phase, made) = start(good_replies());
    let register =
        |hotkey| StartRequest::RegisterHotkey(HotkeyChoice { hotkey, fallback: false });
    assert_eq!(
        made,
        vec![
            StartRequest::ConfigPath,
            StartRequest::LoadConfig,
            StartRequest::ListWindows,
            StartRequest::CreateTray,
            StartRequest::AutolaunchEnabled,
            StartRequest::MarkAutolaunch(true),
            StartRequest::EdgeEnabled,
            StartRequest::MarkEdge(false),
            StartRequest::CreateHotkeyManager,
            register(f8()),
            register(ctrl_alt_q()),
            StartRequest::InstallConsoleHandler,
        ]
    );
    let run = StartRequest::Run { toggle_id: f8().id, track_id: ctrl_alt_q().id };
    assert_eq!(phase.request(), run);
    assert!(!run.accepts(&StartReply::Done));
}

#[test]
fn start_registers_what_is_configured() {
    let mut replies = good_replies();
    replies[1] = StartReply::Config(Ok(MyConfig {
        version: 1,
        key_toggle: "Ctrl+F1".to_string(),
        key_track: "bad".to_string(),
    }));
    let (_, made) = start(replies);
    let toggle = HotKey::new(Some(Modifiers::CONTROL), Code::F1);
    assert_eq!(
        made[9],
        StartRequest::RegisterHotkey(HotkeyChoice {
            hotkey: hotkey(8, "F1", toggle.id()),
            fallback: false,
        })
    );
    assert_eq!(
        made[10],
        StartRequest::RegisterHotkey(HotkeyChoice { hotkey: ctrl_alt_q(), fallback: true })
    );
}

#[test]
fn start_stops_at_the_stage_that_fails() {
    for (at, stage) in [
        (0, Stage::ConfigPath),
        (1, Stage::ConfigLoad),
        (3, Stage::Tray),
        (8, Stage::HotkeyManager),
        (9, Stage::ToggleHotkey),
        (10, Stage::TrackHotkey),
        (11, Stage::ConsoleHandler),
    ] {
        let mut replies = good_replies();
        replies.truncate(at);
        let cause = "broken".to_string();
        replies.push(if at == 1 {
            StartReply::Config(Err(cause.clone()))
        } else {
            StartReply::Outcome(Err(cause.clone()))
        });
        let (phase, made) = start(replies);
        assert_eq!(made.len(), at + 1);
        let fail = StartRequest::Fail(Failure { stage, cause });
        assert_eq!(phase.request(), fail);
        assert!(!fail.accepts(&StartReply::Done));
    }
}

#[test]
fn failures_tell_what_and_why() {
    let message = |stage| Failure { stage, cause: "why".to_string() }.message();
    assert_eq!(message(Stage::ConfigPath), "why");
    assert_eq!(message(Stage::ConfigLoad), "why");
    assert_eq!(message(Stage::Tray), "TrayState: why");
    assert_eq!(message(Stage::HotkeyManager), "GlobalHotKeyManager: why");
    assert_eq!(message(Stage::ToggleHotkey), "Toggle hotkey register: why");
    assert_eq!(message(Stage::TrackHotkey), "Track hotkey register: why");
    assert_eq!(message(Stage::ConsoleHandler), "SetConsoleCtrlHandler: why");
}

#[test]
fn console_signals() {
    assert_eq!(ctrl_handler(CTRL_C_EVENT), CtrlAnswer::Shutdown);
    assert_eq!(ctrl_handler(CTRL_BREAK_EVENT), CtrlAnswer::Shutdown);
    assert_eq!(ctrl_handler(CTRL_CLOSE_EVENT), CtrlAnswer::RestoreThenShutdown);
    assert_eq!(ctrl_handler(5), CtrlAnswer::Unhandled);
    assert_eq!(ctrl_handler(6), CtrlAnswer::Unhandled);
}

#[test]
fn console_answers_restore_before_the_shutdown() {
    let answered = |signal| {
        let answer = ctrl_handler(signal);
        (answer.requests(), answer.handled())
    };
    assert_eq!(answered(CTRL_C_EVENT), (vec![Request::RequestShutdown], true));
    assert_eq!(answered(CTRL_BREAK_EVENT), (vec![Request::RequestShutdown], true));
    assert_eq!(
        answered(CTRL_CLOSE_EVENT),
        (vec![Request::RestoreOriginal, Request::RequestShutdown], true)
    );
    assert_eq!(answered(5), (vec![], false));
}

#[test]
fn console_signals_are_those_of_the_system() {
    assert_eq!((CTRL_C_EVENT, CTRL_BREAK_EVENT, CTRL_CLOSE_EVENT), (0, 1, 2));
}

#[test]
fn command_that_opens_a_file() {
    assert_eq!(
        open_command("C:\\My Files\\cfg.toml"),
        vec!["cmd", "/C", "start", "", "C:\\My Files\\cfg.toml"]
    );
}

#[test]
fn path_that_is_opened() {
    let path = "p".to_string();
    assert_eq!(path_to_open(Ok(Some(path.clone()))), Ok(path));
    assert_eq!(path_to_open(Ok(None)), Err(OpenFailure::NotUnicode));
    let cause = "no home directory".to_string();
    assert_eq!(path_to_open(Err(cause.clone())), Err(OpenFailure::Path(cause)));
}

#[test]
fn opening_ends_well_only_where_all_did() {
    let path = Ok(Some("C:\\my cfg\\a.toml".to_string()));
    let denied = Err("access denied".to_string());
    assert_eq!(open_config_file(path.clone(), Ok(())), Ok(()));
    let message = |found, started| open_config_file(found, started).unwrap_err().message();
    assert_eq!(message(path, denied.clone()), "launch failed: access denied");
    for started in [Ok(()), denied] {
        assert_eq!(message(Ok(None), started.clone()), "config path is not valid UTF-8");
        assert_eq!(message(Err("no home directory".to_string()), started), "no home directory");
    }
}

fn over(title: Option<&str>) -> ListStep<String> {
    ListStep::Over { title: title.map(str::to_string), go_on: true }
}

fn listed(units: Vec<u16>) -> ListStep<String> {
    let length = units.len();
    let mut buffer = units;
    buffer.push(0);
    let phase = ListPhase::Text { length };
    assert_eq!(phase.request(), ListRequest::Text { capacity: buffer.len() });
    phase.step(ListReply::Text(buffer))
}

#[test]
fn hidden_and_untitled_windows_are_not_listed() {
    assert_eq!(ListPhase::Visible.request(), ListRequest::Visible);
    assert_eq!(ListPhase::Visible.step(ListReply::Flag(false)), over(None));
    assert_eq!(ListPhase::Length.request(), ListRequest::TextLength);
    assert_eq!(ListPhase::Length.step(ListReply::Length(0)), over(None));
    assert_eq!(ListPhase::Length.step(ListReply::Length(-1)), over(None));
}

#[test]
fn no_window_cuts_the_list_short() {
    let windows = [
        (false, 3, "hid"),
        (true, 0, ""),
        (true, 3, "one"),
        (true, -1, ""),
        (true, 3, "two"),
    ];
    let mut titles = Vec::new();
    for (visible, length, text) in windows {
        let mut phase = ListPhase::Visible;
        loop {
            let reply = match phase.request() {
                ListRequest::Visible => ListReply::Flag(visible),
                ListRequest::TextLength => ListReply::Length(length),
                ListRequest::Text { capacity } => {
                    let mut buffer: Vec<u16> = text.encode_utf16().collect();
                    buffer.resize(capacity, 0);
                    ListReply::Text(buffer)
                }
            };
            match phase.step(reply) {
                ListStep::Next(next) => phase = next,
                ListStep::Over { title, go_on } => {
                    assert!(go_on);
                    titles.push(title);
                    break;
                }
            }
        }
    }
    let listed = |title: &str| Some(title.to_string());
    assert_eq!(titles, vec![None, None, listed("one"), None, listed("two")]);
}

#[test]
fn failed_list_does_not_stop_the_start() {
    let mut replies = good_replies();
    replies[2] = StartReply::Flag(false);
    let (phase, made) = start(replies);
    assert_eq!(made.len(), 12);
    assert_eq!(
        phase.request(),
        StartRequest::Run { toggle_id: f8().id, track_id: ctrl_alt_q().id }
    );
}

#[test]
fn visible_window_is_listed_with_its_title() {
    let next = ListPhase::Visible.step(ListReply::Flag(true));
    assert_eq!(next, ListStep::Next(ListPhase::Length));
    let next = ListPhase::Length.step(ListReply::Length(3));
    assert_eq!(next, ListStep::Next(ListPhase::Text { length: 3 }));
    assert_eq!(listed(vec![0x41, 0x62, 0x43]), over(Some("AbC")));
}

#[test]
fn titles_are_utf16() {
    let title = |units: Vec<u16>| match listed(units) {
        ListStep::Over { title, .. } => title.unwrap(),
        ListStep::Next(_) => panic!("one title, one step"),
    };
    assert_eq!(title(vec![0xd83d, 0xde00]), "\u{1f600}");
    assert_eq!(title(vec![0x41, 0xd83d]), "A\u{fffd}");
    assert_eq!(title(vec![0xde00, 0xd83d, 0x41]), "\u{fffd}\u{fffd}A");
    assert_eq!(title(vec![0xd83d, 0xd83d, 0xde00]), "\u{fffd}\u{1f600}");
    assert_eq!(title(vec![0xe000, 0xffff]), "\u{e000}\u{ffff}");
}
