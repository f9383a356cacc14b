use quake_modoki::controller::{
    edge_wants_toggle, message_kind, Controller, MessageKind, Phase, Settings, WAIT_MILLIS,
    WM_ENDSESSION, WM_QUERYENDSESSION, WM_QUIT,
};
use quake_modoki::open_config::OpenFailure;
use quake_modoki::protocol::{Reply, Request};
use quake_modoki::types::{
    get_work_area, Direction, EdgeAction, HotkeyEvent, MenuHits, Message, MonitorInfo, Point, Rect,
    Slide, Window,
};

const TOGGLE: u32 = 7;
const TRACK: u32 = 8;
const FOCUS_CHANGED: u32 = 0x8001;

const TRACKED: Window = Window { raw: 0x100 };
const OTHER: Window = Window { raw: 0x200 };
const NO_WINDOW: Window = Window { raw: 0 };
const AREA: Rect = Rect { left: 0, top: 0, right: 1920, bottom: 1040 };
const BOUNDS: Rect = Rect { left: 0, top: 100, right: 800, bottom: 900 };

fn settings() -> Settings {
    Settings { toggle_id: TOGGLE, track_id: TRACK, focus_changed: FOCUS_CHANGED }
}

fn at(phase: Phase, visible: bool) -> Controller {
    Controller { settings: settings(), visible, phase }
}

/// Answers the program's calls one by one, and returns them.
fn run(controller: Controller, replies: Vec<Reply>) -> (Controller, Vec<Request>) {
    let mut controller = controller;
    let mut made = Vec::new();
    for reply in replies {
        let request = controller.request();
        assert!(request.accepts(&reply), "{request:?} got {reply:?}");
        made.push(request);
        controller = controller.step(reply);
    }
    (controller, made)
}

fn monitor() -> Reply {
    Reply::Monitor(MonitorInfo { found: true, work: AREA })
}

fn no_monitor() -> Reply {
    Reply::Monitor(MonitorInfo { found: false, work: AREA })
}

fn press(id: u32) -> Reply {
    Reply::Hotkey(Some(HotkeyEvent { id, pressed: true }))
}

fn message(id: u32, wparam: usize) -> Reply {
    Reply::Message(Some(Message { id, wparam }))
}

fn slide(direction: Direction) -> Slide {
    Slide { window: TRACKED, direction, bounds: BOUNDS, work_area: AREA }
}

fn no_hits() -> MenuHits {
    MenuHits {
        exit: false,
        untrack: false,
        autolaunch: false,
        open_config: false,
        edge_trigger: false,
    }
}

#[test]
fn starts_hidden_at_the_head() {
    let controller = Controller::new(settings());
    assert_eq!(controller, at(Phase::CheckShutdown, false));
    assert_eq!(controller.request(), Request::ShutdownRequested);
}

#[test]
fn quiet_round_polls_everything_once() {
    let (after, made) = run(
        Controller::new(settings()),
        vec![
            Reply::Flag(false),
            Reply::Done,
            Reply::Hotkey(None),
            Reply::Menu(None),
            Reply::Flag(false),
            Reply::Message(None),
        ],
    );
    assert_eq!(
        made,
        vec![
            Request::ShutdownRequested,
            Request::WaitForInput { millis: 16 },
            Request::NextHotkey,
            Request::NextMenu,
            Request::EdgeEnabled,
            Request::NextMessage,
        ]
    );
    assert_eq!(after, Controller::new(settings()));
    assert_eq!(WAIT_MILLIS, 16);
}

#[test]
fn busy_round_empties_its_sources_in_order() {
    let (after, made) = run(
        Controller::new(settings()),
        vec![
            Reply::Flag(false),
            Reply::Done,
            press(99),
            press(99),
            Reply::Hotkey(None),
            Reply::Menu(Some(no_hits())),
            Reply::Menu(Some(no_hits())),
            Reply::Menu(None),
            Reply::Flag(true),
            Reply::Flag(false),
            message(WM_QUERYENDSESSION, 0),
            message(WM_QUERYENDSESSION, 0),
            Reply::Message(None),
        ],
    );
    assert_eq!(
        made,
        vec![
            Request::ShutdownRequested,
            Request::WaitForInput { millis: 16 },
            Request::NextHotkey,
            Request::NextHotkey,
            Request::NextHotkey,
            Request::NextMenu,
            Request::NextMenu,
            Request::NextMenu,
            Request::EdgeEnabled,
            Request::TrackedValid,
            Request::NextMessage,
            Request::NextMessage,
            Request::NextMessage,
        ]
    );
    assert_eq!(after, Controller::new(settings()));
}

#[test]
fn signal_during_a_sleep_is_seen_before_the_next() {
    let (after, made) = run(
        at(Phase::Wait, false),
        vec![
            Reply::Done,
            Reply::Hotkey(None),
            Reply::Menu(None),
            Reply::Flag(false),
            Reply::Message(None),
            Reply::Flag(true),
            Reply::Done,
            Reply::Done,
        ],
    );
    assert_eq!(after.phase, Phase::Exit);
    let slept = made.iter().filter(|call| matches!(call, Request::WaitForInput { .. })).count();
    assert_eq!(slept, 1);
}

#[test]
fn window_that_goes_before_the_edge_toggle_is_not_toggled() {
    let cursor = Point { x: 0, y: 500 };
    let (after, made) = run(
        at(Phase::EdgeEnabled, false),
        vec![
            Reply::Flag(true),
            Reply::Flag(true),
            Reply::Cursor(Some(cursor)),
            monitor(),
            Reply::Bounds(None),
            Reply::Edge(Some(EdgeAction::Show)),
            Reply::Flag(false),
            Reply::Message(None),
        ],
    );
    assert_eq!(
        made,
        vec![
            Request::EdgeEnabled,
            Request::TrackedValid,
            Request::CursorPosition,
            Request::PointWorkArea(cursor),
            Request::LoadBounds,
            Request::EdgeTransition {
                direction: Direction::Left,
                visible: false,
                cursor,
                work_area: AREA,
                stored: None,
            },
            Request::TrackedValid,
            Request::NextMessage,
        ]
    );
    assert_eq!(after, Controller::new(settings()));
}

#[test]
fn shutdown_restores_and_unhooks() {
    let (after, made) = run(
        Controller::new(settings()),
        vec![Reply::Flag(true), Reply::Done, Reply::Done],
    );
    assert_eq!(
        made,
        vec![Request::ShutdownRequested, Request::RestoreOriginal, Request::UninstallFocusHook]
    );
    assert_eq!(after.request(), Request::Exit);
    assert!(!after.request().accepts(&Reply::Done));
}

#[test]
fn toggle_hides_a_visible_window() {
    let (after, made) = run(
        at(Phase::Hotkeys, true),
        vec![
            press(TOGGLE),
            Reply::Flag(true),
            Reply::Window(TRACKED),
            monitor(),
            Reply::Bounds(Some(BOUNDS)),
            Reply::Direction(Direction::Top),
            Reply::Window(OTHER),
            Reply::Done,
            Reply::Done,
            Reply::Done,
        ],
    );
    assert_eq!(
        made,
        vec![
            Request::NextHotkey,
            Request::TrackedValid,
            Request::TrackedWindow,
            Request::WindowWorkArea(TRACKED),
            Request::SaveBounds(TRACKED),
            Request::SlideDirection { bounds: BOUNDS, work_area: AREA },
            Request::PreviousFocus,
            Request::SetForeground(OTHER),
            Request::Animate { slide: slide(Direction::Top), show: false },
            Request::ResetEdge,
        ]
    );
    assert_eq!(after, at(Phase::Hotkeys, false));
}

#[test]
fn toggle_without_previous_focus_leaves_the_focus() {
    let (after, made) = run(
        at(Phase::Hotkeys, true),
        vec![
            press(TOGGLE),
            Reply::Flag(true),
            Reply::Window(TRACKED),
            monitor(),
            Reply::Bounds(Some(BOUNDS)),
            Reply::Direction(Direction::Left),
            Reply::Window(NO_WINDOW),
            Reply::Done,
            Reply::Done,
        ],
    );
    assert_eq!(made[7], Request::Animate { slide: slide(Direction::Left), show: false });
    assert_eq!(made[8], Request::ResetEdge);
    assert_eq!(after, at(Phase::Hotkeys, false));
}

#[test]
fn toggle_shows_a_hidden_window() {
    let (after, made) = run(
        at(Phase::Hotkeys, false),
        vec![
            press(TOGGLE),
            Reply::Flag(true),
            Reply::Window(TRACKED),
            monitor(),
            Reply::Bounds(Some(BOUNDS)),
            Reply::Direction(Direction::Right),
            Reply::Window(OTHER),
            Reply::Done,
            Reply::Done,
            Reply::Done,
            Reply::Done,
            Reply::Done,
            Reply::Done,
        ],
    );
    assert_eq!(
        made[4..],
        [
            Request::LoadBounds,
            Request::SlideDirection { bounds: BOUNDS, work_area: AREA },
            Request::Foreground,
            Request::SavePreviousFocus(OTHER),
            Request::Animate { slide: slide(Direction::Right), show: true },
            Request::SetForeground(TRACKED),
            Request::SetFocusTarget(TRACKED),
            Request::InstallFocusHook(TRACKED),
            Request::ResetEdge,
        ]
    );
    assert_eq!(after, at(Phase::Hotkeys, true));
}

#[test]
fn toggle_measures_a_hidden_window_without_stored_bounds() {
    let (after, made) = run(
        at(Phase::Hotkeys, false),
        vec![
            press(TOGGLE),
            Reply::Flag(true),
            Reply::Window(TRACKED),
            monitor(),
            Reply::Bounds(None),
            Reply::Rect(BOUNDS),
            Reply::Direction(Direction::Bottom),
        ],
    );
    assert_eq!(made[5], Request::RequireBounds(TRACKED));
    assert_eq!(made[6], Request::SlideDirection { bounds: BOUNDS, work_area: AREA });
    assert_eq!(after.request(), Request::Foreground);
    // Without bounds there is no going on.
    assert!(!Request::RequireBounds(TRACKED).accepts(&Reply::Bounds(None)));
}

#[test]
fn toggle_without_tracked_window_still_resets_the_edge() {
    let (after, made) = run(
        at(Phase::Hotkeys, true),
        vec![press(TOGGLE), Reply::Flag(false), Reply::Done],
    );
    assert_eq!(made, vec![Request::NextHotkey, Request::TrackedValid, Request::ResetEdge]);
    assert_eq!(after, at(Phase::Hotkeys, true));
}

#[test]
fn toggle_without_work_area_or_bounds_changes_nothing() {
    let (after, made) = run(
        at(Phase::Hotkeys, false),
        vec![press(TOGGLE), Reply::Flag(true), Reply::Window(TRACKED), no_monitor(), Reply::Done],
    );
    assert_eq!(made[4], Request::ResetEdge);
    assert_eq!(after, at(Phase::Hotkeys, false));

    let (after, made) = run(
        at(Phase::Hotkeys, true),
        vec![
            press(TOGGLE),
            Reply::Flag(true),
            Reply::Window(TRACKED),
            monitor(),
            Reply::Bounds(None),
            Reply::Done,
        ],
    );
    assert_eq!(made[5], Request::ResetEdge);
    assert_eq!(after, at(Phase::Hotkeys, true));
}

#[test]
fn two_toggles_leave_the_window_as_it_was() {
    let hide = vec![
        press(TOGGLE),
        Reply::Flag(true),
        Reply::Window(TRACKED),
        monitor(),
        Reply::Bounds(Some(BOUNDS)),
        Reply::Direction(Direction::Left),
        Reply::Window(NO_WINDOW),
        Reply::Done,
        Reply::Done,
    ];
    let show = vec![
        press(TOGGLE),
        Reply::Flag(true),
        Reply::Window(TRACKED),
        monitor(),
        Reply::Bounds(Some(BOUNDS)),
        Reply::Direction(Direction::Left),
        Reply::Window(OTHER),
        Reply::Done,
        Reply::Done,
        Reply::Done,
        Reply::Done,
        Reply::Done,
        Reply::Done,
    ];
    let (hidden, _) = run(at(Phase::Hotkeys, true), hide);
    assert!(!hidden.visible);
    let (shown, _) = run(hidden, show);
    assert_eq!(shown, at(Phase::Hotkeys, true));
}

#[test]
fn released_and_foreign_hotkeys_do_nothing() {
    for event in [
        HotkeyEvent { id: TOGGLE, pressed: false },
        HotkeyEvent { id: TRACK, pressed: false },
        HotkeyEvent { id: 99, pressed: true },
    ] {
        let (after, _) = run(at(Phase::Hotkeys, true), vec![Reply::Hotkey(Some(event))]);
        assert_eq!(after, at(Phase::Hotkeys, true));
    }
}

#[test]
fn one_id_for_both_hotkeys_toggles() {
    let controller = Controller {
        settings: Settings { toggle_id: 5, track_id: 5, focus_changed: FOCUS_CHANGED },
        visible: false,
        phase: Phase::Hotkeys,
    };
    let (after, _) = run(controller, vec![press(5)]);
    assert_eq!(after.request(), Request::TrackedValid);
}

#[test]
fn track_registers_the_foreground_window() {
    let (after, made) = run(
        at(Phase::Hotkeys, false),
        vec![
            press(TRACK),
            Reply::Done,
            Reply::Window(OTHER),
            Reply::Title("Terminal".to_string()),
            Reply::Done,
            Reply::Done,
            Reply::Bounds(None),
            Reply::Done,
            Reply::Done,
            Reply::Done,
            Reply::Done,
        ],
    );
    assert_eq!(
        made,
        vec![
            Request::NextHotkey,
            Request::RestoreOriginal,
            Request::Foreground,
            Request::WindowTitle(OTHER),
            Request::SaveOriginal(OTHER),
            Request::SetTracked(OTHER),
            Request::SaveBounds(OTHER),
            Request::SetFocusTarget(OTHER),
            Request::InstallFocusHook(OTHER),
            Request::SetStatus(Some("Terminal".to_string())),
            Request::NotifyTracked("Terminal".to_string()),
        ]
    );
    assert_eq!(after, at(Phase::Hotkeys, true));
}

#[test]
fn track_without_foreground_window_clears_the_status() {
    for visible in [false, true] {
        let (after, made) = run(
            at(Phase::Hotkeys, visible),
            vec![press(TRACK), Reply::Done, Reply::Window(NO_WINDOW), Reply::Done],
        );
        assert_eq!(
            made,
            vec![
                Request::NextHotkey,
                Request::RestoreOriginal,
                Request::Foreground,
                Request::SetStatus(None),
            ]
        );
        assert_eq!(after, at(Phase::Hotkeys, visible));
    }
}

#[test]
fn menu_exit_asks_for_shutdown() {
    // The first item that was hit counts.
    let hits = MenuHits { exit: true, untrack: true, ..no_hits() };
    let (after, made) = run(at(Phase::Menus, true), vec![Reply::Menu(Some(hits)), Reply::Done]);
    assert_eq!(made, vec![Request::NextMenu, Request::RequestShutdown]);
    assert_eq!(after, at(Phase::Menus, true));
}

#[test]
fn menu_exit_makes_the_round_the_last() {
    let (after, made) = run(
        at(Phase::Menus, true),
        vec![
            Reply::Menu(Some(MenuHits { exit: true, ..no_hits() })),
            Reply::Done,
            Reply::Menu(None),
            Reply::Flag(false),
            Reply::Message(None),
            Reply::Flag(true),
            Reply::Done,
            Reply::Done,
        ],
    );
    assert_eq!(after.phase, Phase::Exit);
    assert_eq!(
        made,
        vec![
            Request::NextMenu,
            Request::RequestShutdown,
            Request::NextMenu,
            Request::EdgeEnabled,
            Request::NextMessage,
            Request::ShutdownRequested,
            Request::RestoreOriginal,
            Request::UninstallFocusHook,
        ]
    );
}

#[test]
fn menu_untrack_lets_the_window_go() {
    let hits = MenuHits { untrack: true, autolaunch: true, ..no_hits() };
    let (after, made) = run(
        at(Phase::Menus, true),
        vec![Reply::Menu(Some(hits)), Reply::Done, Reply::Done, Reply::Done, Reply::Done],
    );
    assert_eq!(
        made,
        vec![
            Request::NextMenu,
            Request::RestoreOriginal,
            Request::UninstallFocusHook,
            Request::ResetEdge,
            Request::SetStatus(None),
        ]
    );
    assert_eq!(after, at(Phase::Menus, false));
}

#[test]
fn menu_autolaunch_marks_what_was_switched() {
    let hits = MenuHits { autolaunch: true, open_config: true, ..no_hits() };
    for enabled in [false, true] {
        let (after, made) = run(
            at(Phase::Menus, false),
            vec![Reply::Menu(Some(hits)), Reply::Switched(Some(enabled)), Reply::Done],
        );
        assert_eq!(
            made,
            vec![Request::NextMenu, Request::ToggleAutolaunch, Request::MarkAutolaunch(enabled)]
        );
        assert_eq!(after, at(Phase::Menus, false));
    }
    let (after, made) =
        run(at(Phase::Menus, false), vec![Reply::Menu(Some(hits)), Reply::Switched(None)]);
    assert_eq!(made, vec![Request::NextMenu, Request::ToggleAutolaunch]);
    assert_eq!(after, at(Phase::Menus, false));
}

#[test]
fn menu_opens_the_configuration() {
    let hits = MenuHits { open_config: true, edge_trigger: true, ..no_hits() };
    let path = "C:\\cfg.toml".to_string();
    let (after, made) = run(
        at(Phase::Menus, false),
        vec![
            Reply::Menu(Some(hits)),
            Reply::Path(Ok(Some(path.clone()))),
            Reply::Outcome(Ok(())),
        ],
    );
    assert_eq!(made, vec![Request::NextMenu, Request::ConfigPath, Request::LaunchConfig(path)]);
    assert_eq!(after, at(Phase::Menus, false));
}

#[test]
fn menu_tells_why_the_configuration_was_not_opened() {
    let hits = MenuHits { open_config: true, ..no_hits() };
    let path = "C:\\cfg.toml".to_string();
    let (after, made) = run(
        at(Phase::Menus, true),
        vec![
            Reply::Menu(Some(hits)),
            Reply::Path(Ok(Some(path.clone()))),
            Reply::Outcome(Err("access denied".to_string())),
            Reply::Done,
        ],
    );
    assert_eq!(
        made,
        vec![
            Request::NextMenu,
            Request::ConfigPath,
            Request::LaunchConfig(path),
            Request::ReportOpenFailure(OpenFailure::Launch("access denied".to_string())),
        ]
    );
    assert_eq!(after, at(Phase::Menus, true));

    for (found, failure) in [
        (Ok(None), OpenFailure::NotUnicode),
        (Err("no home".to_string()), OpenFailure::Path("no home".to_string())),
    ] {
        let (after, made) = run(
            at(Phase::Menus, true),
            vec![Reply::Menu(Some(hits)), Reply::Path(found), Reply::Done],
        );
        assert_eq!(
            made,
            vec![
                Request::NextMenu,
                Request::ConfigPath,
                Request::ReportOpenFailure(failure),
            ]
        );
        assert_eq!(after, at(Phase::Menus, true));
    }
}

#[test]
fn menu_edge_switch_marks_and_resets() {
    let hits = MenuHits { edge_trigger: true, ..no_hits() };
    let (after, made) = run(
        at(Phase::Menus, true),
        vec![Reply::Menu(Some(hits)), Reply::Switched(Some(true)), Reply::Done, Reply::Done],
    );
    assert_eq!(
        made,
        vec![Request::NextMenu, Request::ToggleEdge, Request::MarkEdge(true), Request::ResetEdge]
    );
    assert_eq!(after, at(Phase::Menus, true));

    let (after, made) =
        run(at(Phase::Menus, true), vec![Reply::Menu(Some(hits)), Reply::Switched(None)]);
    assert_eq!(made, vec![Request::NextMenu, Request::ToggleEdge]);
    assert_eq!(after, at(Phase::Menus, true));
}

#[test]
fn menu_event_of_no_item_does_nothing() {
    let (after, made) = run(at(Phase::Menus, true), vec![Reply::Menu(Some(no_hits()))]);
    assert_eq!(made, vec![Request::NextMenu]);
    assert_eq!(after, at(Phase::Menus, true));
}

#[test]
fn edge_trigger_shows_a_hidden_window() {
    let cursor = Point { x: 0, y: 500 };
    let (after, made) = run(
        at(Phase::EdgeEnabled, false),
        vec![
            Reply::Flag(true),
            Reply::Flag(true),
            Reply::Cursor(Some(cursor)),
            monitor(),
            Reply::Bounds(Some(BOUNDS)),
            Reply::Direction(Direction::Top),
            Reply::Edge(Some(EdgeAction::Show)),
        ],
    );
    assert_eq!(
        made,
        vec![
            Request::EdgeEnabled,
            Request::TrackedValid,
            Request::CursorPosition,
            Request::PointWorkArea(cursor),
            Request::LoadBounds,
            Request::SlideDirection { bounds: BOUNDS, work_area: AREA },
            Request::EdgeTransition {
                direction: Direction::Top,
                visible: false,
                cursor,
                work_area: AREA,
                stored: Some(BOUNDS),
            },
        ]
    );
    assert_eq!(after.request(), Request::TrackedValid);
    // A toggle that fails goes on to the messages, without a reset.
    let (after, _) = run(after, vec![Reply::Flag(false)]);
    assert_eq!(after, at(Phase::Messages, false));
}

#[test]
fn edge_trigger_without_stored_bounds_looks_left() {
    let cursor = Point { x: 3, y: 4 };
    let (after, made) = run(
        at(Phase::EdgeEnabled, true),
        vec![
            Reply::Flag(true),
            Reply::Flag(true),
            Reply::Cursor(Some(cursor)),
            monitor(),
            Reply::Bounds(None),
            Reply::Edge(Some(EdgeAction::Show)),
        ],
    );
    assert_eq!(
        made[5],
        Request::EdgeTransition {
            direction: Direction::Left,
            visible: true,
            cursor,
            work_area: AREA,
            stored: None,
        }
    );
    // It is visible already.
    assert_eq!(after, at(Phase::Messages, true));
}

#[test]
fn edge_trigger_gives_up_early() {
    let cursor = Point { x: 0, y: 0 };
    for replies in [
        vec![Reply::Flag(false)],
        vec![Reply::Flag(true), Reply::Flag(false)],
        vec![Reply::Flag(true), Reply::Flag(true), Reply::Cursor(None)],
        vec![Reply::Flag(true), Reply::Flag(true), Reply::Cursor(Some(cursor)), no_monitor()],
        vec![
            Reply::Flag(true),
            Reply::Flag(true),
            Reply::Cursor(Some(cursor)),
            monitor(),
            Reply::Bounds(None),
            Reply::Edge(None),
        ],
    ] {
        let (after, _) = run(at(Phase::EdgeEnabled, true), replies);
        assert_eq!(after, at(Phase::Messages, true));
    }
}

#[test]
fn edge_action_against_visibility() {
    assert!(edge_wants_toggle(EdgeAction::Show, false));
    assert!(!edge_wants_toggle(EdgeAction::Show, true));
    assert!(edge_wants_toggle(EdgeAction::Hide, true));
    assert!(!edge_wants_toggle(EdgeAction::Hide, false));
}

#[test]
fn focus_lost_hides_and_resets_the_edge() {
    let (after, made) = run(
        at(Phase::Messages, true),
        vec![
            message(FOCUS_CHANGED, 0),
            Reply::Window(TRACKED),
            monitor(),
            Reply::Bounds(Some(BOUNDS)),
            Reply::Direction(Direction::Left),
            Reply::Done,
            Reply::Done,
        ],
    );
    assert_eq!(
        made,
        vec![
            Request::NextMessage,
            Request::FocusTarget,
            Request::WindowWorkArea(TRACKED),
            Request::SaveBounds(TRACKED),
            Request::SlideDirection { bounds: BOUNDS, work_area: AREA },
            Request::Animate { slide: slide(Direction::Left), show: false },
            Request::ResetEdge,
        ]
    );
    assert_eq!(after, at(Phase::Messages, false));
}

#[test]
fn focus_lost_with_nothing_to_hide_only_resets_the_edge() {
    let (after, made) =
        run(at(Phase::Messages, false), vec![message(FOCUS_CHANGED, 0), Reply::Done]);
    assert_eq!(made, vec![Request::NextMessage, Request::ResetEdge]);
    assert_eq!(after, at(Phase::Messages, false));

    for replies in [
        vec![message(FOCUS_CHANGED, 0), Reply::Window(NO_WINDOW), Reply::Done],
        vec![message(FOCUS_CHANGED, 0), Reply::Window(TRACKED), no_monitor(), Reply::Done],
        vec![
            message(FOCUS_CHANGED, 0),
            Reply::Window(TRACKED),
            monitor(),
            Reply::Bounds(None),
            Reply::Done,
        ],
    ] {
        let (after, made) = run(at(Phase::Messages, true), replies);
        assert_eq!(made[made.len() - 1], Request::ResetEdge);
        assert_eq!(after, at(Phase::Messages, true));
    }
}

#[test]
fn messages_are_sorted() {
    let kind = |id: u32, wparam: usize| message_kind(Message { id, wparam }, FOCUS_CHANGED);
    assert_eq!(kind(WM_QUIT, 0), MessageKind::Quit);
    assert_eq!(kind(WM_QUERYENDSESSION, 1), MessageKind::Pass);
    assert_eq!(kind(WM_ENDSESSION, 1), MessageKind::Quit);
    assert_eq!(kind(WM_ENDSESSION, 0), MessageKind::Dispatch);
    assert_eq!(kind(FOCUS_CHANGED, 0), MessageKind::FocusLost);
    assert_eq!(kind(0x200, 0), MessageKind::Dispatch);
    // The ids of the system come before the program's own.
    assert_eq!(message_kind(Message { id: WM_QUIT, wparam: 0 }, WM_QUIT), MessageKind::Quit);
}

#[test]
fn message_ids_are_those_of_the_system() {
    assert_eq!((WM_QUERYENDSESSION, WM_QUIT, WM_ENDSESSION), (17, 18, 22));
}

#[test]
fn ordinary_messages_are_dispatched_and_the_queue_is_drained() {
    let (after, made) = run(
        at(Phase::Messages, true),
        vec![
            message(0x200, 3),
            Reply::Done,
            message(WM_QUERYENDSESSION, 0),
            message(WM_ENDSESSION, 0),
            Reply::Done,
            Reply::Message(None),
        ],
    );
    assert_eq!(
        made,
        vec![
            Request::NextMessage,
            Request::Dispatch(Message { id: 0x200, wparam: 3 }),
            Request::NextMessage,
            Request::NextMessage,
            Request::Dispatch(Message { id: WM_ENDSESSION, wparam: 0 }),
            Request::NextMessage,
        ]
    );
    assert_eq!(after, at(Phase::CheckShutdown, true));
}

#[test]
fn quit_and_end_of_session_end_the_program() {
    for taken in [message(WM_QUIT, 0), message(WM_ENDSESSION, 1)] {
        let (after, made) = run(at(Phase::Messages, true), vec![taken, Reply::Done, Reply::Done]);
        assert_eq!(
            made,
            vec![Request::NextMessage, Request::RestoreOriginal, Request::UninstallFocusHook]
        );
        assert_eq!(after, at(Phase::Exit, true));
    }
}

#[test]
fn track_then_toggle_hides_the_window() {
    let (registered, _) = run(
        at(Phase::Hotkeys, false),
        vec![
            press(TRACK),
            Reply::Done,
            Reply::Window(TRACKED),
            Reply::Title("Terminal".to_string()),
            Reply::Done,
            Reply::Done,
            Reply::Bounds(Some(BOUNDS)),
            Reply::Done,
            Reply::Done,
            Reply::Done,
            Reply::Done,
        ],
    );
    let (toggled, made) = run(
        registered,
        vec![
            press(TOGGLE),
            Reply::Flag(true),
            Reply::Window(TRACKED),
            monitor(),
            Reply::Bounds(Some(BOUNDS)),
            Reply::Direction(Direction::Left),
            Reply::Window(NO_WINDOW),
            Reply::Done,
            Reply::Done,
        ],
    );
    assert_eq!(made[7], Request::Animate { slide: slide(Direction::Left), show: false });
    assert!(!toggled.visible);
}

#[test]
fn work_area_only_where_found() {
    assert_eq!(get_work_area(MonitorInfo { found: true, work: AREA }), Some(AREA));
    assert_eq!(get_work_area(MonitorInfo { found: false, work: AREA }), None);
}
