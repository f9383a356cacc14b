//! What each event sets off, from the call that takes the event to the call
//! that looks for the next one.
use vstd::prelude::*;

use crate::controller::{wants_toggle, Controller, Phase};
use crate::edge_check::{EdgePhase, EdgeStep};
use crate::focus_lost::FocusLostPhase;
use crate::laws::messages::{kinds_are_told_apart, tells_focus_lost};
use crate::laws::run::{
    honest, performs, performs_in_turn, performs_nothing, performs_one_more, World,
};
use crate::laws::toggling::{slide_of, toggle_calls, toggle_runs, toggle_succeeds, Origin};
use crate::menu::MenuPhase;
use crate::open_config::{opened, OpenFailure};
use crate::protocol::{Reply, Request};
use crate::register::RegisterPhase;
use crate::toggle::TogglePhase;
use crate::types::{work_area_of, Direction, EdgeAction, HotkeyEvent, MenuHits, Message, Window};

verus! {

/// The calls that follow a press of the toggle hotkey, from the one that takes
/// the event on.
pub open spec fn toggle_hotkey_calls(visible: bool, world: World) -> Seq<Request> {
    seq![Request::NextHotkey] + toggle_calls(visible, world) + seq![Request::ResetEdge]
}

/// A press of the toggle hotkey toggles the tracked window, and then puts the
/// edge trigger back into its initial state, whether the toggle succeeded or
/// not. Where it succeeded, the window counts as visible if and only if it did
/// not before.
pub proof fn toggle_hotkey_runs(controller: Controller, world: World)
    requires
        honest(world),
        controller.phase == Phase::Hotkeys,
        world(Request::NextHotkey) == Reply::Hotkey(
            Some(HotkeyEvent { id: controller.settings.toggle_id, pressed: true }),
        ),
    ensures
        performs(
            controller,
            world,
            toggle_hotkey_calls(controller.visible, world),
            (Controller {
                visible: controller.visible != toggle_succeeds(controller.visible, world),
                ..controller
            }),
        ),
{
    performs_nothing(controller, world);
    let (s, c) = performs_one_more(controller, world, Seq::empty(), controller);
    assert(c.phase == Phase::HotkeyToggle(TogglePhase::Valid) && c.visible == controller.visible
        && c.settings == controller.settings);
    toggle_runs(c, Origin::Hotkey, world);
    let script = toggle_calls(controller.visible, world);
    let d = Controller {
        settings: c.settings,
        visible: c.visible != toggle_succeeds(c.visible, world),
        phase: Phase::HotkeyResetEdge,
    };
    performs_in_turn(controller, world, s, c, script, d);
    let (s, e) = performs_one_more(controller, world, s + script, d);
    assert(e == (Controller { phase: Phase::Hotkeys, ..d }));
    assert(s =~= toggle_hotkey_calls(controller.visible, world));
}

/// Two presses of the toggle hotkey that both succeed leave the program as it
/// was, whatever the desktop did in between.
pub proof fn toggle_hotkey_undoes_itself(controller: Controller, world: World, later: World)
    requires
        honest(world),
        honest(later),
        controller.phase == Phase::Hotkeys,
        world(Request::NextHotkey) == Reply::Hotkey(
            Some(HotkeyEvent { id: controller.settings.toggle_id, pressed: true }),
        ),
        later(Request::NextHotkey) == world(Request::NextHotkey),
        toggle_succeeds(controller.visible, world),
        toggle_succeeds(!controller.visible, later),
    ensures
        performs(
            controller,
            world,
            toggle_hotkey_calls(controller.visible, world),
            (Controller { visible: !controller.visible, ..controller }),
        ),
        performs(
            (Controller { visible: !controller.visible, ..controller }),
            later,
            toggle_hotkey_calls(!controller.visible, later),
            controller,
        ),
{
    let other = Controller { visible: !controller.visible, ..controller };
    toggle_hotkey_runs(controller, world);
    toggle_hotkey_runs(other, later);
}

/// The calls that make the window that has the focus the tracked one.
pub open spec fn register_calls(world: World) -> Seq<Request> {
    let window = world(Request::Foreground)->Window_0;
    let title = world(Request::WindowTitle(window))->Title_0;
    if window == Window::none() {
        seq![Request::RestoreOriginal, Request::Foreground, Request::SetStatus(None)]
    } else {
        seq![
            Request::RestoreOriginal,
            Request::Foreground,
            Request::WindowTitle(window),
            Request::SaveOriginal(window),
            Request::SetTracked(window),
            Request::SaveBounds(window),
            Request::SetFocusTarget(window),
            Request::InstallFocusHook(window),
            Request::SetStatus(Some(title)),
            Request::NotifyTracked(title),
        ]
    }
}

proof fn register_more(
    from: Controller,
    world: World,
    script: Seq<Request>,
    at: Controller,
    register: RegisterPhase,
) -> (more: (Seq<Request>, Controller))
    requires
        performs(from, world, script, at),
        at.phase == Phase::HotkeyRegister(register),
    ensures
        performs(from, world, more.0, more.1),
        more.0 == script.push(register.asks()),
        more.1.settings == at.settings,
        (match register.next(at.visible, world(register.asks())) {
            (Some(next), visible) => more.1.visible == visible && more.1.phase
                == Phase::HotkeyRegister(next),
            (None, visible) => more.1.visible == visible && more.1.phase == Phase::Hotkeys,
        }),
{
    performs_one_more(from, world, script, at)
}

/// A press of the track hotkey lets the window go that was tracked before, and
/// tracks the one that has the focus: its state is remembered before it is
/// tracked, and it counts as visible then. Where no window has the focus, only
/// the status is cleared.
pub proof fn track_hotkey_runs(controller: Controller, world: World)
    requires
        honest(world),
        controller.phase == Phase::Hotkeys,
        controller.settings.track_id != controller.settings.toggle_id,
        world(Request::NextHotkey) == Reply::Hotkey(
            Some(HotkeyEvent { id: controller.settings.track_id, pressed: true }),
        ),
    ensures
        performs(
            controller,
            world,
            seq![Request::NextHotkey] + register_calls(world),
            (Controller {
                visible: controller.visible || world(Request::Foreground)->Window_0
                    != Window::none(),
                ..controller
            }),
        ),
{
    let from = controller;
    let goal = seq![Request::NextHotkey] + register_calls(world);
    performs_nothing(from, world);
    let (s, c) = performs_one_more(from, world, Seq::empty(), from);
    assert(c.phase == Phase::HotkeyRegister(RegisterPhase::Restore) && c.visible == from.visible
        && c.settings == from.settings);
    let (s, c) = register_more(from, world, s, c, RegisterPhase::Restore);
    let (s, c) = register_more(from, world, s, c, RegisterPhase::Foreground);
    assert(Request::Foreground.fits(world(Request::Foreground)));
    let window = world(Request::Foreground)->Window_0;
    if window == Window::none() {
        let (s, c) = register_more(from, world, s, c, RegisterPhase::ClearStatus);
        assert(s =~= goal);
    } else {
        let (s, c) = register_more(from, world, s, c, RegisterPhase::Title { window });
        assert(Request::WindowTitle(window).fits(world(Request::WindowTitle(window))));
        let title = world(Request::WindowTitle(window))->Title_0;
        let (s, c) = register_more(from, world, s, c, RegisterPhase::Original { window, title });
        let (s, c) = register_more(from, world, s, c, RegisterPhase::Track { window, title });
        let (s, c) = register_more(from, world, s, c, RegisterPhase::Bounds { window, title });
        let (s, c) = register_more(from, world, s, c, RegisterPhase::Target { window, title });
        let (s, c) = register_more(from, world, s, c, RegisterPhase::Hook { window, title });
        let (s, c) = register_more(from, world, s, c, RegisterPhase::Status { title });
        let (s, c) = register_more(from, world, s, c, RegisterPhase::Notify { title });
        assert(s =~= goal);
    }
}

/// A hotkey that is let go, or that is neither of the two, sets nothing off.
pub proof fn other_hotkeys_do_nothing(controller: Controller, event: HotkeyEvent)
    requires
        controller.phase == Phase::Hotkeys,
        !event.pressed || (event.id != controller.settings.toggle_id && event.id
            != controller.settings.track_id),
    ensures
        controller.next(Reply::Hotkey(Some(event))) == controller,
{
}

/// The calls that follow a loss of focus while a window is visible.
pub open spec fn focus_lost_calls(world: World) -> Seq<Request> {
    let window = world(Request::FocusTarget)->Window_0;
    let measured = seq![
        Request::FocusTarget,
        Request::WindowWorkArea(window),
        Request::SaveBounds(window),
    ];
    if window == Window::none() {
        seq![Request::FocusTarget]
    } else {
        match work_area_of(world(Request::WindowWorkArea(window))->Monitor_0) {
            None => seq![Request::FocusTarget, Request::WindowWorkArea(window)],
            Some(work_area) => match world(Request::SaveBounds(window))->Bounds_0 {
                None => measured,
                Some(bounds) => measured + seq![
                    Request::SlideDirection { bounds, work_area },
                    Request::Animate {
                        slide: slide_of(window, work_area, bounds, world),
                        show: false,
                    },
                ],
            },
        }
    }
}

/// Nothing is in the way of hiding the window that lost the focus: it is known,
/// and so are its work area and its bounds.
pub open spec fn focus_lost_hides(world: World) -> bool {
    let window = world(Request::FocusTarget)->Window_0;
    &&& window != Window::none()
    &&& world(Request::WindowWorkArea(window))->Monitor_0.found
    &&& world(Request::SaveBounds(window))->Bounds_0 is Some
}

proof fn focus_lost_more(
    from: Controller,
    world: World,
    script: Seq<Request>,
    at: Controller,
    lost: FocusLostPhase,
) -> (more: (Seq<Request>, Controller))
    requires
        performs(from, world, script, at),
        at.phase == Phase::FocusLost(lost),
    ensures
        performs(from, world, more.0, more.1),
        more.0 == script.push(lost.asks()),
        more.1.settings == at.settings,
        (match lost.next(at.visible, world(lost.asks())) {
            (Some(next), visible) => more.1.visible == visible && more.1.phase == Phase::FocusLost(
                next,
            ),
            (None, visible) => more.1.visible == visible && more.1.phase == Phase::FocusResetEdge,
        }),
{
    performs_one_more(from, world, script, at)
}

/// The calls between a loss of focus and the reset of the edge trigger.
proof fn focus_lost_middle(from: Controller, world: World, script: Seq<Request>, at: Controller)
    requires
        honest(world),
        performs(from, world, script, at),
        at.visible,
        at.phase == Phase::FocusLost(FocusLostPhase::Target),
    ensures
        performs(
            from,
            world,
            script + focus_lost_calls(world),
            (Controller {
                settings: at.settings,
                visible: !focus_lost_hides(world),
                phase: Phase::FocusResetEdge,
            }),
        ),
{
    let goal = script + focus_lost_calls(world);
    let l = FocusLostPhase::Target;
    let (s, c) = focus_lost_more(from, world, script, at, l);
    assert(l.asks().fits(world(l.asks())));
    let window = world(Request::FocusTarget)->Window_0;
    if window == Window::none() {
        assert(s =~= goal);
    } else {
        let l = FocusLostPhase::Area { window };
        let (s, c) = focus_lost_more(from, world, s, c, l);
        assert(l.asks().fits(world(l.asks())));
        match work_area_of(world(Request::WindowWorkArea(window))->Monitor_0) {
            None => {
                assert(s =~= goal);
            },
            Some(work_area) => {
                let l = FocusLostPhase::Bounds { window, work_area };
                let (s, c) = focus_lost_more(from, world, s, c, l);
                assert(l.asks().fits(world(l.asks())));
                match world(Request::SaveBounds(window))->Bounds_0 {
                    None => {
                        assert(s =~= goal);
                    },
                    Some(bounds) => {
                        let l = FocusLostPhase::Direction { window, work_area, bounds };
                        let (s, c) = focus_lost_more(from, world, s, c, l);
                        assert(l.asks().fits(world(l.asks())));
                        let slide = slide_of(window, work_area, bounds, world);
                        let l = FocusLostPhase::Animate { slide };
                        let (s, c) = focus_lost_more(from, world, s, c, l);
                        assert(s =~= goal);
                    },
                }
            },
        }
    }
}

/// A loss of focus hides a visible window without touching the focus, and then
/// puts the edge trigger back into its initial state, whether there was a
/// window to hide or not.
pub proof fn focus_lost_runs(controller: Controller, world: World, message: Message)
    requires
        honest(world),
        controller.phase == Phase::Messages,
        world(Request::NextMessage) == Reply::Message(Some(message)),
        tells_focus_lost(message, controller.settings.focus_changed),
    ensures
        performs(
            controller,
            world,
            seq![Request::NextMessage] + (if controller.visible {
                focus_lost_calls(world)
            } else {
                Seq::empty()
            }) + seq![Request::ResetEdge],
            (Controller {
                visible: controller.visible && !focus_lost_hides(world),
                ..controller
            }),
        ),
{
    let from = controller;
    kinds_are_told_apart(message, controller.settings.focus_changed);
    performs_nothing(from, world);
    let (s, c) = performs_one_more(from, world, Seq::empty(), from);
    assert(c == (Controller {
        phase: if from.visible {
            Phase::FocusLost(FocusLostPhase::Target)
        } else {
            Phase::FocusResetEdge
        },
        ..from
    }));
    let middle = if from.visible {
        focus_lost_calls(world)
    } else {
        Seq::empty()
    };
    let d = Controller {
        settings: from.settings,
        visible: from.visible && !focus_lost_hides(world),
        phase: Phase::FocusResetEdge,
    };
    if from.visible {
        focus_lost_middle(from, world, s, c);
    } else {
        assert(s + middle =~= s);
    }
    let (t, e) = performs_one_more(from, world, s + middle, d);
    assert(e == (Controller { phase: Phase::Messages, ..d }));
    assert(t =~= seq![Request::NextMessage] + middle + seq![Request::ResetEdge]);
}

/// Whether the command that opens the configuration file was started, where
/// there is a path to open.
pub open spec fn command_started(world: World) -> Result<(), String> {
    match world(Request::ConfigPath)->Path_0 {
        Ok(Some(path)) => world(Request::LaunchConfig(path))->Outcome_0,
        _ => Ok(()),
    }
}

/// The calls that open the configuration file: the command is started once, for
/// the path that was found, and not at all where there is none; what stood in
/// the way is told last.
pub open spec fn open_config_calls(world: World) -> Seq<Request> {
    match world(Request::ConfigPath)->Path_0 {
        Ok(Some(path)) => {
            let tried = seq![Request::ConfigPath, Request::LaunchConfig(path)];
            match world(Request::LaunchConfig(path))->Outcome_0 {
                Ok(_) => tried,
                Err(cause) => tried.push(Request::ReportOpenFailure(OpenFailure::Launch(cause))),
            }
        },
        Ok(None) => seq![Request::ConfigPath, Request::ReportOpenFailure(OpenFailure::NotUnicode)],
        Err(cause) => seq![
            Request::ConfigPath,
            Request::ReportOpenFailure(OpenFailure::Path(cause)),
        ],
    }
}

/// A failure to open the configuration file is told if and only if the opening
/// failed, last, and as what it was.
pub proof fn failed_opening_is_told(world: World)
    ensures
        ({
            let script = open_config_calls(world);
            let outcome = opened(world(Request::ConfigPath)->Path_0, command_started(world));
            &&& outcome is Ok <==> !(script.last() is ReportOpenFailure)
            &&& outcome is Err ==> script.last() == Request::ReportOpenFailure(outcome->Err_0)
        }),
{
}

/// The calls that follow a menu event.
pub open spec fn menu_calls(hits: MenuHits, world: World) -> Seq<Request> {
    if hits.exit {
        seq![Request::RequestShutdown]
    } else if hits.untrack {
        seq![
            Request::RestoreOriginal,
            Request::UninstallFocusHook,
            Request::ResetEdge,
            Request::SetStatus(None),
        ]
    } else if hits.autolaunch {
        match world(Request::ToggleAutolaunch)->Switched_0 {
            Some(enabled) => seq![Request::ToggleAutolaunch, Request::MarkAutolaunch(enabled)],
            None => seq![Request::ToggleAutolaunch],
        }
    } else if hits.open_config {
        open_config_calls(world)
    } else if hits.edge_trigger {
        match world(Request::ToggleEdge)->Switched_0 {
            Some(enabled) => seq![
                Request::ToggleEdge,
                Request::MarkEdge(enabled),
                Request::ResetEdge,
            ],
            None => seq![Request::ToggleEdge],
        }
    } else {
        Seq::empty()
    }
}

proof fn menu_more(
    from: Controller,
    world: World,
    script: Seq<Request>,
    at: Controller,
    menu: MenuPhase,
) -> (more: (Seq<Request>, Controller))
    requires
        performs(from, world, script, at),
        at.phase == Phase::MenuAnswer(menu),
    ensures
        performs(from, world, more.0, more.1),
        more.0 == script.push(menu.asks()),
        more.1.settings == at.settings,
        (match menu.next(at.visible, world(menu.asks())) {
            (Some(next), visible) => more.1.visible == visible && more.1.phase
                == Phase::MenuAnswer(next),
            (None, visible) => more.1.visible == visible && more.1.phase == Phase::Menus,
        }),
{
    performs_one_more(from, world, script, at)
}

/// A menu event is answered with the calls of `menu_calls`: a switch is marked
/// as what it was switched to, and not marked where it could not be switched.
/// Only the item that lets the tracked window go changes what counts as
/// visible.
pub proof fn menu_event_runs(controller: Controller, world: World, hits: MenuHits)
    requires
        honest(world),
        controller.phase == Phase::Menus,
        world(Request::NextMenu) == Reply::Menu(Some(hits)),
    ensures
        performs(
            controller,
            world,
            seq![Request::NextMenu] + menu_calls(hits, world),
            (Controller {
                visible: controller.visible && (hits.exit || !hits.untrack),
                ..controller
            }),
        ),
{
    let from = controller;
    let goal = seq![Request::NextMenu] + menu_calls(hits, world);
    performs_nothing(from, world);
    let (s, c) = performs_one_more(from, world, Seq::empty(), from);
    assert(c == (Controller {
        phase: match MenuPhase::first(hits) {
            Some(menu) => Phase::MenuAnswer(menu),
            None => Phase::Menus,
        },
        ..from
    }));
    if hits.exit {
        let (s, c) = menu_more(from, world, s, c, MenuPhase::Shutdown);
        assert(s =~= goal);
    } else if hits.untrack {
        let (s, c) = menu_more(from, world, s, c, MenuPhase::UntrackRestore);
        let (s, c) = menu_more(from, world, s, c, MenuPhase::UntrackUnhook);
        let (s, c) = menu_more(from, world, s, c, MenuPhase::UntrackResetEdge);
        let (s, c) = menu_more(from, world, s, c, MenuPhase::UntrackStatus);
        assert(s =~= goal);
    } else if hits.autolaunch {
        let (s, c) = menu_more(from, world, s, c, MenuPhase::AutolaunchSwitch);
        assert(Request::ToggleAutolaunch.fits(world(Request::ToggleAutolaunch)));
        match world(Request::ToggleAutolaunch)->Switched_0 {
            Some(enabled) => {
                let (s, c) = menu_more(from, world, s, c, MenuPhase::AutolaunchMark { enabled });
                assert(s =~= goal);
            },
            None => {
                assert(s =~= goal);
            },
        }
    } else if hits.open_config {
        let (s, c) = menu_more(from, world, s, c, MenuPhase::ConfigPath);
        assert(Request::ConfigPath.fits(world(Request::ConfigPath)));
        match world(Request::ConfigPath)->Path_0 {
            Ok(Some(path)) => {
                let launch = Request::LaunchConfig(path);
                let (s, c) = menu_more(from, world, s, c, MenuPhase::ConfigLaunch { path });
                assert(launch.fits(world(launch)));
                match world(launch)->Outcome_0 {
                    Ok(_) => {
                        assert(s =~= goal);
                    },
                    Err(cause) => {
                        let failure = OpenFailure::Launch(cause);
                        let m = MenuPhase::ConfigReport { failure };
                        let (s, c) = menu_more(from, world, s, c, m);
                        assert(s =~= goal);
                    },
                }
            },
            Ok(None) => {
                let failure = OpenFailure::NotUnicode;
                let (s, c) = menu_more(from, world, s, c, MenuPhase::ConfigReport { failure });
                assert(s =~= goal);
            },
            Err(cause) => {
                let failure = OpenFailure::Path(cause);
                let (s, c) = menu_more(from, world, s, c, MenuPhase::ConfigReport { failure });
                assert(s =~= goal);
            },
        }
    } else if hits.edge_trigger {
        let (s, c) = menu_more(from, world, s, c, MenuPhase::EdgeSwitch);
        assert(Request::ToggleEdge.fits(world(Request::ToggleEdge)));
        match world(Request::ToggleEdge)->Switched_0 {
            Some(enabled) => {
                let (s, c) = menu_more(from, world, s, c, MenuPhase::EdgeMark { enabled });
                let (s, c) = menu_more(from, world, s, c, MenuPhase::EdgeReset);
                assert(s =~= goal);
            },
            None => {
                assert(s =~= goal);
            },
        }
    } else {
        assert(s =~= goal);
    }
}

/// The calls with which the edge trigger looks at the cursor.
pub open spec fn edge_calls(visible: bool, world: World) -> Seq<Request> {
    match world(Request::CursorPosition)->Cursor_0 {
        None => seq![Request::CursorPosition],
        Some(cursor) => match work_area_of(world(Request::PointWorkArea(cursor))->Monitor_0) {
            None => seq![Request::CursorPosition, Request::PointWorkArea(cursor)],
            Some(work_area) => {
                let stored = world(Request::LoadBounds)->Bounds_0;
                let located = seq![
                    Request::CursorPosition,
                    Request::PointWorkArea(cursor),
                    Request::LoadBounds,
                ];
                match stored {
                    None => located.push(
                        Request::EdgeTransition {
                            direction: Direction::Left,
                            visible,
                            cursor,
                            work_area,
                            stored,
                        },
                    ),
                    Some(bounds) => located + seq![
                        Request::SlideDirection { bounds, work_area },
                        Request::EdgeTransition {
                            direction: world(
                                Request::SlideDirection { bounds, work_area },
                            )->Direction_0,
                            visible,
                            cursor,
                            work_area,
                            stored,
                        },
                    ],
                }
            },
        },
    }
}

/// What the edge trigger asks for, if anything: the answer to the last call of
/// the look, where the look came as far as to let the edge trigger see the
/// cursor.
pub open spec fn edge_asks_for(visible: bool, world: World) -> Option<EdgeAction> {
    let last = edge_calls(visible, world).last();
    if last is EdgeTransition {
        world(last)->Edge_0
    } else {
        None
    }
}

proof fn edge_more(
    from: Controller,
    world: World,
    script: Seq<Request>,
    at: Controller,
    edge: EdgePhase,
) -> (more: (Seq<Request>, Controller))
    requires
        performs(from, world, script, at),
        at.phase == Phase::EdgeLook(edge),
    ensures
        performs(from, world, more.0, more.1),
        more.0 == script.push(edge.asks(at.visible)),
        more.1.settings == at.settings,
        more.1.visible == at.visible,
        (match edge.next(world(edge.asks(at.visible))) {
            EdgeStep::Next(next) => more.1.phase == Phase::EdgeLook(next),
            EdgeStep::Over(Some(action)) => more.1.phase == if wants_toggle(action, at.visible) {
                Phase::EdgeToggle(TogglePhase::Valid)
            } else {
                Phase::Messages
            },
            EdgeStep::Over(None) => more.1.phase == Phase::Messages,
        }),
{
    performs_one_more(from, world, script, at)
}

/// The look at the cursor.
proof fn edge_look_runs(from: Controller, world: World, script: Seq<Request>, at: Controller)
    requires
        honest(world),
        performs(from, world, script, at),
        at.phase == Phase::EdgeLook(EdgePhase::Cursor),
    ensures
        performs(
            from,
            world,
            script + edge_calls(at.visible, world),
            (Controller {
                phase: match edge_asks_for(at.visible, world) {
                    Some(action) => if wants_toggle(action, at.visible) {
                        Phase::EdgeToggle(TogglePhase::Valid)
                    } else {
                        Phase::Messages
                    },
                    None => Phase::Messages,
                },
                ..at
            }),
        ),
{
    let goal = script + edge_calls(at.visible, world);
    let e = EdgePhase::Cursor;
    let (s, c) = edge_more(from, world, script, at, e);
    assert(e.asks(at.visible).fits(world(e.asks(at.visible))));
    match world(Request::CursorPosition)->Cursor_0 {
        None => {
            assert(s =~= goal);
        },
        Some(cursor) => {
            let e = EdgePhase::Area { cursor };
            let (s, c) = edge_more(from, world, s, c, e);
            assert(e.asks(at.visible).fits(world(e.asks(at.visible))));
            match work_area_of(world(Request::PointWorkArea(cursor))->Monitor_0) {
                None => {
                    assert(s =~= goal);
                },
                Some(work_area) => {
                    let e = EdgePhase::Bounds { cursor, work_area };
                    let (s, c) = edge_more(from, world, s, c, e);
                    assert(e.asks(at.visible).fits(world(e.asks(at.visible))));
                    let stored = world(Request::LoadBounds)->Bounds_0;
                    match stored {
                        None => {
                            let direction = Direction::Left;
                            let e = EdgePhase::Transition { cursor, work_area, stored, direction };
                            let (s, c) = edge_more(from, world, s, c, e);
                            assert(e.asks(at.visible).fits(world(e.asks(at.visible))));
                            assert(s =~= goal);
                        },
                        Some(bounds) => {
                            let e = EdgePhase::Direction { cursor, work_area, bounds };
                            let (s, c) = edge_more(from, world, s, c, e);
                            assert(e.asks(at.visible).fits(world(e.asks(at.visible))));
                            let direction = world(e.asks(at.visible))->Direction_0;
                            let e = EdgePhase::Transition { cursor, work_area, stored, direction };
                            let (s, c) = edge_more(from, world, s, c, e);
                            assert(e.asks(at.visible).fits(world(e.asks(at.visible))));
                            assert(s =~= goal);
                        },
                    }
                },
            }
        },
    }
}

/// The edge trigger's turn, up to the toggle that it may set off: it looks at
/// the cursor only where it is switched on and a tracked window exists.
pub open spec fn edge_turn_calls(visible: bool, world: World) -> Seq<Request> {
    if !world(Request::EdgeEnabled)->Flag_0 {
        seq![Request::EdgeEnabled]
    } else if !world(Request::TrackedValid)->Flag_0 {
        seq![Request::EdgeEnabled, Request::TrackedValid]
    } else {
        seq![Request::EdgeEnabled, Request::TrackedValid] + edge_calls(visible, world)
    }
}

/// Does the edge trigger's turn set a toggle off? Only where what it asks for
/// is not the case already: a visible window is never shown, a hidden one never
/// hidden.
pub open spec fn edge_turn_toggles(visible: bool, world: World) -> bool {
    &&& world(Request::EdgeEnabled)->Flag_0
    &&& world(Request::TrackedValid)->Flag_0
    &&& edge_asks_for(visible, world) == Some(
        if visible {
            EdgeAction::Hide
        } else {
            EdgeAction::Show
        },
    )
}

/// The edge trigger's turn makes the calls of `edge_turn_calls`, and goes on to
/// the toggle that it sets off or else to the messages.
pub proof fn edge_turn_runs(controller: Controller, world: World)
    requires
        honest(world),
        controller.phase == Phase::EdgeEnabled,
    ensures
        performs(
            controller,
            world,
            edge_turn_calls(controller.visible, world),
            (Controller {
                phase: if edge_turn_toggles(controller.visible, world) {
                    Phase::EdgeToggle(TogglePhase::Valid)
                } else {
                    Phase::Messages
                },
                ..controller
            }),
        ),
{
    let from = controller;
    let visible = from.visible;
    let goal = edge_turn_calls(visible, world);
    performs_nothing(from, world);
    let (s, c) = performs_one_more(from, world, Seq::empty(), from);
    assert(Request::EdgeEnabled.fits(world(Request::EdgeEnabled)));
    assert(Request::TrackedValid.fits(world(Request::TrackedValid)));
    assert(c == (Controller {
        phase: if world(Request::EdgeEnabled)->Flag_0 {
            Phase::EdgeTracked
        } else {
            Phase::Messages
        },
        ..from
    }));
    if !world(Request::EdgeEnabled)->Flag_0 {
        assert(s =~= goal);
    } else {
        let (s, c) = performs_one_more(from, world, s, c);
        assert(c == (Controller {
            phase: if world(Request::TrackedValid)->Flag_0 {
                Phase::EdgeLook(EdgePhase::Cursor)
            } else {
                Phase::Messages
            },
            ..from
        }));
        assert(s =~= seq![Request::EdgeEnabled, Request::TrackedValid]);
        if world(Request::TrackedValid)->Flag_0 {
            edge_look_runs(from, world, s, c);
        }
    }
}

/// A toggle that the edge trigger set off shows the window where it asked to
/// show and hides it where it asked to hide, if it succeeds.
pub proof fn edge_toggle_does_what_was_asked(
    controller: Controller,
    world: World,
    later: World,
)
    requires
        honest(world),
        honest(later),
        controller.phase == Phase::EdgeEnabled,
        edge_turn_toggles(controller.visible, world),
        toggle_succeeds(controller.visible, later),
    ensures
        performs(
            (Controller { phase: Phase::EdgeToggle(TogglePhase::Valid), ..controller }),
            later,
            toggle_calls(controller.visible, later),
            (Controller {
                visible: edge_asks_for(controller.visible, world) == Some(EdgeAction::Show),
                phase: Phase::Messages,
                ..controller
            }),
        ),
{
    let toggling = Controller { phase: Phase::EdgeToggle(TogglePhase::Valid), ..controller };
    toggle_runs(toggling, Origin::Edge, later);
}

/// No call is made twice in the answer to one event or in one turn of the edge
/// trigger.
pub proof fn each_call_is_made_once(visible: bool, hits: MenuHits, world: World)
    ensures
        toggle_hotkey_calls(visible, world).no_duplicates(),
        (seq![Request::NextHotkey] + register_calls(world)).no_duplicates(),
        (seq![Request::NextMessage] + focus_lost_calls(world) + seq![
            Request::ResetEdge,
        ]).no_duplicates(),
        (seq![Request::NextMenu] + menu_calls(hits, world)).no_duplicates(),
        edge_turn_calls(visible, world).no_duplicates(),
{
}

} // verus!
