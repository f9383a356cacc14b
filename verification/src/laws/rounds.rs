//! What holds of the event loop as a whole.
use vstd::prelude::*;

use crate::controller::{Controller, Phase, Settings, WAIT_MILLIS};
use crate::edge_check::{EdgePhase, EdgeStep};
use crate::focus_lost::FocusLostPhase;
use crate::laws::messages::{ends_program, kinds_are_told_apart, tells_focus_lost};
use crate::laws::run::{
    fitting, made, made_len, performs, performs_nothing, performs_one_more, run, World,
};
use crate::menu::MenuPhase;
use crate::protocol::{Reply, Request};
use crate::register::RegisterPhase;
use crate::toggle::TogglePhase;
use crate::types::{HotkeyEvent, Message};

verus! {

/// Where nothing happens, a round of the loop looks for a shutdown, sleeps,
/// looks at the hotkeys, the menu, the edge trigger and the messages, in this
/// order, and leaves the program as it was.
pub proof fn quiet_round(controller: Controller, world: World)
    requires
        controller.phase == Phase::CheckShutdown,
        world(Request::ShutdownRequested) == Reply::Flag(false),
        world(Request::NextHotkey) == Reply::Hotkey(None),
        world(Request::NextMenu) == Reply::Menu(None),
        world(Request::EdgeEnabled) == Reply::Flag(false),
        world(Request::NextMessage) == Reply::Message(None),
    ensures
        performs(
            controller,
            world,
            seq![
                Request::ShutdownRequested,
                Request::WaitForInput { millis: WAIT_MILLIS },
                Request::NextHotkey,
                Request::NextMenu,
                Request::EdgeEnabled,
                Request::NextMessage,
            ],
            controller,
        ),
{
    let from = controller;
    performs_nothing(from, world);
    let (s, c) = performs_one_more(from, world, Seq::empty(), from);
    let (s, c) = performs_one_more(from, world, s, c);
    let (s, c) = performs_one_more(from, world, s, c);
    let (s, c) = performs_one_more(from, world, s, c);
    let (s, c) = performs_one_more(from, world, s, c);
    let (s, c) = performs_one_more(from, world, s, c);
    assert(s =~= seq![
        Request::ShutdownRequested,
        Request::WaitForInput { millis: WAIT_MILLIS },
        Request::NextHotkey,
        Request::NextMenu,
        Request::EdgeEnabled,
        Request::NextMessage,
    ]);
}

/// A shutdown that was asked for is seen at the head of the loop: no event is
/// taken any more, the tracked window is restored, the watch for the loss of
/// focus ends, and the program is over.
pub proof fn shutdown_ends_the_program(controller: Controller, world: World)
    requires
        controller.phase == Phase::CheckShutdown,
        world(Request::ShutdownRequested) == Reply::Flag(true),
    ensures
        performs(
            controller,
            world,
            seq![Request::ShutdownRequested, Request::RestoreOriginal, Request::UninstallFocusHook],
            (Controller { phase: Phase::Exit, ..controller }),
        ),
{
    let from = controller;
    performs_nothing(from, world);
    let (s, c) = performs_one_more(from, world, Seq::empty(), from);
    let (s, c) = performs_one_more(from, world, s, c);
    let (s, c) = performs_one_more(from, world, s, c);
    assert(s =~= seq![
        Request::ShutdownRequested,
        Request::RestoreOriginal,
        Request::UninstallFocusHook,
    ]);
}

/// A message that ends the program ends it at once, with the same clean-up.
pub proof fn quitting_ends_the_program(controller: Controller, world: World, message: Message)
    requires
        controller.phase == Phase::Messages,
        world(Request::NextMessage) == Reply::Message(Some(message)),
        ends_program(message),
    ensures
        performs(
            controller,
            world,
            seq![Request::NextMessage, Request::RestoreOriginal, Request::UninstallFocusHook],
            (Controller { phase: Phase::Exit, ..controller }),
        ),
{
    kinds_are_told_apart(message, controller.settings.focus_changed);
    let from = controller;
    performs_nothing(from, world);
    let (s, c) = performs_one_more(from, world, Seq::empty(), from);
    let (s, c) = performs_one_more(from, world, s, c);
    let (s, c) = performs_one_more(from, world, s, c);
    assert(s =~= seq![
        Request::NextMessage,
        Request::RestoreOriginal,
        Request::UninstallFocusHook,
    ]);
}

/// Whether the window counts as visible after a call, from whether it did
/// before.
pub open spec fn visible_after(call: Request, visible: bool) -> bool {
    match call {
        Request::InstallFocusHook(_) => true,
        Request::UninstallFocusHook => false,
        Request::Animate { show: false, .. } => false,
        _ => visible,
    }
}

/// Does the window count as visible after these calls? From the start of the
/// watch for the loss of focus on it does, and from a slide out or the end of
/// that watch on it does not. It may be on the screen all the same: a window
/// that is let go is restored there.
pub open spec fn visible_by(made: Seq<Request>) -> bool
    decreases made.len(),
{
    if made.len() == 0 {
        false
    } else {
        visible_after(made.last(), visible_by(made.drop_last()))
    }
}

/// Only three calls change what counts as visible.
pub proof fn call_changes_visible(controller: Controller, reply: Reply)
    requires
        controller.asks().fits(reply),
        !(controller.next(reply).phase is Exit),
    ensures
        controller.next(reply).visible == visible_after(controller.asks(), controller.visible),
{
}

/// The program is over only after the call that ends the watch for the loss of
/// focus, and makes that call only after the one that restores the window.
proof fn call_before_exit(controller: Controller, reply: Reply)
    requires
        controller.asks().fits(reply),
    ensures
        !(controller.phase is Exit),
        controller.next(reply).phase is Exit ==> controller.phase is UnhookOnExit,
        controller.next(reply).phase is UnhookOnExit ==> controller.phase is RestoreOnExit,
{
}

/// After any row of replies, up to the end of the program, the calls so far
/// alone decide whether the window counts as visible.
pub proof fn visible_follows_the_calls(settings: Settings, replies: Seq<Reply>)
    requires
        fitting(Controller::fresh(settings), replies),
        !(run(Controller::fresh(settings), replies).phase is Exit),
    ensures
        run(Controller::fresh(settings), replies).visible == visible_by(
            made(Controller::fresh(settings), replies),
        ),
    decreases replies.len(),
{
    let fresh = Controller::fresh(settings);
    if replies.len() > 0 {
        let before = run(fresh, replies.drop_last());
        let calls = made(fresh, replies);
        assert(calls.drop_last() =~= made(fresh, replies.drop_last()));
        call_before_exit(before, replies.last());
        visible_follows_the_calls(settings, replies.drop_last());
        call_changes_visible(before, replies.last());
    }
}

/// The program starts at the head of the loop, with no window visible and with
/// exactly what it was told.
pub proof fn starts_with_what_it_is_told(settings: Settings)
    ensures
        Controller::fresh(settings).settings.toggle_id == settings.toggle_id,
        Controller::fresh(settings).settings.track_id == settings.track_id,
        Controller::fresh(settings).settings.focus_changed == settings.focus_changed,
        !Controller::fresh(settings).visible,
        Controller::fresh(settings).asks() == Request::ShutdownRequested,
        Controller::fresh(settings).phase is CheckShutdown,
{
}

/// After any run from the start, a press of the hotkey that the program was told
/// toggles leads to the first call of a toggle, a press of the other one that it
/// was told to the first call of a registration, and the message that it was told
/// tells of a loss of focus.
pub proof fn hotkeys_do_what_was_told(settings: Settings, replies: Seq<Reply>, event: HotkeyEvent)
    requires
        run(Controller::fresh(settings), replies).phase is Hotkeys,
    ensures
        ({
            let at = run(Controller::fresh(settings), replies);
            let then = at.next(Reply::Hotkey(Some(event)));
            &&& then.asks() == Request::TrackedValid <==> event.pressed && event.id
                == settings.toggle_id
            &&& then.asks() == Request::RestoreOriginal <==> event.pressed && event.id
                == settings.track_id && event.id != settings.toggle_id
            &&& then.asks() == Request::NextHotkey <==> !event.pressed || (event.id
                != settings.toggle_id && event.id != settings.track_id)
            &&& then.visible == at.visible
        }),
{
    starts_with_what_it_is_told(settings);
    settings_stay(Controller::fresh(settings), replies);
}

/// After any run from the start, a message tells of a loss of focus if and only if
/// it is the one that the program was told, and the system has no other use for
/// its id.
pub proof fn focus_message_is_what_was_told(
    settings: Settings,
    replies: Seq<Reply>,
    message: Message,
)
    requires
        run(Controller::fresh(settings), replies).phase is Messages,
    ensures
        ({
            let at = run(Controller::fresh(settings), replies);
            let then = at.next(Reply::Message(Some(message)));
            then.asks() == Request::ResetEdge || then.asks() == Request::FocusTarget
                <==> tells_focus_lost(message, settings.focus_changed)
        }),
{
    starts_with_what_it_is_told(settings);
    settings_stay(Controller::fresh(settings), replies);
}

/// The program says that it is over if and only if it is.
pub proof fn end_is_told(controller: Controller)
    ensures
        controller.asks() is Exit <==> controller.phase is Exit,
{
}

/// What the loop is told once, it never changes.
pub proof fn settings_stay(controller: Controller, replies: Seq<Reply>)
    ensures
        run(controller, replies).settings == controller.settings,
    decreases replies.len(),
{
    if replies.len() > 0 {
        settings_stay(controller, replies.drop_last());
    }
}

/// However the program comes to its end, the last two calls before it restore
/// the tracked window and end the watch for the loss of focus.
pub proof fn exit_cleans_up(settings: Settings, replies: Seq<Reply>)
    requires
        fitting(Controller::fresh(settings), replies),
        run(Controller::fresh(settings), replies).phase is Exit,
    ensures
        ({
            let calls = made(Controller::fresh(settings), replies);
            &&& calls.len() >= 3
            &&& calls[calls.len() - 2] == Request::RestoreOriginal
            &&& calls[calls.len() - 1] == Request::UninstallFocusHook
        }),
{
    let fresh = Controller::fresh(settings);
    let r1 = replies.drop_last();
    let r2 = r1.drop_last();
    call_before_exit(run(fresh, r1), replies.last());
    assert(r1.len() > 0 && fitting(fresh, r1));
    call_before_exit(run(fresh, r2), r1.last());
    assert(r2.len() > 0);
    made_len(fresh, replies);
    made_len(fresh, r1);
}

/// The desktop remembers a shutdown: once the program has asked for one, every
/// later question whether there is one gets a yes.
pub open spec fn remembers_shutdown(controller: Controller, replies: Seq<Reply>) -> bool {
    let calls = made(controller, replies);
    forall|i: int|
        0 <= i < replies.len() && calls[i] is ShutdownRequested && calls.take(i).contains(
            Request::RequestShutdown,
        ) ==> #[trigger] replies[i] == Reply::Flag(true)
}

/// The program sleeps only after it was told that no shutdown was asked for.
proof fn call_before_sleep(controller: Controller, reply: Reply)
    requires
        controller.asks().fits(reply),
    ensures
        controller.next(reply).asks() is WaitForInput ==> controller.asks() is ShutdownRequested
            && reply == Reply::Flag(false),
{
}

/// Once the program has asked for a shutdown, it never sleeps again: the round
/// is the last one.
pub proof fn asked_shutdown_comes(controller: Controller, replies: Seq<Reply>)
    requires
        fitting(controller, replies),
        remembers_shutdown(controller, replies),
        made(controller, replies).contains(Request::RequestShutdown),
    ensures
        !(run(controller, replies).asks() is WaitForInput),
{
    let calls = made(controller, replies);
    let last = replies.len() - 1;
    made_len(controller, replies);
    call_before_sleep(run(controller, replies.drop_last()), replies.last());
    if calls[last] is ShutdownRequested {
        let i = choose|i: int| 0 <= i < calls.len() && calls[i] == Request::RequestShutdown;
        assert(calls.take(last)[i] == Request::RequestShutdown);
        assert(replies[last] == Reply::Flag(true));
    }
}

/// How many calls a toggle makes at most, from here on.
pub open spec fn toggle_rest(toggle: TogglePhase) -> nat {
    match toggle {
        TogglePhase::Valid => 12,
        TogglePhase::Find => 11,
        TogglePhase::Area { .. } => 10,
        TogglePhase::OutBounds { .. } => 5,
        TogglePhase::OutDirection { .. } => 4,
        TogglePhase::OutPrevious { .. } => 3,
        TogglePhase::OutFocus { .. } => 2,
        TogglePhase::OutAnimate { .. } => 1,
        TogglePhase::InBounds { .. } => 9,
        TogglePhase::InCapture { .. } => 8,
        TogglePhase::InDirection { .. } => 7,
        TogglePhase::InForeground { .. } => 6,
        TogglePhase::InPrevious { .. } => 5,
        TogglePhase::InAnimate { .. } => 4,
        TogglePhase::InFocus { .. } => 3,
        TogglePhase::InTarget { .. } => 2,
        TogglePhase::InHook { .. } => 1,
    }
}

/// How many calls a registration makes at most, from here on.
pub open spec fn register_rest(register: RegisterPhase) -> nat {
    match register {
        RegisterPhase::Restore => 10,
        RegisterPhase::Foreground => 9,
        RegisterPhase::Title { .. } => 8,
        RegisterPhase::Original { .. } => 7,
        RegisterPhase::Track { .. } => 6,
        RegisterPhase::Bounds { .. } => 5,
        RegisterPhase::Target { .. } => 4,
        RegisterPhase::Hook { .. } => 3,
        RegisterPhase::Status { .. } => 2,
        RegisterPhase::ClearStatus | RegisterPhase::Notify { .. } => 1,
    }
}

/// How many calls the answer to a menu event makes at most, from here on.
pub open spec fn menu_rest(menu: MenuPhase) -> nat {
    match menu {
        MenuPhase::UntrackRestore => 4,
        MenuPhase::UntrackUnhook | MenuPhase::EdgeSwitch | MenuPhase::ConfigPath => 3,
        MenuPhase::UntrackResetEdge
        | MenuPhase::EdgeMark { .. }
        | MenuPhase::AutolaunchSwitch
        | MenuPhase::ConfigLaunch { .. } => 2,
        _ => 1,
    }
}

/// How many calls the edge trigger's look makes at most, from here on.
pub open spec fn edge_rest(edge: EdgePhase) -> nat {
    match edge {
        EdgePhase::Cursor => 5,
        EdgePhase::Area { .. } => 4,
        EdgePhase::Bounds { .. } => 3,
        EdgePhase::Direction { .. } => 2,
        EdgePhase::Transition { .. } => 1,
    }
}

/// How many calls the answer to a loss of focus makes at most, from here on.
pub open spec fn focus_lost_rest(lost: FocusLostPhase) -> nat {
    match lost {
        FocusLostPhase::Target => 5,
        FocusLostPhase::Area { .. } => 4,
        FocusLostPhase::Bounds { .. } => 3,
        FocusLostPhase::Direction { .. } => 2,
        FocusLostPhase::Animate { .. } => 1,
    }
}

/// How many calls the program makes at most until it is back at the head of the
/// loop or at its end, if no further event comes.
pub open spec fn round_rest(phase: Phase) -> nat {
    match phase {
        Phase::Messages => 1,
        Phase::Dispatch(_) | Phase::FocusResetEdge => 2,
        Phase::FocusLost(lost) => 2 + focus_lost_rest(lost),
        Phase::EdgeToggle(toggle) => 1 + toggle_rest(toggle),
        Phase::EdgeLook(edge) => 13 + edge_rest(edge),
        Phase::EdgeTracked => 19,
        Phase::EdgeEnabled => 20,
        Phase::Menus => 21,
        Phase::MenuAnswer(menu) => 21 + menu_rest(menu),
        Phase::Hotkeys => 22,
        Phase::HotkeyResetEdge => 23,
        Phase::HotkeyToggle(toggle) => 23 + toggle_rest(toggle),
        Phase::HotkeyRegister(register) => 22 + register_rest(register),
        Phase::Wait => 23,
        Phase::CheckShutdown => 24,
        Phase::RestoreOnExit => 2,
        Phase::UnhookOnExit => 1,
        Phase::Exit => 0,
    }
}

proof fn toggle_ends(toggle: TogglePhase, visible: bool, reply: Reply)
    requires
        toggle.asks().fits(reply),
    ensures
        toggle.next(visible, reply) matches (Some(next), _) ==> toggle_rest(next) < toggle_rest(toggle),
{
}

proof fn register_ends(register: RegisterPhase, visible: bool, reply: Reply)
    requires
        register.asks().fits(reply),
    ensures
        register.next(visible, reply) matches (Some(next), _) ==> register_rest(next) < register_rest(register),
{
}

proof fn menu_ends(menu: MenuPhase, visible: bool, reply: Reply)
    requires
        menu.asks().fits(reply),
    ensures
        menu.next(visible, reply) matches (Some(next), _) ==> menu_rest(next) < menu_rest(menu),
{
}

proof fn focus_lost_ends(lost: FocusLostPhase, visible: bool, reply: Reply)
    requires
        lost.asks().fits(reply),
    ensures
        lost.next(visible, reply) matches (Some(next), _) ==> focus_lost_rest(next) < focus_lost_rest(lost),
{
}

proof fn edge_look_ends(edge: EdgePhase, visible: bool, reply: Reply)
    requires
        edge.asks(visible).fits(reply),
    ensures
        edge.next(reply) matches EdgeStep::Next(next) ==> edge_rest(next) < edge_rest(edge),
{
}

/// Does the reply bring an event?
pub open spec fn brings_event(reply: Reply) -> bool {
    reply matches Reply::Hotkey(Some(_)) || reply matches Reply::Menu(Some(_))
        || reply matches Reply::Message(Some(_))
}

/// No answer to an event goes on for ever: a call that brings no event brings
/// the program nearer to the head of the loop, until the last call of the round
/// takes it there.
pub proof fn every_answer_ends(controller: Controller, reply: Reply)
    requires
        controller.asks().fits(reply),
        !brings_event(reply),
    ensures
        controller.phase is Messages ==> controller.next(reply).phase is CheckShutdown,
        !(controller.phase is Messages) ==> round_rest(controller.next(reply).phase) < round_rest(
            controller.phase,
        ),
{
    let visible = controller.visible;
    match controller.phase {
        Phase::HotkeyToggle(toggle) | Phase::EdgeToggle(toggle) => toggle_ends(
            toggle,
            visible,
            reply,
        ),
        Phase::HotkeyRegister(register) => register_ends(register, visible, reply),
        Phase::MenuAnswer(menu) => menu_ends(menu, visible, reply),
        Phase::FocusLost(lost) => focus_lost_ends(lost, visible, reply),
        Phase::EdgeLook(edge) => edge_look_ends(edge, visible, reply),
        _ => {},
    }
}

} // verus!
