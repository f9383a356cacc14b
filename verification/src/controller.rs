//! The event loop: which event source is looked at when, and what each event
//! sets off.
use vstd::prelude::*;

use crate::edge_check::{EdgePhase, EdgeStep};
use crate::focus_lost::FocusLostPhase;
use crate::menu::MenuPhase;
use crate::protocol::{Reply, Request};
use crate::register::RegisterPhase;
use crate::toggle::TogglePhase;
use crate::types::{EdgeAction, HotkeyEvent, Message};

verus! {

/// The longest sleep between two rounds of the loop, in milliseconds.
pub const WAIT_MILLIS: u32 = 16;

/// The session may end: asked of every program before it does.
pub const WM_QUERYENDSESSION: u32 = 0x11;

/// The message loop is to be left.
pub const WM_QUIT: u32 = 0x12;

/// The session ends, where `wparam` is not zero.
pub const WM_ENDSESSION: u32 = 0x16;

/// What a message of the queue sets off.
#[derive(Clone, Copy, Debug, PartialEq, Eq, Structural)]
pub enum MessageKind {
    /// The program ends.
    Quit,
    /// Nothing.
    Pass,
    /// The focus was lost.
    FocusLost,
    /// The message goes to its window.
    Dispatch,
}

/// What a message sets off, where `focus_changed` is the id of the message
/// that tells of a loss of focus.
pub open spec fn kind_of(message: Message, focus_changed: u32) -> MessageKind {
    if message.id == WM_QUIT || (message.id == WM_ENDSESSION && message.wparam != 0) {
        MessageKind::Quit
    } else if message.id == WM_QUERYENDSESSION {
        MessageKind::Pass
    } else if message.id == focus_changed {
        MessageKind::FocusLost
    } else {
        MessageKind::Dispatch
    }
}

/// What a message sets off.
pub fn message_kind(message: Message, focus_changed: u32) -> (kind: MessageKind)
    ensures
        kind == kind_of(message, focus_changed),
{
    match message.id {
        WM_QUIT => MessageKind::Quit,
        WM_QUERYENDSESSION => MessageKind::Pass,
        WM_ENDSESSION if message.wparam != 0 => MessageKind::Quit,
        id if id == focus_changed => MessageKind::FocusLost,
        _ => MessageKind::Dispatch,
    }
}

/// Does what the edge trigger asks for differ from what is the case?
pub open spec fn wants_toggle(action: EdgeAction, visible: bool) -> bool {
    (action == EdgeAction::Show) != visible
}

/// Does what the edge trigger asks for differ from what is the case?
pub fn edge_wants_toggle(action: EdgeAction, visible: bool) -> (toggle: bool)
    ensures
        toggle == wants_toggle(action, visible),
{
    match action {
        EdgeAction::Show => !visible,
        EdgeAction::Hide => visible,
    }
}

/// What the loop is told once.
#[derive(Clone, Copy, Debug, PartialEq, Eq, Structural)]
pub struct Settings {
    /// The id of the hotkey that toggles the tracked window.
    pub toggle_id: u32,
    /// The id of the hotkey that makes a window the tracked one.
    pub track_id: u32,
    /// The id of the message that tells of a loss of focus.
    pub focus_changed: u32,
}

/// Where the loop is: the call that it waits for.
#[derive(Debug, PartialEq, Eq)]
pub enum Phase {
    /// The head of the loop.
    CheckShutdown,
    Wait,
    /// The hotkey events, until there is none.
    Hotkeys,
    HotkeyToggle(TogglePhase),
    HotkeyResetEdge,
    HotkeyRegister(RegisterPhase),
    /// The tray menu events, until there is none.
    Menus,
    MenuAnswer(MenuPhase),
    /// The edge trigger, once.
    EdgeEnabled,
    EdgeTracked,
    EdgeLook(EdgePhase),
    EdgeToggle(TogglePhase),
    /// The messages, until there is none; then the head of the loop again.
    Messages,
    Dispatch(Message),
    FocusLost(FocusLostPhase),
    FocusResetEdge,
    /// After the loop.
    RestoreOnExit,
    UnhookOnExit,
    Exit,
}

/// The program from the start of the event loop to its end.
#[derive(Debug, PartialEq, Eq)]
pub struct Controller {
    pub settings: Settings,
    /// Does the tracked window count as visible?
    pub visible: bool,
    pub phase: Phase,
}

impl Controller {
    /// The program at the head of the loop, with no window visible.
    pub open spec fn fresh(settings: Settings) -> Controller {
        Controller { settings, visible: false, phase: Phase::CheckShutdown }
    }

    /// The program at the head of the loop, with no window visible.
    pub fn new(settings: Settings) -> (controller: Controller)
        ensures
            controller == Controller::fresh(settings),
    {
        Controller { settings, visible: false, phase: Phase::CheckShutdown }
    }

    /// The call that the program waits for.
    pub open spec fn asks(self) -> Request {
        match self.phase {
            Phase::CheckShutdown => Request::ShutdownRequested,
            Phase::Wait => Request::WaitForInput { millis: WAIT_MILLIS },
            Phase::Hotkeys => Request::NextHotkey,
            Phase::HotkeyToggle(toggle) => toggle.asks(),
            Phase::HotkeyResetEdge => Request::ResetEdge,
            Phase::HotkeyRegister(register) => register.asks(),
            Phase::Menus => Request::NextMenu,
            Phase::MenuAnswer(menu) => menu.asks(),
            Phase::EdgeEnabled => Request::EdgeEnabled,
            Phase::EdgeTracked => Request::TrackedValid,
            Phase::EdgeLook(edge) => edge.asks(self.visible),
            Phase::EdgeToggle(toggle) => toggle.asks(),
            Phase::Messages => Request::NextMessage,
            Phase::Dispatch(message) => Request::Dispatch(message),
            Phase::FocusLost(lost) => lost.asks(),
            Phase::FocusResetEdge => Request::ResetEdge,
            Phase::RestoreOnExit => Request::RestoreOriginal,
            Phase::UnhookOnExit => Request::UninstallFocusHook,
            Phase::Exit => Request::Exit,
        }
    }

    /// The call that the program waits for.
    pub fn request(&self) -> (request: Request)
        ensures
            request == self.asks(),
    {
        match &self.phase {
            Phase::CheckShutdown => Request::ShutdownRequested,
            Phase::Wait => Request::WaitForInput { millis: WAIT_MILLIS },
            Phase::Hotkeys => Request::NextHotkey,
            Phase::HotkeyToggle(toggle) => toggle.request(),
            Phase::HotkeyResetEdge => Request::ResetEdge,
            Phase::HotkeyRegister(register) => register.request(),
            Phase::Menus => Request::NextMenu,
            Phase::MenuAnswer(menu) => menu.request(),
            Phase::EdgeEnabled => Request::EdgeEnabled,
            Phase::EdgeTracked => Request::TrackedValid,
            Phase::EdgeLook(edge) => edge.request(self.visible),
            Phase::EdgeToggle(toggle) => toggle.request(),
            Phase::Messages => Request::NextMessage,
            Phase::Dispatch(message) => Request::Dispatch(*message),
            Phase::FocusLost(lost) => lost.request(),
            Phase::FocusResetEdge => Request::ResetEdge,
            Phase::RestoreOnExit => Request::RestoreOriginal,
            Phase::UnhookOnExit => Request::UninstallFocusHook,
            Phase::Exit => Request::Exit,
        }
    }

    /// Where a hotkey event leads. Only a press counts, and where both hotkeys
    /// have one id it toggles.
    pub open spec fn on_hotkey(settings: Settings, event: HotkeyEvent) -> Phase {
        if event.pressed && event.id == settings.toggle_id {
            Phase::HotkeyToggle(TogglePhase::Valid)
        } else if event.pressed && event.id == settings.track_id {
            Phase::HotkeyRegister(RegisterPhase::Restore)
        } else {
            Phase::Hotkeys
        }
    }

    /// Where a message leads.
    pub open spec fn on_message(settings: Settings, visible: bool, message: Message) -> Phase {
        match kind_of(message, settings.focus_changed) {
            MessageKind::Quit => Phase::RestoreOnExit,
            MessageKind::Pass => Phase::Messages,
            MessageKind::FocusLost => match FocusLostPhase::first(visible) {
                Some(lost) => Phase::FocusLost(lost),
                None => Phase::FocusResetEdge,
            },
            MessageKind::Dispatch => Phase::Dispatch(message),
        }
    }

    /// Where the program goes on a reply: its place, and whether the window
    /// counts as visible then.
    pub open spec fn next_phase(self, reply: Reply) -> (Phase, bool) {
        let visible = self.visible;
        match (self.phase, reply) {
            (Phase::CheckShutdown, Reply::Flag(shutdown)) => (
                if shutdown {
                    Phase::RestoreOnExit
                } else {
                    Phase::Wait
                },
                visible,
            ),
            (Phase::Wait, _) => (Phase::Hotkeys, visible),
            (Phase::Hotkeys, Reply::Hotkey(event)) => (
                match event {
                    Some(event) => Self::on_hotkey(self.settings, event),
                    None => Phase::Menus,
                },
                visible,
            ),
            (Phase::HotkeyToggle(toggle), _) => match toggle.next(visible, reply) {
                (Some(toggle), visible) => (Phase::HotkeyToggle(toggle), visible),
                (None, visible) => (Phase::HotkeyResetEdge, visible),
            },
            (Phase::HotkeyResetEdge, _) => (Phase::Hotkeys, visible),
            (Phase::HotkeyRegister(register), _) => match register.next(visible, reply) {
                (Some(register), visible) => (Phase::HotkeyRegister(register), visible),
                (None, visible) => (Phase::Hotkeys, visible),
            },
            (Phase::Menus, Reply::Menu(hits)) => (
                match hits {
                    Some(hits) => match MenuPhase::first(hits) {
                        Some(menu) => Phase::MenuAnswer(menu),
                        None => Phase::Menus,
                    },
                    None => Phase::EdgeEnabled,
                },
                visible,
            ),
            (Phase::MenuAnswer(menu), _) => match menu.next(visible, reply) {
                (Some(menu), visible) => (Phase::MenuAnswer(menu), visible),
                (None, visible) => (Phase::Menus, visible),
            },
            (Phase::EdgeEnabled, Reply::Flag(enabled)) => (
                if enabled {
                    Phase::EdgeTracked
                } else {
                    Phase::Messages
                },
                visible,
            ),
            (Phase::EdgeTracked, Reply::Flag(valid)) => (
                if valid {
                    Phase::EdgeLook(EdgePhase::Cursor)
                } else {
                    Phase::Messages
                },
                visible,
            ),
            (Phase::EdgeLook(edge), _) => (
                match edge.next(reply) {
                    EdgeStep::Next(edge) => Phase::EdgeLook(edge),
                    EdgeStep::Over(Some(action)) => if wants_toggle(action, visible) {
                        Phase::EdgeToggle(TogglePhase::Valid)
                    } else {
                        Phase::Messages
                    },
                    EdgeStep::Over(None) => Phase::Messages,
                },
                visible,
            ),
            (Phase::EdgeToggle(toggle), _) => match toggle.next(visible, reply) {
                (Some(toggle), visible) => (Phase::EdgeToggle(toggle), visible),
                (None, visible) => (Phase::Messages, visible),
            },
            (Phase::Messages, Reply::Message(message)) => (
                match message {
                    Some(message) => Self::on_message(self.settings, visible, message),
                    None => Phase::CheckShutdown,
                },
                visible,
            ),
            (Phase::Dispatch(_), _) => (Phase::Messages, visible),
            (Phase::FocusLost(lost), _) => match lost.next(visible, reply) {
                (Some(lost), visible) => (Phase::FocusLost(lost), visible),
                (None, visible) => (Phase::FocusResetEdge, visible),
            },
            (Phase::FocusResetEdge, _) => (Phase::Messages, visible),
            (Phase::RestoreOnExit, _) => (Phase::UnhookOnExit, visible),
            _ => (Phase::Exit, visible),
        }
    }

    /// The program after a reply.
    pub open spec fn next(self, reply: Reply) -> Controller {
        let (phase, visible) = self.next_phase(reply);
        Controller { settings: self.settings, visible, phase }
    }

    /// The program after a reply to the call that it waits for.
    pub fn step(self, reply: Reply) -> (after: Controller)
        requires
            self.asks().fits(reply),
        ensures
            after == self.next(reply),
    {
        let settings: Settings = self.settings;
        let visible: bool = self.visible;
        let (phase, visible): (Phase, bool) = match (self.phase, reply) {
            (Phase::CheckShutdown, Reply::Flag(shutdown)) => if shutdown {
                (Phase::RestoreOnExit, visible)
            } else {
                (Phase::Wait, visible)
            },
            (Phase::Wait, _) => (Phase::Hotkeys, visible),
            (Phase::Hotkeys, Reply::Hotkey(event)) => match event {
                Some(event) => (Self::after_hotkey(settings, event), visible),
                None => (Phase::Menus, visible),
            },
            (Phase::HotkeyToggle(toggle), reply) => match toggle.step(visible, reply) {
                (Some(toggle), visible) => (Phase::HotkeyToggle(toggle), visible),
                // The hotkey wins over the edge trigger.
                (None, visible) => (Phase::HotkeyResetEdge, visible),
            },
            (Phase::HotkeyResetEdge, _) => (Phase::Hotkeys, visible),
            (Phase::HotkeyRegister(register), reply) => match register.step(visible, reply) {
                (Some(register), visible) => (Phase::HotkeyRegister(register), visible),
                (None, visible) => (Phase::Hotkeys, visible),
            },
            (Phase::Menus, Reply::Menu(hits)) => match hits {
                Some(hits) => match MenuPhase::start(hits) {
                    Some(menu) => (Phase::MenuAnswer(menu), visible),
                    None => (Phase::Menus, visible),
                },
                None => (Phase::EdgeEnabled, visible),
            },
            (Phase::MenuAnswer(menu), reply) => match menu.step(visible, reply) {
                (Some(menu), visible) => (Phase::MenuAnswer(menu), visible),
                (None, visible) => (Phase::Menus, visible),
            },
            (Phase::EdgeEnabled, Reply::Flag(enabled)) => if enabled {
                (Phase::EdgeTracked, visible)
            } else {
                (Phase::Messages, visible)
            },
            (Phase::EdgeTracked, Reply::Flag(valid)) => if valid {
                (Phase::EdgeLook(EdgePhase::Cursor), visible)
            } else {
                (Phase::Messages, visible)
            },
            (Phase::EdgeLook(edge), reply) => match edge.step(visible, reply) {
                EdgeStep::Next(edge) => (Phase::EdgeLook(edge), visible),
                EdgeStep::Over(Some(action)) => if edge_wants_toggle(action, visible) {
                    (Phase::EdgeToggle(TogglePhase::Valid), visible)
                } else {
                    (Phase::Messages, visible)
                },
                EdgeStep::Over(None) => (Phase::Messages, visible),
            },
            (Phase::EdgeToggle(toggle), reply) => match toggle.step(visible, reply) {
                (Some(toggle), visible) => (Phase::EdgeToggle(toggle), visible),
                (None, visible) => (Phase::Messages, visible),
            },
            (Phase::Messages, Reply::Message(message)) => match message {
                Some(message) => (Self::after_message(settings, visible, message), visible),
                None => (Phase::CheckShutdown, visible),
            },
            (Phase::Dispatch(_), _) => (Phase::Messages, visible),
            (Phase::FocusLost(lost), reply) => match lost.step(visible, reply) {
                (Some(lost), visible) => (Phase::FocusLost(lost), visible),
                (None, visible) => (Phase::FocusResetEdge, visible),
            },
            (Phase::FocusResetEdge, _) => (Phase::Messages, visible),
            (Phase::RestoreOnExit, _) => (Phase::UnhookOnExit, visible),
            _ => (Phase::Exit, visible),
        };
        Controller { settings, visible, phase }
    }

    /// Where a hotkey event leads.
    fn after_hotkey(settings: Settings, event: HotkeyEvent) -> (phase: Phase)
        ensures
            phase == Self::on_hotkey(settings, event),
    {
        if event.pressed {
            match event.id {
                id if id == settings.toggle_id => Phase::HotkeyToggle(TogglePhase::Valid),
                id if id == settings.track_id => Phase::HotkeyRegister(RegisterPhase::Restore),
                _ => Phase::Hotkeys,
            }
        } else {
            Phase::Hotkeys
        }
    }

    /// Where a message leads.
    fn after_message(settings: Settings, visible: bool, message: Message) -> (phase: Phase)
        ensures
            phase == Self::on_message(settings, visible, message),
    {
        match message_kind(message, settings.focus_changed) {
            MessageKind::Quit => Phase::RestoreOnExit,
            MessageKind::Pass => Phase::Messages,
            MessageKind::FocusLost => match FocusLostPhase::start(visible) {
                Some(lost) => Phase::FocusLost(lost),
                None => Phase::FocusResetEdge,
            },
            MessageKind::Dispatch => Phase::Dispatch(message),
        }
    }
}

} // verus!
