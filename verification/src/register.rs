//! Making the window that has the focus the tracked one.
use vstd::prelude::*;

use crate::protocol::{Reply, Request};
use crate::types::Window;

verus! {

/// How far the registration has come: the call that it waits for, with what
/// the calls before it gave.
#[derive(Debug, PartialEq, Eq)]
pub enum RegisterPhase {
    Restore,
    Foreground,
    ClearStatus,
    Title { window: Window },
    Original { window: Window, title: String },
    Track { window: Window, title: String },
    Bounds { window: Window, title: String },
    Target { window: Window, title: String },
    Hook { window: Window, title: String },
    Status { title: String },
    Notify { title: String },
}

impl RegisterPhase {
    /// The call that is waited for.
    pub open spec fn asks(self) -> Request {
        match self {
            RegisterPhase::Restore => Request::RestoreOriginal,
            RegisterPhase::Foreground => Request::Foreground,
            RegisterPhase::ClearStatus => Request::SetStatus(None),
            RegisterPhase::Title { window } => Request::WindowTitle(window),
            RegisterPhase::Original { window, .. } => Request::SaveOriginal(window),
            RegisterPhase::Track { window, .. } => Request::SetTracked(window),
            RegisterPhase::Bounds { window, .. } => Request::SaveBounds(window),
            RegisterPhase::Target { window, .. } => Request::SetFocusTarget(window),
            RegisterPhase::Hook { window, .. } => Request::InstallFocusHook(window),
            RegisterPhase::Status { title } => Request::SetStatus(Some(title)),
            RegisterPhase::Notify { title } => Request::NotifyTracked(title),
        }
    }

    /// The call that is waited for.
    pub fn request(&self) -> (request: Request)
        ensures
            request == self.asks(),
    {
        match self {
            RegisterPhase::Restore => Request::RestoreOriginal,
            RegisterPhase::Foreground => Request::Foreground,
            RegisterPhase::ClearStatus => Request::SetStatus(None),
            RegisterPhase::Title { window } => Request::WindowTitle(*window),
            RegisterPhase::Original { window, .. } => Request::SaveOriginal(*window),
            RegisterPhase::Track { window, .. } => Request::SetTracked(*window),
            RegisterPhase::Bounds { window, .. } => Request::SaveBounds(*window),
            RegisterPhase::Target { window, .. } => Request::SetFocusTarget(*window),
            RegisterPhase::Hook { window, .. } => Request::InstallFocusHook(*window),
            RegisterPhase::Status { title } => Request::SetStatus(Some(title.clone())),
            RegisterPhase::Notify { title } => Request::NotifyTracked(title.clone()),
        }
    }

    /// Where it goes on a reply, none where it is over, and whether the window
    /// counts as visible then.
    pub open spec fn next(self, visible: bool, reply: Reply) -> (Option<RegisterPhase>, bool) {
        match (self, reply) {
            (RegisterPhase::Restore, _) => (Some(RegisterPhase::Foreground), visible),
            (RegisterPhase::Foreground, Reply::Window(window)) => if window == Window::none() {
                (Some(RegisterPhase::ClearStatus), visible)
            } else {
                (Some(RegisterPhase::Title { window }), visible)
            },
            (RegisterPhase::Title { window }, Reply::Title(title)) => (
                Some(RegisterPhase::Original { window, title }),
                visible,
            ),
            (RegisterPhase::Original { window, title }, _) => (
                Some(RegisterPhase::Track { window, title }),
                visible,
            ),
            (RegisterPhase::Track { window, title }, _) => (
                Some(RegisterPhase::Bounds { window, title }),
                visible,
            ),
            (RegisterPhase::Bounds { window, title }, _) => (
                Some(RegisterPhase::Target { window, title }),
                visible,
            ),
            (RegisterPhase::Target { window, title }, _) => (
                Some(RegisterPhase::Hook { window, title }),
                visible,
            ),
            (RegisterPhase::Hook { title, .. }, _) => (Some(RegisterPhase::Status { title }), true),
            (RegisterPhase::Status { title }, _) => (Some(RegisterPhase::Notify { title }), visible),
            _ => (None, visible),
        }
    }

    /// Where it goes on a reply, none where it is over, and whether the window
    /// counts as visible then.
    pub fn step(self, visible: bool, reply: Reply) -> (after: (Option<RegisterPhase>, bool))
        requires
            self.asks().fits(reply),
        ensures
            after == self.next(visible, reply),
    {
        match (self, reply) {
            (RegisterPhase::Restore, _) => (Some(RegisterPhase::Foreground), visible),
            (RegisterPhase::Foreground, Reply::Window(window)) => if window == Window::none() {
                (Some(RegisterPhase::ClearStatus), visible)
            } else {
                (Some(RegisterPhase::Title { window }), visible)
            },
            (RegisterPhase::Title { window }, Reply::Title(title)) => (
                Some(RegisterPhase::Original { window, title }),
                visible,
            ),
            (RegisterPhase::Original { window, title }, _) => (
                Some(RegisterPhase::Track { window, title }),
                visible,
            ),
            (RegisterPhase::Track { window, title }, _) => (
                Some(RegisterPhase::Bounds { window, title }),
                visible,
            ),
            (RegisterPhase::Bounds { window, title }, _) => (
                Some(RegisterPhase::Target { window, title }),
                visible,
            ),
            (RegisterPhase::Target { window, title }, _) => (
                Some(RegisterPhase::Hook { window, title }),
                visible,
            ),
            (RegisterPhase::Hook { title, .. }, _) => (Some(RegisterPhase::Status { title }), true),
            (RegisterPhase::Status { title }, _) => (Some(RegisterPhase::Notify { title }), visible),
            _ => (None, visible),
        }
    }
}

} // verus!
