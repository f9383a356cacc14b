//! The tray menu: leaving, letting the tracked window go, the two switches and
//! the configuration file.
use vstd::prelude::*;

use crate::open_config::{open_config_file, path_to_open, OpenFailure};
#[allow(unused_imports)]
use crate::open_config::opened;
use crate::protocol::{Reply, Request};
use crate::types::MenuHits;

verus! {

/// How far the answer to a menu event has come: the call that it waits for.
#[derive(Debug, PartialEq, Eq)]
pub enum MenuPhase {
    Shutdown,
    UntrackRestore,
    UntrackUnhook,
    UntrackResetEdge,
    UntrackStatus,
    AutolaunchSwitch,
    AutolaunchMark { enabled: bool },
    ConfigPath,
    ConfigLaunch { path: String },
    ConfigReport { failure: OpenFailure },
    EdgeSwitch,
    EdgeMark { enabled: bool },
    EdgeReset,
}

impl MenuPhase {
    /// The first call for a menu event. The items are looked at in the order in
    /// which `MenuHits` lists them, and the first that was hit is answered;
    /// where none was, there is nothing to do.
    pub open spec fn first(hits: MenuHits) -> Option<MenuPhase> {
        if hits.exit {
            Some(MenuPhase::Shutdown)
        } else if hits.untrack {
            Some(MenuPhase::UntrackRestore)
        } else if hits.autolaunch {
            Some(MenuPhase::AutolaunchSwitch)
        } else if hits.open_config {
            Some(MenuPhase::ConfigPath)
        } else if hits.edge_trigger {
            Some(MenuPhase::EdgeSwitch)
        } else {
            None
        }
    }

    /// The first call for a menu event.
    pub fn start(hits: MenuHits) -> (phase: Option<MenuPhase>)
        ensures
            phase == MenuPhase::first(hits),
    {
        if hits.exit {
            Some(MenuPhase::Shutdown)
        } else if hits.untrack {
            Some(MenuPhase::UntrackRestore)
        } else if hits.autolaunch {
            Some(MenuPhase::AutolaunchSwitch)
        } else if hits.open_config {
            Some(MenuPhase::ConfigPath)
        } else if hits.edge_trigger {
            Some(MenuPhase::EdgeSwitch)
        } else {
            None
        }
    }

    /// The call that is waited for.
    pub open spec fn asks(self) -> Request {
        match self {
            MenuPhase::Shutdown => Request::RequestShutdown,
            MenuPhase::UntrackRestore => Request::RestoreOriginal,
            MenuPhase::UntrackUnhook => Request::UninstallFocusHook,
            MenuPhase::UntrackResetEdge => Request::ResetEdge,
            MenuPhase::UntrackStatus => Request::SetStatus(None),
            MenuPhase::AutolaunchSwitch => Request::ToggleAutolaunch,
            MenuPhase::AutolaunchMark { enabled } => Request::MarkAutolaunch(enabled),
            MenuPhase::ConfigPath => Request::ConfigPath,
            MenuPhase::ConfigLaunch { path } => Request::LaunchConfig(path),
            MenuPhase::ConfigReport { failure } => Request::ReportOpenFailure(failure),
            MenuPhase::EdgeSwitch => Request::ToggleEdge,
            MenuPhase::EdgeMark { enabled } => Request::MarkEdge(enabled),
            MenuPhase::EdgeReset => Request::ResetEdge,
        }
    }

    /// The call that is waited for.
    pub fn request(&self) -> (request: Request)
        ensures
            request == self.asks(),
    {
        match self {
            MenuPhase::Shutdown => Request::RequestShutdown,
            MenuPhase::UntrackRestore => Request::RestoreOriginal,
            MenuPhase::UntrackUnhook => Request::UninstallFocusHook,
            MenuPhase::UntrackResetEdge => Request::ResetEdge,
            MenuPhase::UntrackStatus => Request::SetStatus(None),
            MenuPhase::AutolaunchSwitch => Request::ToggleAutolaunch,
            MenuPhase::AutolaunchMark { enabled } => Request::MarkAutolaunch(*enabled),
            MenuPhase::ConfigPath => Request::ConfigPath,
            MenuPhase::ConfigLaunch { path } => Request::LaunchConfig(path.clone()),
            MenuPhase::ConfigReport { failure } => Request::ReportOpenFailure(failure.clone()),
            MenuPhase::EdgeSwitch => Request::ToggleEdge,
            MenuPhase::EdgeMark { enabled } => Request::MarkEdge(*enabled),
            MenuPhase::EdgeReset => Request::ResetEdge,
        }
    }

    /// The end of the opening of the configuration file: a failure is told.
    pub open spec fn report(outcome: Result<(), OpenFailure>) -> Option<MenuPhase> {
        match outcome {
            Ok(_) => None,
            Err(failure) => Some(MenuPhase::ConfigReport { failure }),
        }
    }

    /// Where it goes on a reply, none where it is over, and whether the window
    /// counts as visible then.
    pub open spec fn next(self, visible: bool, reply: Reply) -> (Option<MenuPhase>, bool) {
        match (self, reply) {
            (MenuPhase::UntrackRestore, _) => (Some(MenuPhase::UntrackUnhook), visible),
            (MenuPhase::UntrackUnhook, _) => (Some(MenuPhase::UntrackResetEdge), false),
            (MenuPhase::UntrackResetEdge, _) => (Some(MenuPhase::UntrackStatus), visible),
            (MenuPhase::AutolaunchSwitch, Reply::Switched(Some(enabled))) => (
                Some(MenuPhase::AutolaunchMark { enabled }),
                visible,
            ),
            (MenuPhase::ConfigPath, Reply::Path(found)) => match found {
                Ok(Some(path)) => (Some(MenuPhase::ConfigLaunch { path }), visible),
                _ => (Self::report(opened(found, Ok(()))), visible),
            },
            (MenuPhase::ConfigLaunch { path }, Reply::Outcome(started)) => (
                Self::report(opened(Ok(Some(path)), started)),
                visible,
            ),
            (MenuPhase::EdgeSwitch, Reply::Switched(Some(enabled))) => (
                Some(MenuPhase::EdgeMark { enabled }),
                visible,
            ),
            (MenuPhase::EdgeMark { .. }, _) => (Some(MenuPhase::EdgeReset), visible),
            _ => (None, visible),
        }
    }

    /// Where it goes on a reply, none where it is over, and whether the window
    /// counts as visible then.
    pub fn step(self, visible: bool, reply: Reply) -> (after: (Option<MenuPhase>, bool))
        requires
            self.asks().fits(reply),
        ensures
            after == self.next(visible, reply),
    {
        match (self, reply) {
            (MenuPhase::UntrackRestore, _) => (Some(MenuPhase::UntrackUnhook), visible),
            (MenuPhase::UntrackUnhook, _) => (Some(MenuPhase::UntrackResetEdge), false),
            (MenuPhase::UntrackResetEdge, _) => (Some(MenuPhase::UntrackStatus), visible),
            (MenuPhase::AutolaunchSwitch, Reply::Switched(Some(enabled))) => (
                Some(MenuPhase::AutolaunchMark { enabled }),
                visible,
            ),
            (MenuPhase::ConfigPath, Reply::Path(found)) => match path_to_open(found) {
                Ok(path) => (Some(MenuPhase::ConfigLaunch { path }), visible),
                Err(failure) => (Some(MenuPhase::ConfigReport { failure }), visible),
            },
            (MenuPhase::ConfigLaunch { path }, Reply::Outcome(started)) => {
                match open_config_file(Ok(Some(path)), started) {
                    Ok(_) => (None, visible),
                    Err(failure) => (Some(MenuPhase::ConfigReport { failure }), visible),
                }
            },
            (MenuPhase::EdgeSwitch, Reply::Switched(Some(enabled))) => (
                Some(MenuPhase::EdgeMark { enabled }),
                visible,
            ),
            (MenuPhase::EdgeMark { .. }, _) => (Some(MenuPhase::EdgeReset), visible),
            _ => (None, visible),
        }
    }
}

} // verus!
