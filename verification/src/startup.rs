//! The way from the start of the program to its event loop.
use vstd::prelude::*;

use crate::config::MyConfig;
use crate::failure::{Failure, Stage};
use crate::hotkey::HotkeyChoice;
#[allow(unused_imports)]
use crate::hotkey::{chosen, stands_for, ChoiceModel};

verus! {

/// A call on the desktop, on the way to the event loop. `H` is a hotkey with
/// its choice, or what it stands for.
#[derive(Debug, PartialEq, Eq)]
pub enum StartRequest<H> {
    /// Find the configuration file.
    ConfigPath,
    /// Read the configuration file.
    LoadConfig,
    /// List the windows on the screen. Did the list come to its end?
    ListWindows,
    /// Create the tray icon.
    CreateTray,
    /// Does the program start with the session?
    AutolaunchEnabled,
    /// Tick or clear the menu item for the start with the session.
    MarkAutolaunch(bool),
    /// Is the edge trigger switched on?
    EdgeEnabled,
    /// Tick or clear the menu item for the edge trigger.
    MarkEdge(bool),
    /// Create the hotkey manager.
    CreateHotkeyManager,
    /// Register a hotkey.
    RegisterHotkey(H),
    /// Install the handler of the console's control signals.
    InstallConsoleHandler,
    /// Run the event loop, with the numbers of the two hotkeys.
    Run { toggle_id: u32, track_id: u32 },
    /// Give up.
    Fail(Failure),
}

/// What a call on the way to the event loop gave back.
#[derive(Debug, PartialEq, Eq)]
pub enum StartReply {
    /// The call was made. What it returned is of no consequence.
    Done,
    Flag(bool),
    /// Success, or why there was none.
    Outcome(Result<(), String>),
    /// The configuration, or why there is none.
    Config(Result<MyConfig, String>),
}

/// How far the way has come: the call that is waited for.
#[derive(Debug, PartialEq, Eq)]
pub enum StartPhase<H> {
    ConfigPath,
    LoadConfig,
    ListWindows { config: MyConfig },
    CreateTray { config: MyConfig },
    AutolaunchEnabled { config: MyConfig },
    MarkAutolaunch { config: MyConfig, enabled: bool },
    EdgeEnabled { config: MyConfig },
    MarkEdge { config: MyConfig, enabled: bool },
    CreateHotkeyManager { config: MyConfig },
    RegisterToggle { toggle: H, track: H },
    RegisterTrack { toggle_id: u32, track: H },
    InstallConsoleHandler { toggle_id: u32, track_id: u32 },
    Ready { toggle_id: u32, track_id: u32 },
    Failed(Failure),
}

impl View for StartRequest<HotkeyChoice> {
    type V = StartRequest<ChoiceModel>;

    open spec fn view(&self) -> StartRequest<ChoiceModel> {
        match *self {
            StartRequest::ConfigPath => StartRequest::ConfigPath,
            StartRequest::LoadConfig => StartRequest::LoadConfig,
            StartRequest::ListWindows => StartRequest::ListWindows,
            StartRequest::CreateTray => StartRequest::CreateTray,
            StartRequest::AutolaunchEnabled => StartRequest::AutolaunchEnabled,
            StartRequest::MarkAutolaunch(enabled) => StartRequest::MarkAutolaunch(enabled),
            StartRequest::EdgeEnabled => StartRequest::EdgeEnabled,
            StartRequest::MarkEdge(enabled) => StartRequest::MarkEdge(enabled),
            StartRequest::CreateHotkeyManager => StartRequest::CreateHotkeyManager,
            StartRequest::RegisterHotkey(choice) => StartRequest::RegisterHotkey(choice@),
            StartRequest::InstallConsoleHandler => StartRequest::InstallConsoleHandler,
            StartRequest::Run { toggle_id, track_id } => StartRequest::Run { toggle_id, track_id },
            StartRequest::Fail(failure) => StartRequest::Fail(failure),
        }
    }
}

impl View for StartPhase<HotkeyChoice> {
    type V = StartPhase<ChoiceModel>;

    open spec fn view(&self) -> StartPhase<ChoiceModel> {
        match *self {
            StartPhase::ConfigPath => StartPhase::ConfigPath,
            StartPhase::LoadConfig => StartPhase::LoadConfig,
            StartPhase::ListWindows { config } => StartPhase::ListWindows { config },
            StartPhase::CreateTray { config } => StartPhase::CreateTray { config },
            StartPhase::AutolaunchEnabled { config } => StartPhase::AutolaunchEnabled { config },
            StartPhase::MarkAutolaunch { config, enabled } => StartPhase::MarkAutolaunch {
                config,
                enabled,
            },
            StartPhase::EdgeEnabled { config } => StartPhase::EdgeEnabled { config },
            StartPhase::MarkEdge { config, enabled } => StartPhase::MarkEdge { config, enabled },
            StartPhase::CreateHotkeyManager { config } => StartPhase::CreateHotkeyManager {
                config,
            },
            StartPhase::RegisterToggle { toggle, track } => StartPhase::RegisterToggle {
                toggle: toggle@,
                track: track@,
            },
            StartPhase::RegisterTrack { toggle_id, track } => StartPhase::RegisterTrack {
                toggle_id,
                track: track@,
            },
            StartPhase::InstallConsoleHandler { toggle_id, track_id } => {
                StartPhase::InstallConsoleHandler { toggle_id, track_id }
            },
            StartPhase::Ready { toggle_id, track_id } => StartPhase::Ready { toggle_id, track_id },
            StartPhase::Failed(failure) => StartPhase::Failed(failure),
        }
    }
}

impl StartRequest<ChoiceModel> {
    /// Is the reply of the kind that the call gives back? The last two requests
    /// are no calls: nothing comes back.
    pub open spec fn fits(self, reply: StartReply) -> bool {
        match self {
            StartRequest::LoadConfig => reply is Config,
            StartRequest::ListWindows
            | StartRequest::AutolaunchEnabled
            | StartRequest::EdgeEnabled => reply is Flag,
            StartRequest::ConfigPath
            | StartRequest::CreateTray
            | StartRequest::CreateHotkeyManager
            | StartRequest::RegisterHotkey(_)
            | StartRequest::InstallConsoleHandler => reply is Outcome,
            StartRequest::Run { .. } | StartRequest::Fail(_) => false,
            _ => reply is Done,
        }
    }
}

impl StartRequest<HotkeyChoice> {
    /// Is the reply of the kind that the call gives back?
    pub fn accepts(&self, reply: &StartReply) -> (fits: bool)
        ensures
            fits == self@.fits(*reply),
    {
        match self {
            StartRequest::LoadConfig => matches!(reply, StartReply::Config(_)),
            StartRequest::ListWindows
            | StartRequest::AutolaunchEnabled
            | StartRequest::EdgeEnabled => matches!(reply, StartReply::Flag(_)),
            StartRequest::ConfigPath
            | StartRequest::CreateTray
            | StartRequest::CreateHotkeyManager
            | StartRequest::RegisterHotkey(_)
            | StartRequest::InstallConsoleHandler => matches!(reply, StartReply::Outcome(_)),
            StartRequest::Run { .. } | StartRequest::Fail(_) => false,
            _ => matches!(reply, StartReply::Done),
        }
    }
}

impl StartPhase<ChoiceModel> {
    /// The call that is waited for.
    pub open spec fn asks(self) -> StartRequest<ChoiceModel> {
        match self {
            StartPhase::ConfigPath => StartRequest::ConfigPath,
            StartPhase::LoadConfig => StartRequest::LoadConfig,
            StartPhase::ListWindows { .. } => StartRequest::ListWindows,
            StartPhase::CreateTray { .. } => StartRequest::CreateTray,
            StartPhase::AutolaunchEnabled { .. } => StartRequest::AutolaunchEnabled,
            StartPhase::MarkAutolaunch { enabled, .. } => StartRequest::MarkAutolaunch(enabled),
            StartPhase::EdgeEnabled { .. } => StartRequest::EdgeEnabled,
            StartPhase::MarkEdge { enabled, .. } => StartRequest::MarkEdge(enabled),
            StartPhase::CreateHotkeyManager { .. } => StartRequest::CreateHotkeyManager,
            StartPhase::RegisterToggle { toggle, .. } => StartRequest::RegisterHotkey(toggle),
            StartPhase::RegisterTrack { track, .. } => StartRequest::RegisterHotkey(track),
            StartPhase::InstallConsoleHandler { .. } => StartRequest::InstallConsoleHandler,
            StartPhase::Ready { toggle_id, track_id } => StartRequest::Run { toggle_id, track_id },
            StartPhase::Failed(failure) => StartRequest::Fail(failure),
        }
    }

    /// The stage at which a call that failed stops the program.
    pub open spec fn stage(self) -> Stage {
        match self {
            StartPhase::LoadConfig => Stage::ConfigLoad,
            StartPhase::CreateTray { .. } => Stage::Tray,
            StartPhase::CreateHotkeyManager { .. } => Stage::HotkeyManager,
            StartPhase::RegisterToggle { .. } => Stage::ToggleHotkey,
            StartPhase::RegisterTrack { .. } => Stage::TrackHotkey,
            StartPhase::InstallConsoleHandler { .. } => Stage::ConsoleHandler,
            _ => Stage::ConfigPath,
        }
    }

    /// Where the way goes on a reply.
    pub open spec fn next(self, reply: StartReply) -> StartPhase<ChoiceModel> {
        match (self, reply) {
            (_, StartReply::Outcome(Err(cause))) | (_, StartReply::Config(Err(cause))) => {
                StartPhase::Failed(Failure { stage: self.stage(), cause })
            },
            (StartPhase::ConfigPath, _) => StartPhase::LoadConfig,
            (StartPhase::LoadConfig, StartReply::Config(Ok(config))) => StartPhase::ListWindows {
                config,
            },
            (StartPhase::ListWindows { config }, _) => StartPhase::CreateTray { config },
            (StartPhase::CreateTray { config }, _) => StartPhase::AutolaunchEnabled { config },
            (StartPhase::AutolaunchEnabled { config }, StartReply::Flag(enabled)) => {
                StartPhase::MarkAutolaunch { config, enabled }
            },
            (StartPhase::MarkAutolaunch { config, .. }, _) => StartPhase::EdgeEnabled { config },
            (StartPhase::EdgeEnabled { config }, StartReply::Flag(enabled)) => {
                StartPhase::MarkEdge { config, enabled }
            },
            (StartPhase::MarkEdge { config, .. }, _) => StartPhase::CreateHotkeyManager { config },
            (StartPhase::CreateHotkeyManager { config }, _) => StartPhase::RegisterToggle {
                toggle: chosen(config.key_toggle@, "F8"@),
                track: chosen(config.key_track@, "Ctrl+Alt+Q"@),
            },
            (StartPhase::RegisterToggle { toggle, track }, _) => StartPhase::RegisterTrack {
                toggle_id: toggle.hotkey.2,
                track,
            },
            (StartPhase::RegisterTrack { toggle_id, track }, _) => {
                StartPhase::InstallConsoleHandler { toggle_id, track_id: track.hotkey.2 }
            },
            (StartPhase::InstallConsoleHandler { toggle_id, track_id }, _) => StartPhase::Ready {
                toggle_id,
                track_id,
            },
            _ => self,
        }
    }
}

impl StartPhase<HotkeyChoice> {
    /// The first call.
    pub fn new() -> (phase: StartPhase<HotkeyChoice>)
        ensures
            phase@ == StartPhase::<ChoiceModel>::ConfigPath,
    {
        StartPhase::ConfigPath
    }

    /// The call that is waited for.
    pub fn request(&self) -> (request: StartRequest<HotkeyChoice>)
        ensures
            request@ == self@.asks(),
    {
        match self {
            StartPhase::ConfigPath => StartRequest::ConfigPath,
            StartPhase::LoadConfig => StartRequest::LoadConfig,
            StartPhase::ListWindows { .. } => StartRequest::ListWindows,
            StartPhase::CreateTray { .. } => StartRequest::CreateTray,
            StartPhase::AutolaunchEnabled { .. } => StartRequest::AutolaunchEnabled,
            StartPhase::MarkAutolaunch { enabled, .. } => StartRequest::MarkAutolaunch(*enabled),
            StartPhase::EdgeEnabled { .. } => StartRequest::EdgeEnabled,
            StartPhase::MarkEdge { enabled, .. } => StartRequest::MarkEdge(*enabled),
            StartPhase::CreateHotkeyManager { .. } => StartRequest::CreateHotkeyManager,
            StartPhase::RegisterToggle { toggle, .. } => StartRequest::RegisterHotkey(
                toggle.clone(),
            ),
            StartPhase::RegisterTrack { track, .. } => StartRequest::RegisterHotkey(track.clone()),
            StartPhase::InstallConsoleHandler { .. } => StartRequest::InstallConsoleHandler,
            StartPhase::Ready { toggle_id, track_id } => StartRequest::Run {
                toggle_id: *toggle_id,
                track_id: *track_id,
            },
            StartPhase::Failed(failure) => StartRequest::Fail(
                Failure { stage: failure.stage, cause: failure.cause.clone() },
            ),
        }
    }

    /// Where the way goes on a reply to the call that is waited for. The hotkeys
    /// that are registered are what the configuration says, or else the defaults.
    pub fn step(self, reply: StartReply) -> (after: StartPhase<HotkeyChoice>)
        requires
            self@.asks().fits(reply),
        ensures
            after@ == self@.next(reply),
            match (self, after) {
                (
                    StartPhase::CreateHotkeyManager { config },
                    StartPhase::RegisterToggle { toggle, track },
                ) => {
                    &&& stands_for(toggle, config.key_toggle@, "F8"@)
                    &&& stands_for(track, config.key_track@, "Ctrl+Alt+Q"@)
                },
                _ => true,
            },
    {
        match (self, reply) {
            (StartPhase::ConfigPath, StartReply::Outcome(found)) => match found {
                Ok(_) => StartPhase::LoadConfig,
                Err(cause) => StartPhase::Failed(Failure { stage: Stage::ConfigPath, cause }),
            },
            (StartPhase::LoadConfig, StartReply::Config(loaded)) => match loaded {
                Ok(config) => StartPhase::ListWindows { config },
                Err(cause) => StartPhase::Failed(Failure { stage: Stage::ConfigLoad, cause }),
            },
            (StartPhase::ListWindows { config }, _) => StartPhase::CreateTray { config },
            (StartPhase::CreateTray { config }, StartReply::Outcome(created)) => match created {
                Ok(_) => StartPhase::AutolaunchEnabled { config },
                Err(cause) => StartPhase::Failed(Failure { stage: Stage::Tray, cause }),
            },
            (StartPhase::AutolaunchEnabled { config }, StartReply::Flag(enabled)) => {
                StartPhase::MarkAutolaunch { config, enabled }
            },
            (StartPhase::MarkAutolaunch { config, .. }, _) => StartPhase::EdgeEnabled { config },
            (StartPhase::EdgeEnabled { config }, StartReply::Flag(enabled)) => {
                StartPhase::MarkEdge { config, enabled }
            },
            (StartPhase::MarkEdge { config, .. }, _) => StartPhase::CreateHotkeyManager { config },
            (StartPhase::CreateHotkeyManager { config }, StartReply::Outcome(created)) => {
                match created {
                    Ok(_) => {
                        let (toggle, track): (HotkeyChoice, HotkeyChoice) = config.hotkeys();
                        StartPhase::RegisterToggle { toggle, track }
                    },
                    Err(cause) => StartPhase::Failed(Failure { stage: Stage::HotkeyManager, cause }),
                }
            },
            (StartPhase::RegisterToggle { toggle, track }, StartReply::Outcome(registered)) => {
                match registered {
                    Ok(_) => StartPhase::RegisterTrack { toggle_id: toggle.hotkey.id, track },
                    Err(cause) => StartPhase::Failed(Failure { stage: Stage::ToggleHotkey, cause }),
                }
            },
            (StartPhase::RegisterTrack { toggle_id, track }, StartReply::Outcome(registered)) => {
                match registered {
                    Ok(_) => StartPhase::InstallConsoleHandler {
                        toggle_id,
                        track_id: track.hotkey.id,
                    },
                    Err(cause) => StartPhase::Failed(Failure { stage: Stage::TrackHotkey, cause }),
                }
            },
            (
                StartPhase::InstallConsoleHandler { toggle_id, track_id },
                StartReply::Outcome(installed),
            ) => match installed {
                Ok(_) => StartPhase::Ready { toggle_id, track_id },
                Err(cause) => StartPhase::Failed(Failure { stage: Stage::ConsoleHandler, cause }),
            },
            (phase, _) => phase,
        }
    }
}

} // verus!
