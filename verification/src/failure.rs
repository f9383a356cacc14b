//! What can stop the program on the way to its event loop, and how it is told.
use vstd::prelude::*;

verus! {

/// The call that failed.
#[derive(Clone, Copy, Debug, PartialEq, Eq, Structural)]
pub enum Stage {
    /// Finding the configuration file.
    ConfigPath,
    /// Reading the configuration file.
    ConfigLoad,
    /// Creating the tray icon.
    Tray,
    /// Creating the hotkey manager.
    HotkeyManager,
    /// Registering the toggle hotkey.
    ToggleHotkey,
    /// Registering the track hotkey.
    TrackHotkey,
    /// Installing the console handler.
    ConsoleHandler,
}

/// A call that failed, and why.
#[derive(Debug, PartialEq, Eq)]
pub struct Failure {
    pub stage: Stage,
    pub cause: String,
}

/// What stands before the cause in a message.
pub open spec fn prefix_of(stage: Stage) -> Seq<char> {
    match stage {
        Stage::ConfigPath | Stage::ConfigLoad => ""@,
        Stage::Tray => "TrayState: "@,
        Stage::HotkeyManager => "GlobalHotKeyManager: "@,
        Stage::ToggleHotkey => "Toggle hotkey register: "@,
        Stage::TrackHotkey => "Track hotkey register: "@,
        Stage::ConsoleHandler => "SetConsoleCtrlHandler: "@,
    }
}

impl Failure {
    /// The message for the user: what failed, and why.
    pub fn message(&self) -> (message: String)
        ensures
            message@ == prefix_of(self.stage) + self.cause@,
    {
        let prefix: &str = match self.stage {
            Stage::ConfigPath | Stage::ConfigLoad => "",
            Stage::Tray => "TrayState: ",
            Stage::HotkeyManager => "GlobalHotKeyManager: ",
            Stage::ToggleHotkey => "Toggle hotkey register: ",
            Stage::TrackHotkey => "Track hotkey register: ",
            Stage::ConsoleHandler => "SetConsoleCtrlHandler: ",
        };
        prefix.to_owned().concat(self.cause.as_str())
    }
}

} // verus!
