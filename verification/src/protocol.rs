//! The calls that the program makes on the desktop around it, and what they
//! give back.
use vstd::prelude::*;

use crate::open_config::OpenFailure;
use crate::types::{
    Direction, EdgeAction, HotkeyEvent, MenuHits, Message, MonitorInfo, Point, Rect, Slide, Window,
};

verus! {

/// A call on the desktop. The program waits for the `Reply` before it goes on.
#[derive(Debug, PartialEq, Eq)]
pub enum Request {
    /// Has a shutdown been asked for?
    ShutdownRequested,
    /// Ask for a shutdown.
    RequestShutdown,
    /// Sleep until input arrives or the time is over.
    WaitForInput { millis: u32 },
    /// Take the next hotkey event, without waiting.
    NextHotkey,
    /// Take the next tray menu event, without waiting.
    NextMenu,
    /// Take the next message of the thread's queue, without waiting.
    NextMessage,
    /// Translate and dispatch the message that was taken last.
    Dispatch(Message),
    /// Is the edge trigger switched on?
    EdgeEnabled,
    /// Switch the edge trigger over.
    ToggleEdge,
    /// Put the edge trigger back into its initial state.
    ResetEdge,
    /// Where is the cursor?
    CursorPosition,
    /// The work area of the monitor nearest to a point.
    PointWorkArea(Point),
    /// The work area of a window's monitor, or else of the primary one.
    WindowWorkArea(Window),
    /// Let the edge trigger see the cursor.
    EdgeTransition {
        direction: Direction,
        visible: bool,
        cursor: Point,
        work_area: Rect,
        stored: Option<Rect>,
    },
    /// Is there a tracked window that still exists?
    TrackedValid,
    /// The tracked window.
    TrackedWindow,
    /// Make a window the tracked one.
    SetTracked(Window),
    /// Read a window's bounds and store them.
    SaveBounds(Window),
    /// Read a window's bounds and store them; there is no going on without.
    RequireBounds(Window),
    /// The bounds that were stored last.
    LoadBounds,
    /// The direction in which a window at these bounds slides.
    SlideDirection { bounds: Rect, work_area: Rect },
    /// Remember a window's state, to be restored later.
    SaveOriginal(Window),
    /// Restore the window whose state was remembered, if there is one.
    RestoreOriginal,
    /// The title of a window.
    WindowTitle(Window),
    /// The window that had the focus before the tracked one took it.
    PreviousFocus,
    /// Remember the window that has the focus.
    SavePreviousFocus(Window),
    /// The window whose loss of focus is watched.
    FocusTarget,
    /// Set the window whose loss of focus is watched.
    SetFocusTarget(Window),
    /// Start to watch for the loss of focus.
    InstallFocusHook(Window),
    /// Stop to watch for the loss of focus.
    UninstallFocusHook,
    /// The window that has the focus.
    Foreground,
    /// Give a window the focus.
    SetForeground(Window),
    /// Slide a window in or out, to the end of the animation.
    Animate { slide: Slide, show: bool },
    /// Show the title of the tracked window in the tray, or that there is none.
    SetStatus(Option<String>),
    /// Tell the user that a window is now tracked.
    NotifyTracked(String),
    /// Switch the start with the session over.
    ToggleAutolaunch,
    /// Tick or clear the menu item for the start with the session.
    MarkAutolaunch(bool),
    /// Tick or clear the menu item for the edge trigger.
    MarkEdge(bool),
    /// Where is the configuration file?
    ConfigPath,
    /// Start the command that opens the configuration file: `open_command` of
    /// its path. Its end is not waited for.
    LaunchConfig(String),
    /// Tell why the configuration file could not be opened.
    ReportOpenFailure(OpenFailure),
    /// The program is over.
    Exit,
}

/// What a call on the desktop gave back.
#[derive(Debug, PartialEq, Eq)]
pub enum Reply {
    /// The call was made. What it returned is of no consequence.
    Done,
    Flag(bool),
    Hotkey(Option<HotkeyEvent>),
    Menu(Option<MenuHits>),
    Message(Option<Message>),
    Cursor(Option<Point>),
    Monitor(MonitorInfo),
    Bounds(Option<Rect>),
    Rect(Rect),
    Direction(Direction),
    Edge(Option<EdgeAction>),
    Window(Window),
    Title(String),
    /// The new state of a switch, or none where it could not be switched.
    Switched(Option<bool>),
    /// A path, or none where it is not Unicode, or why there is no path.
    Path(Result<Option<String>, String>),
    /// Success, or why there was none.
    Outcome(Result<(), String>),
}

impl Request {
    /// Is the reply of the kind that the call gives back? `Exit` is not a call:
    /// nothing comes back.
    pub open spec fn fits(self, reply: Reply) -> bool {
        match self {
            Request::ShutdownRequested | Request::EdgeEnabled | Request::TrackedValid => reply is Flag,
            Request::NextHotkey => reply is Hotkey,
            Request::NextMenu => reply is Menu,
            Request::NextMessage => reply is Message,
            Request::CursorPosition => reply is Cursor,
            Request::PointWorkArea(_) | Request::WindowWorkArea(_) => reply is Monitor,
            Request::SaveBounds(_) | Request::LoadBounds => reply is Bounds,
            Request::RequireBounds(_) => reply is Rect,
            Request::SlideDirection { .. } => reply is Direction,
            Request::EdgeTransition { .. } => reply is Edge,
            Request::TrackedWindow
            | Request::PreviousFocus
            | Request::FocusTarget
            | Request::Foreground => reply is Window,
            Request::WindowTitle(_) => reply is Title,
            Request::ToggleEdge | Request::ToggleAutolaunch => reply is Switched,
            Request::ConfigPath => reply is Path,
            Request::LaunchConfig(_) => reply is Outcome,
            Request::Exit => false,
            _ => reply is Done,
        }
    }

    /// Is the reply of the kind that the call gives back?
    pub fn accepts(&self, reply: &Reply) -> (fits: bool)
        ensures
            fits == self.fits(*reply),
    {
        match self {
            Request::ShutdownRequested | Request::EdgeEnabled | Request::TrackedValid => matches!(
                reply,
                Reply::Flag(_)
            ),
            Request::NextHotkey => matches!(reply, Reply::Hotkey(_)),
            Request::NextMenu => matches!(reply, Reply::Menu(_)),
            Request::NextMessage => matches!(reply, Reply::Message(_)),
            Request::CursorPosition => matches!(reply, Reply::Cursor(_)),
            Request::PointWorkArea(_) | Request::WindowWorkArea(_) => matches!(
                reply,
                Reply::Monitor(_)
            ),
            Request::SaveBounds(_) | Request::LoadBounds => matches!(reply, Reply::Bounds(_)),
            Request::RequireBounds(_) => matches!(reply, Reply::Rect(_)),
            Request::SlideDirection { .. } => matches!(reply, Reply::Direction(_)),
            Request::EdgeTransition { .. } => matches!(reply, Reply::Edge(_)),
            Request::TrackedWindow
            | Request::PreviousFocus
            | Request::FocusTarget
            | Request::Foreground => matches!(reply, Reply::Window(_)),
            Request::WindowTitle(_) => matches!(reply, Reply::Title(_)),
            Request::ToggleEdge | Request::ToggleAutolaunch => matches!(reply, Reply::Switched(_)),
            Request::ConfigPath => matches!(reply, Reply::Path(_)),
            Request::LaunchConfig(_) => matches!(reply, Reply::Outcome(_)),
            Request::Exit => false,
            _ => matches!(reply, Reply::Done),
        }
    }
}

} // verus!
