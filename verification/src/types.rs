//! Plain values that the program's decisions are made on.
use vstd::prelude::*;

verus! {

/// A top-level window, known by the value of its handle.
#[derive(Clone, Copy, Debug, PartialEq, Eq, Structural)]
pub struct Window {
    pub raw: isize,
}

impl Window {
    /// The null handle: no window.
    pub open spec fn spec_none() -> Window {
        Window { raw: 0 }
    }

    /// The null handle: no window.
    #[verifier::when_used_as_spec(spec_none)]
    pub fn none() -> (window: Window)
        ensures
            window == Window::spec_none(),
    {
        Window { raw: 0 }
    }
}

/// A point of the virtual screen.
#[derive(Clone, Copy, Debug, PartialEq, Eq, Structural)]
pub struct Point {
    pub x: i32,
    pub y: i32,
}

/// A rectangle of the virtual screen.
#[derive(Clone, Copy, Debug, PartialEq, Eq, Structural)]
pub struct Rect {
    pub left: i32,
    pub top: i32,
    pub right: i32,
    pub bottom: i32,
}

/// The side of the work area that a window slides out of.
#[derive(Clone, Copy, Debug, PartialEq, Eq, Structural)]
pub enum Direction {
    Left,
    Right,
    Top,
    Bottom,
}

/// What the edge trigger asks for.
#[derive(Clone, Copy, Debug, PartialEq, Eq, Structural)]
pub enum EdgeAction {
    Show,
    Hide,
}

/// A global hotkey that changed state.
#[derive(Clone, Copy, Debug, PartialEq, Eq, Structural)]
pub struct HotkeyEvent {
    pub id: u32,
    pub pressed: bool,
}

/// A tray menu event, as the answers to "is it this item?" for each item of
/// the menu.
#[derive(Clone, Copy, Debug, PartialEq, Eq, Structural)]
pub struct MenuHits {
    pub exit: bool,
    pub untrack: bool,
    pub autolaunch: bool,
    pub open_config: bool,
    pub edge_trigger: bool,
}

/// A message of the thread's message queue.
#[derive(Clone, Copy, Debug, PartialEq, Eq, Structural)]
pub struct Message {
    pub id: u32,
    pub wparam: usize,
}

/// What a monitor query gave: whether it succeeded, and the work area it
/// wrote. The work area means nothing where the query failed.
#[derive(Clone, Copy, Debug, PartialEq, Eq, Structural)]
pub struct MonitorInfo {
    pub found: bool,
    pub work: Rect,
}

/// A window on its way in or out.
#[derive(Clone, Copy, Debug, PartialEq, Eq, Structural)]
pub struct Slide {
    pub window: Window,
    pub direction: Direction,
    pub bounds: Rect,
    pub work_area: Rect,
}

/// The work area that a monitor query found, if it found one.
pub open spec fn work_area_of(info: MonitorInfo) -> Option<Rect> {
    if info.found {
        Some(info.work)
    } else {
        None
    }
}

/// The work area that a monitor query found, if it found one.
pub fn get_work_area(info: MonitorInfo) -> (work_area: Option<Rect>)
    ensures
        work_area == work_area_of(info),
{
    if info.found {
        Some(info.work)
    } else {
        None
    }
}

} // verus!
