//! Toggling the tracked window: a visible one slides out and gives the focus
//! back, a hidden one slides in and takes the focus.
use vstd::prelude::*;

use crate::protocol::{Reply, Request};
use crate::types::{get_work_area, Direction, Rect, Slide, Window};
#[allow(unused_imports)]
use crate::types::work_area_of;

verus! {

/// How far a toggle has come: the call that it waits for, with what the calls
/// before it gave.
#[derive(Clone, Copy, Debug, PartialEq, Eq, Structural)]
pub enum TogglePhase {
    Valid,
    Find,
    Area { window: Window },
    OutBounds { window: Window, work_area: Rect },
    OutDirection { window: Window, work_area: Rect, bounds: Rect },
    OutPrevious { slide: Slide },
    OutFocus { slide: Slide, previous: Window },
    OutAnimate { slide: Slide },
    InBounds { window: Window, work_area: Rect },
    InCapture { window: Window, work_area: Rect },
    InDirection { window: Window, work_area: Rect, bounds: Rect },
    InForeground { slide: Slide },
    InPrevious { slide: Slide, previous: Window },
    InAnimate { slide: Slide },
    InFocus { window: Window },
    InTarget { window: Window },
    InHook { window: Window },
}

impl TogglePhase {
    /// The call that the toggle waits for.
    pub open spec fn asks(self) -> Request {
        match self {
            TogglePhase::Valid => Request::TrackedValid,
            TogglePhase::Find => Request::TrackedWindow,
            TogglePhase::Area { window } => Request::WindowWorkArea(window),
            TogglePhase::OutBounds { window, .. } => Request::SaveBounds(window),
            TogglePhase::OutDirection { work_area, bounds, .. } => Request::SlideDirection {
                bounds,
                work_area,
            },
            TogglePhase::OutPrevious { .. } => Request::PreviousFocus,
            TogglePhase::OutFocus { previous, .. } => Request::SetForeground(previous),
            TogglePhase::OutAnimate { slide } => Request::Animate { slide, show: false },
            TogglePhase::InBounds { .. } => Request::LoadBounds,
            TogglePhase::InCapture { window, .. } => Request::RequireBounds(window),
            TogglePhase::InDirection { work_area, bounds, .. } => Request::SlideDirection {
                bounds,
                work_area,
            },
            TogglePhase::InForeground { .. } => Request::Foreground,
            TogglePhase::InPrevious { previous, .. } => Request::SavePreviousFocus(previous),
            TogglePhase::InAnimate { slide } => Request::Animate { slide, show: true },
            TogglePhase::InFocus { window } => Request::SetForeground(window),
            TogglePhase::InTarget { window } => Request::SetFocusTarget(window),
            TogglePhase::InHook { window } => Request::InstallFocusHook(window),
        }
    }

    /// The call that the toggle waits for.
    pub fn request(&self) -> (request: Request)
        ensures
            request == self.asks(),
    {
        match *self {
            TogglePhase::Valid => Request::TrackedValid,
            TogglePhase::Find => Request::TrackedWindow,
            TogglePhase::Area { window } => Request::WindowWorkArea(window),
            TogglePhase::OutBounds { window, .. } => Request::SaveBounds(window),
            TogglePhase::OutDirection { work_area, bounds, .. } => Request::SlideDirection {
                bounds,
                work_area,
            },
            TogglePhase::OutPrevious { .. } => Request::PreviousFocus,
            TogglePhase::OutFocus { previous, .. } => Request::SetForeground(previous),
            TogglePhase::OutAnimate { slide } => Request::Animate { slide, show: false },
            TogglePhase::InBounds { .. } => Request::LoadBounds,
            TogglePhase::InCapture { window, .. } => Request::RequireBounds(window),
            TogglePhase::InDirection { work_area, bounds, .. } => Request::SlideDirection {
                bounds,
                work_area,
            },
            TogglePhase::InForeground { .. } => Request::Foreground,
            TogglePhase::InPrevious { previous, .. } => Request::SavePreviousFocus(previous),
            TogglePhase::InAnimate { slide } => Request::Animate { slide, show: true },
            TogglePhase::InFocus { window } => Request::SetForeground(window),
            TogglePhase::InTarget { window } => Request::SetFocusTarget(window),
            TogglePhase::InHook { window } => Request::InstallFocusHook(window),
        }
    }

    /// Where the toggle goes on a reply, none where it is over, and whether the
    /// window counts as visible then.
    pub open spec fn next(self, visible: bool, reply: Reply) -> (Option<TogglePhase>, bool) {
        match (self, reply) {
            (TogglePhase::Valid, Reply::Flag(valid)) => if valid {
                (Some(TogglePhase::Find), visible)
            } else {
                (None, visible)
            },
            (TogglePhase::Find, Reply::Window(window)) => {
                (Some(TogglePhase::Area { window }), visible)
            },
            (TogglePhase::Area { window }, Reply::Monitor(info)) => match work_area_of(info) {
                None => (None, visible),
                Some(work_area) => if visible {
                    (Some(TogglePhase::OutBounds { window, work_area }), visible)
                } else {
                    (Some(TogglePhase::InBounds { window, work_area }), visible)
                },
            },
            (TogglePhase::OutBounds { window, work_area }, Reply::Bounds(saved)) => match saved {
                None => (None, visible),
                Some(bounds) => (
                    Some(TogglePhase::OutDirection { window, work_area, bounds }),
                    visible,
                ),
            },
            (
                TogglePhase::OutDirection { window, work_area, bounds },
                Reply::Direction(direction),
            ) => {
                let slide = Slide { window, direction, bounds, work_area };
                (Some(TogglePhase::OutPrevious { slide }), visible)
            },
            (TogglePhase::OutPrevious { slide }, Reply::Window(previous)) => if previous
                != Window::none() {
                (Some(TogglePhase::OutFocus { slide, previous }), visible)
            } else {
                (Some(TogglePhase::OutAnimate { slide }), visible)
            },
            (TogglePhase::OutFocus { slide, .. }, _) => {
                (Some(TogglePhase::OutAnimate { slide }), visible)
            },
            (TogglePhase::OutAnimate { .. }, _) => (None, false),
            (TogglePhase::InBounds { window, work_area }, Reply::Bounds(stored)) => match stored {
                None => (Some(TogglePhase::InCapture { window, work_area }), visible),
                Some(bounds) => (
                    Some(TogglePhase::InDirection { window, work_area, bounds }),
                    visible,
                ),
            },
            (TogglePhase::InCapture { window, work_area }, Reply::Rect(bounds)) => {
                (Some(TogglePhase::InDirection { window, work_area, bounds }), visible)
            },
            (
                TogglePhase::InDirection { window, work_area, bounds },
                Reply::Direction(direction),
            ) => {
                let slide = Slide { window, direction, bounds, work_area };
                (Some(TogglePhase::InForeground { slide }), visible)
            },
            (TogglePhase::InForeground { slide }, Reply::Window(previous)) => {
                (Some(TogglePhase::InPrevious { slide, previous }), visible)
            },
            (TogglePhase::InPrevious { slide, .. }, _) => {
                (Some(TogglePhase::InAnimate { slide }), visible)
            },
            (TogglePhase::InAnimate { slide }, _) => {
                (Some(TogglePhase::InFocus { window: slide.window }), visible)
            },
            (TogglePhase::InFocus { window }, _) => {
                (Some(TogglePhase::InTarget { window }), visible)
            },
            (TogglePhase::InTarget { window }, _) => (Some(TogglePhase::InHook { window }), visible),
            (TogglePhase::InHook { .. }, _) => (None, true),
            _ => (None, visible),
        }
    }

    /// Where the toggle goes on a reply, none where it is over, and whether the
    /// window counts as visible then.
    pub fn step(self, visible: bool, reply: Reply) -> (after: (Option<TogglePhase>, bool))
        requires
            self.asks().fits(reply),
        ensures
            after == self.next(visible, reply),
    {
        match (self, reply) {
            (TogglePhase::Valid, Reply::Flag(valid)) => if valid {
                (Some(TogglePhase::Find), visible)
            } else {
                (None, visible)
            },
            (TogglePhase::Find, Reply::Window(window)) => {
                (Some(TogglePhase::Area { window }), visible)
            },
            (TogglePhase::Area { window }, Reply::Monitor(info)) => match get_work_area(info) {
                None => (None, visible),
                Some(work_area) => if visible {
                    (Some(TogglePhase::OutBounds { window, work_area }), visible)
                } else {
                    (Some(TogglePhase::InBounds { window, work_area }), visible)
                },
            },
            (TogglePhase::OutBounds { window, work_area }, Reply::Bounds(saved)) => match saved {
                None => (None, visible),
                Some(bounds) => (
                    Some(TogglePhase::OutDirection { window, work_area, bounds }),
                    visible,
                ),
            },
            (
                TogglePhase::OutDirection { window, work_area, bounds },
                Reply::Direction(direction),
            ) => {
                let slide: Slide = Slide { window, direction, bounds, work_area };
                (Some(TogglePhase::OutPrevious { slide }), visible)
            },
            (TogglePhase::OutPrevious { slide }, Reply::Window(previous)) => if previous
                != Window::none() {
                (Some(TogglePhase::OutFocus { slide, previous }), visible)
            } else {
                (Some(TogglePhase::OutAnimate { slide }), visible)
            },
            (TogglePhase::OutFocus { slide, .. }, _) => {
                (Some(TogglePhase::OutAnimate { slide }), visible)
            },
            (TogglePhase::OutAnimate { .. }, _) => (None, false),
            (TogglePhase::InBounds { window, work_area }, Reply::Bounds(stored)) => match stored {
                None => (Some(TogglePhase::InCapture { window, work_area }), visible),
                Some(bounds) => (
                    Some(TogglePhase::InDirection { window, work_area, bounds }),
                    visible,
                ),
            },
            (TogglePhase::InCapture { window, work_area }, Reply::Rect(bounds)) => {
                (Some(TogglePhase::InDirection { window, work_area, bounds }), visible)
            },
            (
                TogglePhase::InDirection { window, work_area, bounds },
                Reply::Direction(direction),
            ) => {
                let slide: Slide = Slide { window, direction, bounds, work_area };
                (Some(TogglePhase::InForeground { slide }), visible)
            },
            (TogglePhase::InForeground { slide }, Reply::Window(previous)) => {
                (Some(TogglePhase::InPrevious { slide, previous }), visible)
            },
            (TogglePhase::InPrevious { slide, .. }, _) => {
                (Some(TogglePhase::InAnimate { slide }), visible)
            },
            (TogglePhase::InAnimate { slide }, _) => {
                (Some(TogglePhase::InFocus { window: slide.window }), visible)
            },
            (TogglePhase::InFocus { window }, _) => {
                (Some(TogglePhase::InTarget { window }), visible)
            },
            (TogglePhase::InTarget { window }, _) => (Some(TogglePhase::InHook { window }), visible),
            (TogglePhase::InHook { .. }, _) => (None, true),
            _ => (None, visible),
        }
    }
}

} // verus!
