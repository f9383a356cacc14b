//! Loss of focus: a visible window slides out, and the focus stays where it
//! went.
use vstd::prelude::*;

use crate::protocol::{Reply, Request};
use crate::types::{get_work_area, Direction, Rect, Slide, Window};
#[allow(unused_imports)]
use crate::types::work_area_of;

verus! {

/// How far the answer to a loss of focus has come: the call that it waits for,
/// with what the calls before it gave.
#[derive(Clone, Copy, Debug, PartialEq, Eq, Structural)]
pub enum FocusLostPhase {
    Target,
    Area { window: Window },
    Bounds { window: Window, work_area: Rect },
    Direction { window: Window, work_area: Rect, bounds: Rect },
    Animate { slide: Slide },
}

impl FocusLostPhase {
    /// The first call, or none where no window is visible.
    pub open spec fn first(visible: bool) -> Option<FocusLostPhase> {
        if visible {
            Some(FocusLostPhase::Target)
        } else {
            None
        }
    }

    /// The first call, or none where no window is visible.
    pub fn start(visible: bool) -> (phase: Option<FocusLostPhase>)
        ensures
            phase == FocusLostPhase::first(visible),
    {
        if visible {
            Some(FocusLostPhase::Target)
        } else {
            None
        }
    }

    /// The call that is waited for.
    pub open spec fn asks(self) -> Request {
        match self {
            FocusLostPhase::Target => Request::FocusTarget,
            FocusLostPhase::Area { window } => Request::WindowWorkArea(window),
            FocusLostPhase::Bounds { window, .. } => Request::SaveBounds(window),
            FocusLostPhase::Direction { work_area, bounds, .. } => Request::SlideDirection {
                bounds,
                work_area,
            },
            FocusLostPhase::Animate { slide } => Request::Animate { slide, show: false },
        }
    }

    /// The call that is waited for.
    pub fn request(&self) -> (request: Request)
        ensures
            request == self.asks(),
    {
        match *self {
            FocusLostPhase::Target => Request::FocusTarget,
            FocusLostPhase::Area { window } => Request::WindowWorkArea(window),
            FocusLostPhase::Bounds { window, .. } => Request::SaveBounds(window),
            FocusLostPhase::Direction { work_area, bounds, .. } => Request::SlideDirection {
                bounds,
                work_area,
            },
            FocusLostPhase::Animate { slide } => Request::Animate { slide, show: false },
        }
    }

    /// Where it goes on a reply, none where it is over, and whether the window
    /// counts as visible then.
    pub open spec fn next(self, visible: bool, reply: Reply) -> (Option<FocusLostPhase>, bool) {
        match (self, reply) {
            (FocusLostPhase::Target, Reply::Window(window)) => if window == Window::none() {
                (None, visible)
            } else {
                (Some(FocusLostPhase::Area { window }), visible)
            },
            (FocusLostPhase::Area { window }, Reply::Monitor(info)) => match work_area_of(info) {
                None => (None, visible),
                Some(work_area) => (Some(FocusLostPhase::Bounds { window, work_area }), visible),
            },
            (FocusLostPhase::Bounds { window, work_area }, Reply::Bounds(saved)) => match saved {
                None => (None, visible),
                Some(bounds) => (
                    Some(FocusLostPhase::Direction { window, work_area, bounds }),
                    visible,
                ),
            },
            (
                FocusLostPhase::Direction { window, work_area, bounds },
                Reply::Direction(direction),
            ) => {
                let slide = Slide { window, direction, bounds, work_area };
                (Some(FocusLostPhase::Animate { slide }), visible)
            },
            (FocusLostPhase::Animate { .. }, _) => (None, false),
            _ => (None, visible),
        }
    }

    /// Where it goes on a reply, none where it is over, and whether the window
    /// counts as visible then.
    pub fn step(self, visible: bool, reply: Reply) -> (after: (Option<FocusLostPhase>, bool))
        requires
            self.asks().fits(reply),
        ensures
            after == self.next(visible, reply),
    {
        match (self, reply) {
            (FocusLostPhase::Target, Reply::Window(window)) => if window == Window::none() {
                (None, visible)
            } else {
                (Some(FocusLostPhase::Area { window }), visible)
            },
            (FocusLostPhase::Area { window }, Reply::Monitor(info)) => match get_work_area(info) {
                None => (None, visible),
                Some(work_area) => (Some(FocusLostPhase::Bounds { window, work_area }), visible),
            },
            (FocusLostPhase::Bounds { window, work_area }, Reply::Bounds(saved)) => match saved {
                None => (None, visible),
                Some(bounds) => (
                    Some(FocusLostPhase::Direction { window, work_area, bounds }),
                    visible,
                ),
            },
            (
                FocusLostPhase::Direction { window, work_area, bounds },
                Reply::Direction(direction),
            ) => {
                let slide: Slide = Slide { window, direction, bounds, work_area };
                (Some(FocusLostPhase::Animate { slide }), visible)
            },
            (FocusLostPhase::Animate { .. }, _) => (None, false),
            _ => (None, visible),
        }
    }
}

} // verus!
