//! The edge trigger's look at the cursor.
use vstd::prelude::*;

use crate::protocol::{Reply, Request};
use crate::types::{get_work_area, Direction, EdgeAction, Point, Rect};
#[allow(unused_imports)]
use crate::types::work_area_of;

verus! {

/// How far the look has come: the call that it waits for, with what the calls
/// before it gave.
#[derive(Clone, Copy, Debug, PartialEq, Eq, Structural)]
pub enum EdgePhase {
    Cursor,
    Area { cursor: Point },
    Bounds { cursor: Point, work_area: Rect },
    Direction { cursor: Point, work_area: Rect, bounds: Rect },
    Transition { cursor: Point, work_area: Rect, stored: Option<Rect>, direction: Direction },
}

/// Where the look goes: on to another call, or to its end with what the edge
/// trigger asks for, if anything.
#[derive(Clone, Copy, Debug, PartialEq, Eq, Structural)]
pub enum EdgeStep {
    Next(EdgePhase),
    Over(Option<EdgeAction>),
}

impl EdgePhase {
    /// The call that is waited for.
    pub open spec fn asks(self, visible: bool) -> Request {
        match self {
            EdgePhase::Cursor => Request::CursorPosition,
            EdgePhase::Area { cursor } => Request::PointWorkArea(cursor),
            EdgePhase::Bounds { .. } => Request::LoadBounds,
            EdgePhase::Direction { work_area, bounds, .. } => Request::SlideDirection {
                bounds,
                work_area,
            },
            EdgePhase::Transition { cursor, work_area, stored, direction } => {
                Request::EdgeTransition { direction, visible, cursor, work_area, stored }
            },
        }
    }

    /// The call that is waited for.
    pub fn request(&self, visible: bool) -> (request: Request)
        ensures
            request == self.asks(visible),
    {
        match *self {
            EdgePhase::Cursor => Request::CursorPosition,
            EdgePhase::Area { cursor } => Request::PointWorkArea(cursor),
            EdgePhase::Bounds { .. } => Request::LoadBounds,
            EdgePhase::Direction { work_area, bounds, .. } => Request::SlideDirection {
                bounds,
                work_area,
            },
            EdgePhase::Transition { cursor, work_area, stored, direction } => {
                Request::EdgeTransition { direction, visible, cursor, work_area, stored }
            },
        }
    }

    /// Where the look goes on a reply. Without a cursor or a work area nothing
    /// is asked for; without stored bounds the direction is left.
    pub open spec fn next(self, reply: Reply) -> EdgeStep {
        match (self, reply) {
            (EdgePhase::Cursor, Reply::Cursor(Some(cursor))) => EdgeStep::Next(
                EdgePhase::Area { cursor },
            ),
            (EdgePhase::Area { cursor }, Reply::Monitor(info)) => match work_area_of(info) {
                None => EdgeStep::Over(None),
                Some(work_area) => EdgeStep::Next(EdgePhase::Bounds { cursor, work_area }),
            },
            (EdgePhase::Bounds { cursor, work_area }, Reply::Bounds(stored)) => match stored {
                None => EdgeStep::Next(
                    EdgePhase::Transition {
                        cursor,
                        work_area,
                        stored: None,
                        direction: Direction::Left,
                    },
                ),
                Some(bounds) => EdgeStep::Next(EdgePhase::Direction { cursor, work_area, bounds }),
            },
            (
                EdgePhase::Direction { cursor, work_area, bounds },
                Reply::Direction(direction),
            ) => EdgeStep::Next(
                EdgePhase::Transition { cursor, work_area, stored: Some(bounds), direction },
            ),
            (EdgePhase::Transition { .. }, Reply::Edge(action)) => EdgeStep::Over(action),
            _ => EdgeStep::Over(None),
        }
    }

    /// Where the look goes on a reply.
    pub fn step(self, visible: bool, reply: Reply) -> (after: EdgeStep)
        requires
            self.asks(visible).fits(reply),
        ensures
            after == self.next(reply),
    {
        match (self, reply) {
            (EdgePhase::Cursor, Reply::Cursor(Some(cursor))) => EdgeStep::Next(
                EdgePhase::Area { cursor },
            ),
            (EdgePhase::Area { cursor }, Reply::Monitor(info)) => match get_work_area(info) {
                None => EdgeStep::Over(None),
                Some(work_area) => EdgeStep::Next(EdgePhase::Bounds { cursor, work_area }),
            },
            (EdgePhase::Bounds { cursor, work_area }, Reply::Bounds(stored)) => match stored {
                None => EdgeStep::Next(
                    EdgePhase::Transition {
                        cursor,
                        work_area,
                        stored: None,
                        direction: Direction::Left,
                    },
                ),
                Some(bounds) => EdgeStep::Next(EdgePhase::Direction { cursor, work_area, bounds }),
            },
            (
                EdgePhase::Direction { cursor, work_area, bounds },
                Reply::Direction(direction),
            ) => EdgeStep::Next(
                EdgePhase::Transition { cursor, work_area, stored: Some(bounds), direction },
            ),
            (EdgePhase::Transition { .. }, Reply::Edge(action)) => EdgeStep::Over(action),
            _ => EdgeStep::Over(None),
        }
    }
}

} // verus!
