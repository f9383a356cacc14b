//! The console's control signals.
use vstd::prelude::*;

use crate::protocol::Request;

verus! {

/// Ctrl+C was pressed.
pub const CTRL_C_EVENT: u32 = 0;

/// Ctrl+Break was pressed.
pub const CTRL_BREAK_EVENT: u32 = 1;

/// The console window is closed.
pub const CTRL_CLOSE_EVENT: u32 = 2;

/// The answer to a control signal.
#[derive(Clone, Copy, Debug, PartialEq, Eq, Structural)]
pub enum CtrlAnswer {
    /// Ask for a shutdown. The signal is handled.
    Shutdown,
    /// Restore the tracked window at once, for the process ends when the handler
    /// returns; then ask for a shutdown. The signal is handled.
    RestoreThenShutdown,
    /// Leave the signal to the next handler.
    Unhandled,
}

impl CtrlAnswer {
    /// The calls that the answer makes, in order.
    pub open spec fn asks(self) -> Seq<Request> {
        match self {
            CtrlAnswer::Shutdown => seq![Request::RequestShutdown],
            CtrlAnswer::RestoreThenShutdown => seq![
                Request::RestoreOriginal,
                Request::RequestShutdown,
            ],
            CtrlAnswer::Unhandled => Seq::empty(),
        }
    }

    /// The calls that the answer makes, in order.
    pub fn requests(&self) -> (requests: Vec<Request>)
        ensures
            requests@ == self.asks(),
    {
        let mut requests: Vec<Request> = Vec::new();
        match self {
            CtrlAnswer::Shutdown => {
                requests.push(Request::RequestShutdown);
            },
            CtrlAnswer::RestoreThenShutdown => {
                requests.push(Request::RestoreOriginal);
                requests.push(Request::RequestShutdown);
            },
            CtrlAnswer::Unhandled => {},
        }
        requests
    }

    /// Does the signal count as handled?
    pub fn handled(&self) -> (handled: bool)
        ensures
            handled == (*self != CtrlAnswer::Unhandled),
            handled == (self.asks().len() > 0),
    {
        match self {
            CtrlAnswer::Shutdown | CtrlAnswer::RestoreThenShutdown => true,
            CtrlAnswer::Unhandled => false,
        }
    }
}

/// The answer to a control signal.
pub open spec fn answer_to(ctrl_type: u32) -> CtrlAnswer {
    if ctrl_type == CTRL_C_EVENT || ctrl_type == CTRL_BREAK_EVENT {
        CtrlAnswer::Shutdown
    } else if ctrl_type == CTRL_CLOSE_EVENT {
        CtrlAnswer::RestoreThenShutdown
    } else {
        CtrlAnswer::Unhandled
    }
}

/// The answer to a control signal: a shutdown for Ctrl+C and Ctrl+Break, the
/// restored window and a shutdown where the console closes, and nothing else.
pub fn ctrl_handler(ctrl_type: u32) -> (answer: CtrlAnswer)
    ensures
        answer == answer_to(ctrl_type),
        answer == CtrlAnswer::Shutdown <==> ctrl_type == CTRL_C_EVENT || ctrl_type
            == CTRL_BREAK_EVENT,
        answer == CtrlAnswer::RestoreThenShutdown <==> ctrl_type == CTRL_CLOSE_EVENT,
        answer.asks() == if ctrl_type == CTRL_C_EVENT || ctrl_type == CTRL_BREAK_EVENT {
            seq![Request::RequestShutdown]
        } else if ctrl_type == CTRL_CLOSE_EVENT {
            seq![Request::RestoreOriginal, Request::RequestShutdown]
        } else {
            Seq::empty()
        },
{
    match ctrl_type {
        CTRL_C_EVENT | CTRL_BREAK_EVENT => CtrlAnswer::Shutdown,
        CTRL_CLOSE_EVENT => CtrlAnswer::RestoreThenShutdown,
        _ => CtrlAnswer::Unhandled,
    }
}

} // verus!
