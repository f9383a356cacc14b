//! What each message of the queue sets off, told from its id and its parameter.
use vstd::prelude::*;

use crate::controller::{
    kind_of, Controller, MessageKind, Phase, WM_ENDSESSION, WM_QUERYENDSESSION, WM_QUIT,
};
use crate::laws::run::{performs, performs_nothing, performs_one_more, World};
use crate::protocol::{Reply, Request};
use crate::types::Message;

verus! {

/// The message ends the program: it is to quit, or the session does end.
pub open spec fn ends_program(message: Message) -> bool {
    message.id == 0x12 || (message.id == 0x16 && message.wparam != 0)
}

/// The message tells that the focus was lost. The ids that the system uses for
/// the end of the program come first.
pub open spec fn tells_focus_lost(message: Message, focus_changed: u32) -> bool {
    message.id == focus_changed && message.id != 0x11 && !ends_program(message)
}

/// The message goes to its window: it is none of those that the program answers
/// itself.
pub open spec fn is_ordinary(message: Message, focus_changed: u32) -> bool {
    message.id != 0x11 && message.id != focus_changed && !ends_program(message)
}

/// The ids of the messages that the system sends for the end of the program.
pub proof fn ids_are_those_of_the_system()
    ensures
        WM_QUERYENDSESSION == 0x11,
        WM_QUIT == 0x12,
        WM_ENDSESSION == 0x16,
{
}

/// A message is of exactly one kind, and its id and parameter decide of which.
pub proof fn kinds_are_told_apart(message: Message, focus_changed: u32)
    ensures
        kind_of(message, focus_changed) == MessageKind::Quit <==> ends_program(message),
        kind_of(message, focus_changed) == MessageKind::Pass <==> message.id == 0x11,
        kind_of(message, focus_changed) == MessageKind::FocusLost <==> tells_focus_lost(
            message,
            focus_changed,
        ),
        kind_of(message, focus_changed) == MessageKind::Dispatch <==> is_ordinary(
            message,
            focus_changed,
        ),
{
}

/// Where a message leads: out of the loop if and only if it ends the program, to
/// the answer to a loss of focus if and only if it tells of one, to its window if
/// and only if it is an ordinary one, and straight to the next message if and
/// only if it asks whether the session may end. Taking it changes nothing else.
pub proof fn message_leads_where_it_should(controller: Controller, message: Message)
    requires
        controller.phase is Messages,
    ensures
        ({
            let after = controller.next(Reply::Message(Some(message)));
            let focus_changed = controller.settings.focus_changed;
            &&& after.settings == controller.settings
            &&& after.visible == controller.visible
            &&& after.phase is RestoreOnExit <==> ends_program(message)
            &&& after.phase is FocusLost || after.phase is FocusResetEdge <==> tells_focus_lost(
                message,
                focus_changed,
            )
            &&& after.phase is Dispatch <==> is_ordinary(message, focus_changed)
            &&& after.asks() == Request::Dispatch(message) <==> is_ordinary(message, focus_changed)
            &&& after.phase is Messages <==> message.id == 0x11
        }),
{
}

/// Every ordinary message goes to its window, unchanged, and then the next
/// message is taken.
pub proof fn ordinary_message_is_dispatched(controller: Controller, world: World, message: Message)
    requires
        controller.phase == Phase::Messages,
        world(Request::NextMessage) == Reply::Message(Some(message)),
        is_ordinary(message, controller.settings.focus_changed),
    ensures
        performs(
            controller,
            world,
            seq![Request::NextMessage, Request::Dispatch(message)],
            controller,
        ),
{
    performs_nothing(controller, world);
    let (s, c) = performs_one_more(controller, world, Seq::empty(), controller);
    let (s, c) = performs_one_more(controller, world, s, c);
    assert(s =~= seq![Request::NextMessage, Request::Dispatch(message)]);
}

/// The question whether the session may end sets nothing off: the next message
/// is taken.
pub proof fn end_of_session_may_come(controller: Controller, world: World, message: Message)
    requires
        controller.phase == Phase::Messages,
        world(Request::NextMessage) == Reply::Message(Some(message)),
        message.id == 0x11,
    ensures
        performs(controller, world, seq![Request::NextMessage], controller),
{
    performs_nothing(controller, world);
    let (s, c) = performs_one_more(controller, world, Seq::empty(), controller);
    assert(s =~= seq![Request::NextMessage]);
}

/// Only a message that tells of a loss of focus can lead to a slide: after any
/// other, no window is asked for, measured or moved before the next event.
pub proof fn other_messages_move_nothing(controller: Controller, message: Message, reply: Reply)
    requires
        controller.phase is Messages,
        !tells_focus_lost(message, controller.settings.focus_changed),
        controller.next(Reply::Message(Some(message))).asks().fits(reply),
    ensures
        ({
            let after = controller.next(Reply::Message(Some(message)));
            let then = after.next(reply);
            &&& !(after.asks() is FocusTarget)
            &&& !(after.asks() is ResetEdge)
            &&& then.visible == controller.visible
            &&& after.phase is Dispatch ==> then == controller
        }),
{
}

} // verus!
