//! The order in which the event loop looks at its sources, whatever they bring.
use vstd::prelude::*;

use crate::controller::{Controller, Phase};
use crate::laws::messages::ends_program;
use crate::laws::rounds::{every_answer_ends, round_rest};
use crate::laws::run::{fitting, made, made_len, run};
use crate::protocol::{Reply, Request};

verus! {

/// Whose turn it is in a round.
pub enum Turn {
    Shutdown,
    Sleep,
    Hotkeys,
    Menu,
    Edge,
    Messages,
    Leaving,
}

/// Whose turn it is; the answer to an event belongs to the turn of its source.
pub open spec fn turn(phase: Phase) -> Turn {
    match phase {
        Phase::CheckShutdown => Turn::Shutdown,
        Phase::Wait => Turn::Sleep,
        Phase::Hotkeys
        | Phase::HotkeyToggle(_)
        | Phase::HotkeyResetEdge
        | Phase::HotkeyRegister(_) => Turn::Hotkeys,
        Phase::Menus | Phase::MenuAnswer(_) => Turn::Menu,
        Phase::EdgeEnabled
        | Phase::EdgeTracked
        | Phase::EdgeLook(_)
        | Phase::EdgeToggle(_) => Turn::Edge,
        Phase::Messages
        | Phase::Dispatch(_)
        | Phase::FocusLost(_)
        | Phase::FocusResetEdge => Turn::Messages,
        Phase::RestoreOnExit | Phase::UnhookOnExit | Phase::Exit => Turn::Leaving,
    }
}

/// The turn that follows another, on the reply that ends it.
pub open spec fn turn_after(turn: Turn, reply: Reply) -> Turn {
    match turn {
        Turn::Shutdown => if reply == Reply::Flag(true) {
            Turn::Leaving
        } else {
            Turn::Sleep
        },
        Turn::Sleep => Turn::Hotkeys,
        Turn::Hotkeys => Turn::Menu,
        Turn::Menu => Turn::Edge,
        Turn::Edge => Turn::Messages,
        Turn::Messages => if reply == Reply::Message(None) {
            Turn::Shutdown
        } else {
            Turn::Leaving
        },
        Turn::Leaving => Turn::Leaving,
    }
}

/// Does the reply bring a message that ends the program?
pub open spec fn brings_end(reply: Reply) -> bool {
    reply matches Reply::Message(Some(message)) && ends_program(message)
}

/// A round looks for a shutdown, sleeps, and then takes the hotkeys, the menu,
/// the edge trigger and the messages in turn, whatever happens in it.
pub proof fn turns_keep_their_order(controller: Controller, reply: Reply)
    requires
        controller.asks().fits(reply),
    ensures
        ({
            let now = turn(controller.phase);
            let then = turn(controller.next(reply).phase);
            &&& then == now || then == turn_after(now, reply)
            &&& now is Shutdown || now is Sleep ==> then == turn_after(now, reply)
        }),
{
}

/// The turn of the hotkeys, of the menu and of the messages ends with the reply
/// that there is no event left, and with no other but a message that ends the
/// program.
pub proof fn sources_are_emptied(controller: Controller, reply: Reply)
    requires
        controller.asks().fits(reply),
    ensures
        ({
            let now = turn(controller.phase);
            let then = turn(controller.next(reply).phase);
            &&& now is Hotkeys ==> (then != now <==> reply == Reply::Hotkey(None))
            &&& now is Menu ==> (then != now <==> reply == Reply::Menu(None))
            &&& now is Messages ==> (then != now <==> reply == Reply::Message(None) || brings_end(
                reply,
            ))
        }),
{
}

/// The turn of the edge trigger never goes back: each of its calls leaves fewer
/// to make.
pub proof fn edge_turn_goes_forward(controller: Controller, reply: Reply)
    requires
        controller.asks().fits(reply),
        turn(controller.phase) is Edge,
    ensures
        round_rest(controller.next(reply).phase) < round_rest(controller.phase),
{
    edge_call_brings_no_event(controller, reply);
    every_answer_ends(controller, reply);
}

/// In the turn of the edge trigger no event is taken.
proof fn edge_call_brings_no_event(controller: Controller, reply: Reply)
    requires
        controller.asks().fits(reply),
        turn(controller.phase) is Edge,
    ensures
        !(reply is Hotkey),
        !(reply is Menu),
        !(reply is Message),
{
}

/// How often the program looked for a shutdown.
pub open spec fn looks(calls: Seq<Request>) -> nat
    decreases calls.len(),
{
    if calls.len() == 0 {
        0
    } else {
        looks(calls.drop_last()) + if calls.last() is ShutdownRequested {
            1nat
        } else {
            0nat
        }
    }
}

/// How often the program slept.
pub open spec fn sleeps(calls: Seq<Request>) -> nat
    decreases calls.len(),
{
    if calls.len() == 0 {
        0
    } else {
        sleeps(calls.drop_last()) + if calls.last() is WaitForInput {
            1nat
        } else {
            0nat
        }
    }
}

/// Which calls are looks and sleeps, and what leads to a sleep.
proof fn call_counts(controller: Controller, reply: Reply)
    requires
        controller.asks().fits(reply),
    ensures
        controller.asks() is ShutdownRequested <==> controller.phase is CheckShutdown,
        controller.asks() is WaitForInput <==> controller.phase is Wait,
        controller.next(reply).phase is Wait <==> controller.phase is CheckShutdown && reply
            == Reply::Flag(false),
        turn(controller.phase) is Leaving ==> turn(controller.next(reply).phase) is Leaving,
        controller.phase is CheckShutdown ==> controller.next(reply).phase is Wait || turn(
            controller.next(reply).phase,
        ) is Leaving,
{
}

/// From the head of the loop to its end, each sleep follows a look for a
/// shutdown of its own, and each look but the last a sleep.
pub proof fn one_sleep_for_each_look(controller: Controller, replies: Seq<Reply>)
    requires
        controller.phase is CheckShutdown,
        fitting(controller, replies),
        !(turn(run(controller, replies).phase) is Leaving),
    ensures
        looks(made(controller, replies)) == sleeps(made(controller, replies)) + if run(
            controller,
            replies,
        ).phase is Wait {
            1nat
        } else {
            0nat
        },
    decreases replies.len(),
{
    if replies.len() > 0 {
        let before = replies.drop_last();
        call_counts(run(controller, before), replies.last());
        one_sleep_for_each_look(controller, before);
        assert(made(controller, replies).drop_last() =~= made(controller, before));
    }
}

/// A shutdown was asked for, by a signal or otherwise: every look for one gets a
/// yes.
pub open spec fn shutdown_pending(controller: Controller, replies: Seq<Reply>) -> bool {
    forall|i: int|
        0 <= i < replies.len() && #[trigger] made(controller, replies)[i] is ShutdownRequested
            ==> replies[i] == Reply::Flag(true)
}

/// From the moment at which a shutdown is asked for, wherever the program is
/// then, it sleeps once more at most, and only where it was about to; and it
/// looks for a shutdown once more at most.
pub proof fn shutdown_is_seen_after_one_sleep(controller: Controller, replies: Seq<Reply>)
    requires
        fitting(controller, replies),
        shutdown_pending(controller, replies),
    ensures
        sleeps(made(controller, replies)) <= if controller.phase is Wait {
            1nat
        } else {
            0nat
        },
        looks(made(controller, replies)) <= 1,
        looks(made(controller, replies)) == 1 ==> turn(run(controller, replies).phase) is Leaving,
    decreases replies.len(),
{
    if replies.len() > 0 {
        let before = replies.drop_last();
        let calls = made(controller, replies);
        made_len(controller, replies);
        made_len(controller, before);
        assert(calls.drop_last() =~= made(controller, before));
        assert forall|i: int|
            0 <= i < before.len() && #[trigger] made(
                controller,
                before,
            )[i] is ShutdownRequested implies before[i] == Reply::Flag(true) by {
            assert(calls[i] == made(controller, before)[i]);
        }
        shutdown_is_seen_after_one_sleep(controller, before);
        call_counts(run(controller, before), replies.last());
        if calls.last() is ShutdownRequested {
            assert(calls[replies.len() - 1] is ShutdownRequested);
            assert(replies[replies.len() - 1] == Reply::Flag(true));
        }
        if calls.last() is WaitForInput {
            no_sleep_while_pending(controller, before);
        }
    }
}

/// While a shutdown is asked for, the program comes to no further sleep.
proof fn no_sleep_while_pending(controller: Controller, replies: Seq<Reply>)
    requires
        fitting(controller, replies),
        shutdown_pending(controller, replies),
    ensures
        run(controller, replies).phase is Wait ==> replies.len() == 0,
{
    if replies.len() > 0 {
        made_len(controller, replies);
        call_counts(run(controller, replies.drop_last()), replies.last());
        if run(controller, replies).phase is Wait {
            assert(made(controller, replies)[replies.len() - 1] is ShutdownRequested);
        }
    }
}

} // verus!
