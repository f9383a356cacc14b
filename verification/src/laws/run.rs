//! Runs of the program: against a desktop, and on a row of replies.
use vstd::prelude::*;

use crate::controller::Controller;
use crate::protocol::{Reply, Request};

verus! {

/// A desktop: what each call gives back.
pub type World = spec_fn(Request) -> Reply;

/// Every call gets a reply of its kind.
pub open spec fn honest(world: World) -> bool {
    forall|request: Request| !(request is Exit) ==> request.fits(#[trigger] world(request))
}

/// The program after `n` calls.
pub open spec fn advance(controller: Controller, world: World, n: nat) -> Controller
    decreases n,
{
    if n == 0 {
        controller
    } else {
        advance(controller.next(world(controller.asks())), world, (n - 1) as nat)
    }
}

/// The next `n` calls that the program makes.
pub open spec fn calls(controller: Controller, world: World, n: nat) -> Seq<Request>
    decreases n,
{
    if n == 0 {
        Seq::empty()
    } else {
        seq![controller.asks()] + calls(
            controller.next(world(controller.asks())),
            world,
            (n - 1) as nat,
        )
    }
}

/// From `controller` on, the program makes exactly the calls of `script`, one
/// after the other, and stands at `end` then.
#[verifier::opaque]
pub open spec fn performs(
    controller: Controller,
    world: World,
    script: Seq<Request>,
    end: Controller,
) -> bool {
    &&& calls(controller, world, script.len()) == script
    &&& advance(controller, world, script.len()) == end
}

/// A script goes on with another.
pub proof fn performs_in_turn(
    first: Controller,
    world: World,
    script: Seq<Request>,
    middle: Controller,
    more: Seq<Request>,
    end: Controller,
)
    requires
        performs(first, world, script, middle),
        performs(middle, world, more, end),
    ensures
        performs(first, world, script + more, end),
    decreases script.len(),
{
    reveal(performs);
    if script.len() == 0 {
        assert(script + more =~= more);
    } else {
        let next = first.next(world(first.asks()));
        let rest = script.drop_first();
        let tail = calls(next, world, (script.len() - 1) as nat);
        assert(script == seq![first.asks()] + tail);
        assert(rest =~= tail);
        assert(rest.len() == script.len() - 1);
        performs_in_turn(next, world, rest, middle, more, end);
        assert((script + more).drop_first() =~= rest + more);
        assert((script + more).len() == (rest + more).len() + 1);
        assert(script + more =~= seq![first.asks()] + (rest + more));
    }
}

/// A script of no call.
pub proof fn performs_nothing(controller: Controller, world: World)
    ensures
        performs(controller, world, Seq::empty(), controller),
{
    reveal(performs);
}

/// A script goes on with one more call: the longer script, and where the
/// program stands after it.
pub proof fn performs_one_more(
    first: Controller,
    world: World,
    script: Seq<Request>,
    middle: Controller,
) -> (more: (Seq<Request>, Controller))
    requires
        performs(first, world, script, middle),
    ensures
        performs(first, world, more.0, more.1),
        more.0 == script.push(middle.asks()),
        more.1 == middle.next(world(middle.asks())),
{
    let end = middle.next(world(middle.asks()));
    reveal(performs);
    reveal_with_fuel(calls, 2);
    reveal_with_fuel(advance, 2);
    assert(calls(middle, world, 1) =~= seq![middle.asks()]);
    performs_in_turn(first, world, script, middle, seq![middle.asks()], end);
    assert(script + seq![middle.asks()] =~= script.push(middle.asks()));
    (script.push(middle.asks()), end)
}

/// The shorter of two runs of calls is the start of the longer one.
proof fn calls_agree(controller: Controller, world: World, n: nat, m: nat)
    requires
        n <= m,
    ensures
        calls(controller, world, m).len() == m,
        calls(controller, world, m).take(n as int) == calls(controller, world, n),
        n < m ==> calls(controller, world, m)[n as int] == advance(controller, world, n).asks(),
    decreases m,
{
    if m > 0 {
        let next = controller.next(world(controller.asks()));
        let first = seq![controller.asks()];
        let rest = calls(next, world, (m - 1) as nat);
        if n == 0 {
            calls_agree(next, world, 0, (m - 1) as nat);
        } else {
            calls_agree(next, world, (n - 1) as nat, (m - 1) as nat);
            assert((first + rest).take(n as int) =~= first + rest.take(n - 1));
        }
    }
    assert(calls(controller, world, m).take(n as int) =~= calls(controller, world, n));
}

/// Two scripts that the program performs from one place agree: the shorter one
/// is the start of the longer one.
pub proof fn scripts_agree(
    controller: Controller,
    world: World,
    script: Seq<Request>,
    end: Controller,
    longer: Seq<Request>,
    longer_end: Controller,
)
    requires
        performs(controller, world, script, end),
        performs(controller, world, longer, longer_end),
        script.len() <= longer.len(),
    ensures
        longer.take(script.len() as int) == script,
        script.len() == longer.len() ==> script == longer && end == longer_end,
        script.len() < longer.len() ==> longer[script.len() as int] == end.asks(),
{
    reveal(performs);
    calls_agree(controller, world, script.len(), longer.len());
}

/// The program after a row of replies.
pub open spec fn run(controller: Controller, replies: Seq<Reply>) -> Controller
    decreases replies.len(),
{
    if replies.len() == 0 {
        controller
    } else {
        run(controller, replies.drop_last()).next(replies.last())
    }
}

/// Every reply of the row is of the kind that the program waits for.
pub open spec fn fitting(controller: Controller, replies: Seq<Reply>) -> bool
    decreases replies.len(),
{
    replies.len() == 0 || {
        &&& fitting(controller, replies.drop_last())
        &&& run(controller, replies.drop_last()).asks().fits(replies.last())
    }
}

/// The calls that got the row of replies.
pub open spec fn made(controller: Controller, replies: Seq<Reply>) -> Seq<Request>
    decreases replies.len(),
{
    if replies.len() == 0 {
        Seq::empty()
    } else {
        made(controller, replies.drop_last()).push(run(controller, replies.drop_last()).asks())
    }
}

/// One call for each reply.
pub proof fn made_len(controller: Controller, replies: Seq<Reply>)
    ensures
        made(controller, replies).len() == replies.len(),
    decreases replies.len(),
{
    if replies.len() > 0 {
        made_len(controller, replies.drop_last());
    }
}

/// Each call is the one that the program waits for after the replies before it,
/// and gets a reply of its kind.
pub proof fn made_at(controller: Controller, replies: Seq<Reply>, i: int)
    requires
        fitting(controller, replies),
        0 <= i < replies.len(),
    ensures
        made(controller, replies).len() == replies.len(),
        made(controller, replies)[i] == run(controller, replies.take(i)).asks(),
        made(controller, replies)[i].fits(replies[i]),
    decreases replies.len(),
{
    let before = replies.drop_last();
    made_len(controller, replies);
    made_len(controller, before);
    if i == replies.len() - 1 {
        assert(replies.take(i) =~= before);
    } else {
        made_at(controller, before, i);
        assert(before.take(i) =~= replies.take(i));
    }
}

} // verus!
