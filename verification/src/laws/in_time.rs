//! A desktop whose replies change with time: what an event sets off on any row
//! of replies is what it sets off against a desktop that gives one reply to each
//! call, because no call of the answer is made twice.
use vstd::prelude::*;

use crate::controller::{Controller, Phase};
use crate::laws::events::{
    each_call_is_made_once, edge_turn_calls, edge_turn_runs, edge_turn_toggles, focus_lost_calls,
    focus_lost_hides, focus_lost_runs, menu_calls, menu_event_runs, register_calls,
    toggle_hotkey_calls, toggle_hotkey_runs, track_hotkey_runs,
};
use crate::laws::messages::tells_focus_lost;
use crate::laws::run::{
    fitting, honest, made, made_at, made_len, performs, performs_nothing, performs_one_more, run,
    scripts_agree, World,
};
use crate::laws::toggling::{toggle_calls, toggle_runs, toggle_succeeds, Origin};
use crate::protocol::{Reply, Request};
use crate::toggle::TogglePhase;
use crate::types::{Direction, HotkeyEvent, MenuHits, Message, MonitorInfo, Rect, Window};

verus! {

/// Some reply of the kind that a call gives back.
pub open spec fn some_reply(request: Request) -> Reply {
    let rect = Rect { left: 0, top: 0, right: 0, bottom: 0 };
    match request {
        Request::ShutdownRequested | Request::EdgeEnabled | Request::TrackedValid => Reply::Flag(
            false,
        ),
        Request::NextHotkey => Reply::Hotkey(None),
        Request::NextMenu => Reply::Menu(None),
        Request::NextMessage => Reply::Message(None),
        Request::CursorPosition => Reply::Cursor(None),
        Request::PointWorkArea(_) | Request::WindowWorkArea(_) => Reply::Monitor(
            MonitorInfo { found: false, work: rect },
        ),
        Request::SaveBounds(_) | Request::LoadBounds => Reply::Bounds(None),
        Request::RequireBounds(_) => Reply::Rect(rect),
        Request::SlideDirection { .. } => Reply::Direction(Direction::Left),
        Request::EdgeTransition { .. } => Reply::Edge(None),
        Request::TrackedWindow
        | Request::PreviousFocus
        | Request::FocusTarget
        | Request::Foreground => Reply::Window(Window::none()),
        Request::WindowTitle(_) => Reply::Title(vstd::pervasive::arbitrary()),
        Request::ToggleEdge | Request::ToggleAutolaunch => Reply::Switched(None),
        Request::ConfigPath => Reply::Path(Ok(None)),
        Request::LaunchConfig(_) => Reply::Outcome(Ok(())),
        _ => Reply::Done,
    }
}

/// The desktop that gives each call the reply that it got in the row.
pub open spec fn world_of(controller: Controller, replies: Seq<Reply>) -> World {
    let calls = made(controller, replies);
    |request: Request|
        if calls.contains(request) {
            replies[calls.index_of(request)]
        } else {
            some_reply(request)
        }
}

/// A desktop that gives each call of a row the reply that it got there makes the
/// program perform the row.
proof fn row_is_performed(controller: Controller, world: World, replies: Seq<Reply>)
    requires
        fitting(controller, replies),
        forall|i: int|
            0 <= i < replies.len() ==> world(#[trigger] made(controller, replies)[i]) == replies[i],
    ensures
        performs(controller, world, made(controller, replies), run(controller, replies)),
    decreases replies.len(),
{
    if replies.len() == 0 {
        performs_nothing(controller, world);
    } else {
        let before = replies.drop_last();
        let calls = made(controller, before);
        made_len(controller, before);
        assert forall|i: int| 0 <= i < before.len() implies world(#[trigger] calls[i])
            == before[i] by {
            assert(made(controller, replies)[i] == calls[i]);
        }
        row_is_performed(controller, world, before);
        performs_one_more(controller, world, calls, run(controller, before));
        assert(made(controller, replies)[replies.len() - 1] == run(controller, before).asks());
    }
}

/// Any row of replies of the kinds that the program waits for, in which no call
/// is made twice, is what some desktop with one reply to each call gives.
pub proof fn row_is_a_world(controller: Controller, replies: Seq<Reply>)
    requires
        fitting(controller, replies),
        made(controller, replies).no_duplicates(),
    ensures
        honest(world_of(controller, replies)),
        forall|i: int|
            0 <= i < replies.len() ==> world_of(controller, replies)(
                #[trigger] made(controller, replies)[i],
            ) == replies[i],
        performs(
            controller,
            world_of(controller, replies),
            made(controller, replies),
            run(controller, replies),
        ),
{
    let calls = made(controller, replies);
    let world = world_of(controller, replies);
    made_len(controller, replies);
    assert forall|i: int| 0 <= i < replies.len() implies world(#[trigger] calls[i])
        == replies[i] by {
        assert(calls.contains(calls[i]));
        assert(calls[calls.index_of(calls[i])] == calls[i]);
    }
    assert forall|request: Request| !(request is Exit) implies request.fits(
        #[trigger] world(request),
    ) by {
        if calls.contains(request) {
            made_at(controller, replies, calls.index_of(request));
        }
    }
    row_is_performed(controller, world, replies);
}

/// Against `world` the program makes the calls of `script`, none of them twice,
/// and is over with its answer then.
pub open spec fn answers(
    controller: Controller,
    world: World,
    script: Seq<Request>,
    end: Controller,
    over: spec_fn(Phase) -> bool,
) -> bool {
    &&& performs(controller, world, script, end)
    &&& script.no_duplicates()
    &&& script.len() > 0
    &&& over(end.phase)
}

/// The program is not over with its answer before the last reply of the row.
pub open spec fn unbroken(
    controller: Controller,
    replies: Seq<Reply>,
    over: spec_fn(Phase) -> bool,
) -> bool {
    &&& replies.len() > 0
    &&& fitting(controller, replies)
    &&& forall|m: int|
        0 < m < replies.len() ==> !over((#[trigger] run(controller, replies.take(m))).phase)
}

/// What the program answers against every desktop with one reply to each call,
/// it answers on any row of replies.
proof fn answer_in_time(
    controller: Controller,
    replies: Seq<Reply>,
    script: spec_fn(World) -> Seq<Request>,
    end: spec_fn(World) -> Controller,
    over: spec_fn(Phase) -> bool,
)
    requires
        unbroken(controller, replies, over),
        forall|world: World| #[trigger]
            honest(world) && world(controller.asks()) == replies[0] ==> answers(
                controller,
                world,
                script(world),
                end(world),
                over,
            ),
    ensures
        ({
            let world = world_of(controller, replies);
            let n = replies.len();
            &&& made(controller, replies).no_duplicates()
            &&& honest(world)
            &&& script(world).no_duplicates()
            &&& n <= script(world).len()
            &&& made(controller, replies) == script(world).take(n as int)
            &&& n == script(world).len() ==> run(controller, replies) == end(world)
            &&& n < script(world).len() ==> script(world)[n as int] == run(
                controller,
                replies,
            ).asks()
        }),
    decreases replies.len(),
{
    let n = replies.len();
    let calls = made(controller, replies);
    let before = replies.drop_last();
    let calls_before = made(controller, before);
    made_len(controller, replies);
    made_len(controller, before);
    assert(replies.take(n - 1) =~= before);
    if n > 1 {
        assert forall|m: int| 0 < m < before.len() implies !over(
            (#[trigger] run(controller, before.take(m))).phase,
        ) by {
            assert(before.take(m) =~= replies.take(m));
        }
        answer_in_time(controller, before, script, end, over);
        let known = script(world_of(controller, before));
        row_is_a_world(controller, before);
        made_at(controller, before, 0);
        assert(before.take(0) =~= Seq::<Reply>::empty());
        assert(!over(run(controller, replies.take(n - 1)).phase));
        assert(n - 1 < known.len());
        assert forall|i: int| 0 <= i < n implies #[trigger] calls[i] == known[i] by {
            if i < n - 1 {
                assert(calls[i] == calls_before[i]);
            }
        }
    }
    let world = world_of(controller, replies);
    row_is_a_world(controller, replies);
    made_at(controller, replies, 0);
    assert(replies.take(0) =~= Seq::<Reply>::empty());
    assert(world(calls[0]) == replies[0]);
    let whole = script(world);
    let k = whole.len();
    if k < n {
        let part = replies.take(k as int);
        part_is_performed(controller, world, replies, k as int);
        let part_end = run(controller, part);
        scripts_agree(controller, world, made(controller, part), part_end, whole, end(world));
    } else {
        scripts_agree(controller, world, calls, run(controller, replies), whole, end(world));
    }
}

/// The start of a row is performed as well.
proof fn part_is_performed(controller: Controller, world: World, replies: Seq<Reply>, k: int)
    requires
        fitting(controller, replies),
        0 <= k <= replies.len(),
        forall|i: int|
            0 <= i < replies.len() ==> world(#[trigger] made(controller, replies)[i]) == replies[i],
    ensures
        performs(
            controller,
            world,
            made(controller, replies.take(k)),
            run(controller, replies.take(k)),
        ),
        made(controller, replies.take(k)).len() == k,
    decreases replies.len(),
{
    made_len(controller, replies.take(k));
    if k == replies.len() {
        assert(replies.take(k) =~= replies);
        row_is_performed(controller, world, replies);
    } else {
        let before = replies.drop_last();
        made_len(controller, before);
        assert(before.take(k) =~= replies.take(k));
        assert forall|i: int| 0 <= i < before.len() implies world(
            #[trigger] made(controller, before)[i],
        ) == before[i] by {
            assert(made(controller, replies)[i] == made(controller, before)[i]);
        }
        part_is_performed(controller, world, before, k);
    }
}

/// Is the program back at the place where it takes the next event?
pub open spec fn back_at(source: Phase) -> spec_fn(Phase) -> bool {
    |phase: Phase| phase == source
}

/// On the row of replies the program makes the calls of the script, or as many
/// of them as there are replies; and where it is back at its source, it has made
/// them all and stands where the script ends. The script is that of a desktop
/// which gives each call the reply that it got in the row.
pub open spec fn answered(
    controller: Controller,
    replies: Seq<Reply>,
    script: spec_fn(World) -> Seq<Request>,
    end: spec_fn(World) -> Controller,
) -> bool {
    let world = world_of(controller, replies);
    &&& honest(world)
    &&& forall|i: int|
        0 <= i < replies.len() ==> world(#[trigger] made(controller, replies)[i]) == replies[i]
    &&& replies.len() <= script(world).len()
    &&& made(controller, replies) == script(world).take(replies.len() as int)
    &&& run(controller, replies).phase == controller.phase ==> {
        &&& made(controller, replies) == script(world)
        &&& run(controller, replies) == end(world)
    }
}

/// What an event of a source sets off against every desktop with one reply to
/// each call, it sets off on any row of replies.
proof fn source_in_time(
    controller: Controller,
    replies: Seq<Reply>,
    script: spec_fn(World) -> Seq<Request>,
    end: spec_fn(World) -> Controller,
)
    requires
        controller.phase is Hotkeys || controller.phase is Menus || controller.phase is Messages,
        unbroken(controller, replies, back_at(controller.phase)),
        forall|world: World| #[trigger]
            honest(world) && world(controller.asks()) == replies[0] ==> answers(
                controller,
                world,
                script(world),
                end(world),
                back_at(controller.phase),
            ),
    ensures
        answered(controller, replies, script, end),
{
    let world = world_of(controller, replies);
    let n = replies.len();
    answer_in_time(controller, replies, script, end, back_at(controller.phase));
    row_is_a_world(controller, replies);
    made_at(controller, replies, 0);
    assert(replies.take(0) =~= Seq::<Reply>::empty());
    assert(script(world)[0] == controller.asks());
    if run(controller, replies).phase == controller.phase {
        assert(n == script(world).len());
        assert(script(world).take(n as int) =~= script(world));
    }
}

/// A press of the toggle hotkey does what `toggle_hotkey_runs` says on any row of
/// replies.
pub proof fn toggle_hotkey_in_time(controller: Controller, replies: Seq<Reply>)
    requires
        controller.phase is Hotkeys,
        replies[0] == Reply::Hotkey(
            Some(HotkeyEvent { id: controller.settings.toggle_id, pressed: true }),
        ),
        unbroken(controller, replies, back_at(controller.phase)),
    ensures
        answered(
            controller,
            replies,
            |world: World| toggle_hotkey_calls(controller.visible, world),
            |world: World|
                Controller {
                    visible: controller.visible != toggle_succeeds(controller.visible, world),
                    ..controller
                },
        ),
{
    let script = |world: World| toggle_hotkey_calls(controller.visible, world);
    let end = |world: World|
        Controller {
            visible: controller.visible != toggle_succeeds(controller.visible, world),
            ..controller
        };
    let over = back_at(controller.phase);
    assert forall|world: World| #[trigger]
        honest(world) && world(controller.asks()) == replies[0] implies answers(
        controller,
        world,
        script(world),
        end(world),
        over,
    ) by {
        toggle_hotkey_runs(controller, world);
        each_call_is_made_once(controller.visible, vstd::pervasive::arbitrary(), world);
    }
    source_in_time(controller, replies, script, end);
}

/// A press of the track hotkey does what `track_hotkey_runs` says on any row of
/// replies.
pub proof fn track_hotkey_in_time(controller: Controller, replies: Seq<Reply>)
    requires
        controller.phase is Hotkeys,
        controller.settings.track_id != controller.settings.toggle_id,
        replies[0] == Reply::Hotkey(
            Some(HotkeyEvent { id: controller.settings.track_id, pressed: true }),
        ),
        unbroken(controller, replies, back_at(controller.phase)),
    ensures
        answered(
            controller,
            replies,
            |world: World| seq![Request::NextHotkey] + register_calls(world),
            |world: World|
                Controller {
                    visible: controller.visible || world(Request::Foreground)->Window_0
                        != Window::none(),
                    ..controller
                },
        ),
{
    let script = |world: World| seq![Request::NextHotkey] + register_calls(world);
    let end = |world: World|
        Controller {
            visible: controller.visible || world(Request::Foreground)->Window_0
                != Window::none(),
            ..controller
        };
    let over = back_at(controller.phase);
    assert forall|world: World| #[trigger]
        honest(world) && world(controller.asks()) == replies[0] implies answers(
        controller,
        world,
        script(world),
        end(world),
        over,
    ) by {
        track_hotkey_runs(controller, world);
        each_call_is_made_once(controller.visible, vstd::pervasive::arbitrary(), world);
    }
    source_in_time(controller, replies, script, end);
}

/// A loss of focus does what `focus_lost_runs` says on any row of replies.
pub proof fn focus_lost_in_time(controller: Controller, replies: Seq<Reply>, message: Message)
    requires
        controller.phase is Messages,
        replies[0] == Reply::Message(Some(message)),
        tells_focus_lost(message, controller.settings.focus_changed),
        unbroken(controller, replies, back_at(controller.phase)),
    ensures
        answered(
            controller,
            replies,
            |world: World|
                seq![Request::NextMessage] + (if controller.visible {
                    focus_lost_calls(world)
                } else {
                    Seq::empty()
                }) + seq![Request::ResetEdge],
            |world: World|
                Controller {
                    visible: controller.visible && !focus_lost_hides(world),
                    ..controller
                },
        ),
{
    let script = |world: World|
        seq![Request::NextMessage] + (if controller.visible {
            focus_lost_calls(world)
        } else {
            Seq::empty()
        }) + seq![Request::ResetEdge];
    let end = |world: World|
        Controller {
            visible: controller.visible && !focus_lost_hides(world),
            ..controller
        };
    let over = back_at(controller.phase);
    assert forall|world: World| #[trigger]
        honest(world) && world(controller.asks()) == replies[0] implies answers(
        controller,
        world,
        script(world),
        end(world),
        over,
    ) by {
        focus_lost_runs(controller, world, message);
        each_call_is_made_once(controller.visible, vstd::pervasive::arbitrary(), world);
    }
    source_in_time(controller, replies, script, end);
}

/// A menu event does what `menu_event_runs` says on any row of replies.
pub proof fn menu_event_in_time(controller: Controller, replies: Seq<Reply>, hits: MenuHits)
    requires
        controller.phase is Menus,
        replies[0] == Reply::Menu(Some(hits)),
        unbroken(controller, replies, back_at(controller.phase)),
    ensures
        answered(
            controller,
            replies,
            |world: World| seq![Request::NextMenu] + menu_calls(hits, world),
            |world: World|
                Controller {
                    visible: controller.visible && (hits.exit || !hits.untrack),
                    ..controller
                },
        ),
{
    let script = |world: World| seq![Request::NextMenu] + menu_calls(hits, world);
    let end = |world: World|
        Controller {
            visible: controller.visible && (hits.exit || !hits.untrack),
            ..controller
        };
    let over = back_at(controller.phase);
    assert forall|world: World| #[trigger]
        honest(world) && world(controller.asks()) == replies[0] implies answers(
        controller,
        world,
        script(world),
        end(world),
        over,
    ) by {
        menu_event_runs(controller, world, hits);
        each_call_is_made_once(controller.visible, hits, world);
    }
    source_in_time(controller, replies, script, end);
}

/// Is the edge trigger's turn over, or at the toggle that it set off?
pub open spec fn edge_decided() -> spec_fn(Phase) -> bool {
    |phase: Phase| phase is Messages || phase == Phase::EdgeToggle(TogglePhase::Valid)
}

/// The edge trigger's turn, up to the toggle that it may set off, does what
/// `edge_turn_runs` says on any row of replies.
pub proof fn edge_turn_in_time(controller: Controller, replies: Seq<Reply>)
    requires
        controller.phase is EdgeEnabled,
        unbroken(controller, replies, edge_decided()),
    ensures
        ({
            let world = world_of(controller, replies);
            let script = edge_turn_calls(controller.visible, world);
            let after = run(controller, replies);
            &&& honest(world)
            &&& forall|i: int|
                0 <= i < replies.len() ==> world(#[trigger] made(controller, replies)[i])
                    == replies[i]
            &&& replies.len() <= script.len()
            &&& made(controller, replies) == script.take(replies.len() as int)
            &&& replies.len() == script.len() <==> edge_decided()(after.phase)
            &&& edge_decided()(after.phase) ==> after == (Controller {
                phase: if edge_turn_toggles(controller.visible, world) {
                    Phase::EdgeToggle(TogglePhase::Valid)
                } else {
                    Phase::Messages
                },
                ..controller
            })
        }),
{
    let script = |world: World| edge_turn_calls(controller.visible, world);
    let end = |world: World|
        Controller {
            phase: if edge_turn_toggles(controller.visible, world) {
                Phase::EdgeToggle(TogglePhase::Valid)
            } else {
                Phase::Messages
            },
            ..controller
        };
    assert forall|world: World| #[trigger]
        honest(world) && world(controller.asks()) == replies[0] implies answers(
        controller,
        world,
        script(world),
        end(world),
        edge_decided(),
    ) by {
        edge_turn_runs(controller, world);
        each_call_is_made_once(controller.visible, vstd::pervasive::arbitrary(), world);
    }
    answer_in_time(controller, replies, script, end, edge_decided());
    row_is_a_world(controller, replies);
    let world = world_of(controller, replies);
    let n = replies.len() as int;
    let whole = script(world);
    if edge_decided()(run(controller, replies).phase) && n < whole.len() {
        assert(whole[n] is NextMessage || whole[n] is TrackedValid);
        assert(n == 1);
        made_at(controller, replies, 0);
        assert(replies.take(0) =~= Seq::<Reply>::empty());
        assert(replies.drop_last() =~= Seq::<Reply>::empty());
        assert(run(controller, replies) == controller.next(replies[0]));
    }
}

/// A toggle that the edge trigger set off does what `toggle_runs` says on any row
/// of replies.
pub proof fn edge_toggle_in_time(controller: Controller, replies: Seq<Reply>)
    requires
        controller.phase == Phase::EdgeToggle(TogglePhase::Valid),
        unbroken(controller, replies, back_at(Phase::Messages)),
    ensures
        ({
            let world = world_of(controller, replies);
            let script = toggle_calls(controller.visible, world);
            let after = run(controller, replies);
            &&& honest(world)
            &&& forall|i: int|
                0 <= i < replies.len() ==> world(#[trigger] made(controller, replies)[i])
                    == replies[i]
            &&& replies.len() <= script.len()
            &&& made(controller, replies) == script.take(replies.len() as int)
            &&& replies.len() == script.len() <==> after.phase is Messages
            &&& after.phase is Messages ==> after == (Controller {
                visible: controller.visible != toggle_succeeds(controller.visible, world),
                phase: Phase::Messages,
                ..controller
            })
        }),
{
    let script = |world: World| toggle_calls(controller.visible, world);
    let end = |world: World|
        Controller {
            visible: controller.visible != toggle_succeeds(controller.visible, world),
            phase: Phase::Messages,
            ..controller
        };
    assert forall|world: World| #[trigger]
        honest(world) && world(controller.asks()) == replies[0] implies answers(
        controller,
        world,
        script(world),
        end(world),
        back_at(Phase::Messages),
    ) by {
        toggle_runs(controller, Origin::Edge, world);
        toggle_calls_once(controller.visible, world);
    }
    answer_in_time(controller, replies, script, end, back_at(Phase::Messages));
    row_is_a_world(controller, replies);
    toggle_calls_once(controller.visible, world_of(controller, replies));
}

/// A toggle makes no call twice, and takes no message.
proof fn toggle_calls_once(visible: bool, world: World)
    ensures
        toggle_calls(visible, world).no_duplicates(),
        toggle_calls(visible, world).len() > 0,
        forall|i: int|
            0 <= i < toggle_calls(visible, world).len() ==> !(#[trigger] toggle_calls(
                visible,
                world,
            )[i] is NextMessage),
{
}

} // verus!
