//! What a toggle does from its first call to its last.
use vstd::prelude::*;

use crate::controller::{Controller, Phase};
use crate::laws::run::{honest, performs, performs_nothing, performs_one_more, World};
use crate::protocol::Request;
use crate::toggle::TogglePhase;
use crate::types::{work_area_of, Rect, Slide, Window};

verus! {

/// What set a toggle off.
pub enum Origin {
    Hotkey,
    Edge,
}

impl Origin {
    /// The place of the program within the toggle.
    pub open spec fn within(self, toggle: TogglePhase) -> Phase {
        match self {
            Origin::Hotkey => Phase::HotkeyToggle(toggle),
            Origin::Edge => Phase::EdgeToggle(toggle),
        }
    }

    /// The place of the program after the toggle.
    pub open spec fn after(self) -> Phase {
        match self {
            Origin::Hotkey => Phase::HotkeyResetEdge,
            Origin::Edge => Phase::Messages,
        }
    }
}

/// The slide of a window from or to `bounds`.
pub open spec fn slide_of(window: Window, work_area: Rect, bounds: Rect, world: World) -> Slide {
    let direction = world(Request::SlideDirection { bounds, work_area })->Direction_0;
    Slide { window, direction, bounds, work_area }
}

/// The calls that hide a visible window.
pub open spec fn slide_out_calls(window: Window, work_area: Rect, world: World) -> Seq<Request> {
    match world(Request::SaveBounds(window))->Bounds_0 {
        None => seq![Request::SaveBounds(window)],
        Some(bounds) => {
            let slide = slide_of(window, work_area, bounds, world);
            let previous = world(Request::PreviousFocus)->Window_0;
            let captured = seq![
                Request::SaveBounds(window),
                Request::SlideDirection { bounds, work_area },
                Request::PreviousFocus,
            ];
            let focused = if previous == Window::none() {
                captured
            } else {
                captured.push(Request::SetForeground(previous))
            };
            focused.push(Request::Animate { slide, show: false })
        },
    }
}

/// The bounds that a hidden window slides back to.
pub open spec fn slide_in_bounds(window: Window, world: World) -> Rect {
    match world(Request::LoadBounds)->Bounds_0 {
        Some(bounds) => bounds,
        None => world(Request::RequireBounds(window))->Rect_0,
    }
}

/// The calls that show a hidden window.
pub open spec fn slide_in_calls(window: Window, work_area: Rect, world: World) -> Seq<Request> {
    let bounds = slide_in_bounds(window, world);
    let slide = slide_of(window, work_area, bounds, world);
    let located = if world(Request::LoadBounds)->Bounds_0 is Some {
        seq![Request::LoadBounds]
    } else {
        seq![Request::LoadBounds, Request::RequireBounds(window)]
    };
    located + seq![
        Request::SlideDirection { bounds, work_area },
        Request::Foreground,
        Request::SavePreviousFocus(world(Request::Foreground)->Window_0),
        Request::Animate { slide, show: true },
        Request::SetForeground(window),
        Request::SetFocusTarget(window),
        Request::InstallFocusHook(window),
    ]
}

/// All calls of a toggle, in order.
pub open spec fn toggle_calls(visible: bool, world: World) -> Seq<Request> {
    let window = world(Request::TrackedWindow)->Window_0;
    let found = seq![
        Request::TrackedValid,
        Request::TrackedWindow,
        Request::WindowWorkArea(window),
    ];
    if !world(Request::TrackedValid)->Flag_0 {
        seq![Request::TrackedValid]
    } else {
        match work_area_of(world(Request::WindowWorkArea(window))->Monitor_0) {
            None => found,
            Some(work_area) => if visible {
                found + slide_out_calls(window, work_area, world)
            } else {
                found + slide_in_calls(window, work_area, world)
            },
        }
    }
}

/// Nothing is in the way of a toggle: a tracked window exists, its work area
/// is known and, where it is visible, so are its bounds.
pub open spec fn toggle_succeeds(visible: bool, world: World) -> bool {
    let window = world(Request::TrackedWindow)->Window_0;
    &&& world(Request::TrackedValid)->Flag_0
    &&& world(Request::WindowWorkArea(window))->Monitor_0.found
    &&& visible ==> world(Request::SaveBounds(window))->Bounds_0 is Some
}

/// A toggle makes one more call.
proof fn toggle_more(
    from: Controller,
    origin: Origin,
    world: World,
    script: Seq<Request>,
    at: Controller,
    toggle: TogglePhase,
) -> (more: (Seq<Request>, Controller))
    requires
        performs(from, world, script, at),
        at.phase == origin.within(toggle),
    ensures
        performs(from, world, more.0, more.1),
        more.0 == script.push(toggle.asks()),
        more.1.settings == at.settings,
        (match toggle.next(at.visible, world(toggle.asks())) {
            (Some(next), visible) => more.1.visible == visible && more.1.phase == origin.within(
                next,
            ),
            (None, visible) => more.1.visible == visible && more.1.phase == origin.after(),
        }),
{
    performs_one_more(from, world, script, at)
}

/// The part of a toggle that hides the window.
proof fn slide_out_runs(
    from: Controller,
    origin: Origin,
    world: World,
    script: Seq<Request>,
    at: Controller,
    window: Window,
    work_area: Rect,
)
    requires
        honest(world),
        performs(from, world, script, at),
        at.visible,
        at.phase == origin.within(TogglePhase::OutBounds { window, work_area }),
    ensures
        performs(
            from,
            world,
            script + slide_out_calls(window, work_area, world),
            (Controller {
                settings: at.settings,
                visible: world(Request::SaveBounds(window))->Bounds_0 is None,
                phase: origin.after(),
            }),
        ),
{
    let goal = script + slide_out_calls(window, work_area, world);
    let t = TogglePhase::OutBounds { window, work_area };
    let (s, c) = toggle_more(from, origin, world, script, at, t);
    assert(t.asks().fits(world(t.asks())));
    match world(Request::SaveBounds(window))->Bounds_0 {
        None => {
            assert(s =~= goal);
        },
        Some(bounds) => {
            let t = TogglePhase::OutDirection { window, work_area, bounds };
            let (s, c) = toggle_more(from, origin, world, s, c, t);
            assert(t.asks().fits(world(t.asks())));
            let slide = slide_of(window, work_area, bounds, world);
            let t = TogglePhase::OutPrevious { slide };
            let (s, c) = toggle_more(from, origin, world, s, c, t);
            assert(t.asks().fits(world(t.asks())));
            let previous = world(Request::PreviousFocus)->Window_0;
            if previous == Window::none() {
                let t = TogglePhase::OutAnimate { slide };
                let (s, c) = toggle_more(from, origin, world, s, c, t);
                assert(s =~= goal);
            } else {
                let t = TogglePhase::OutFocus { slide, previous };
                let (s, c) = toggle_more(from, origin, world, s, c, t);
                let t = TogglePhase::OutAnimate { slide };
                let (s, c) = toggle_more(from, origin, world, s, c, t);
                assert(s =~= goal);
            }
        },
    }
}

/// The part of a toggle that shows the window.
proof fn slide_in_runs(
    from: Controller,
    origin: Origin,
    world: World,
    script: Seq<Request>,
    at: Controller,
    window: Window,
    work_area: Rect,
)
    requires
        honest(world),
        performs(from, world, script, at),
        !at.visible,
        at.phase == origin.within(TogglePhase::InBounds { window, work_area }),
    ensures
        performs(
            from,
            world,
            script + slide_in_calls(window, work_area, world),
            (Controller { settings: at.settings, visible: true, phase: origin.after() }),
        ),
{
    let goal = script + slide_in_calls(window, work_area, world);
    let t = TogglePhase::InBounds { window, work_area };
    let (s, c) = toggle_more(from, origin, world, script, at, t);
    assert(t.asks().fits(world(t.asks())));
    let (s, c) = match world(Request::LoadBounds)->Bounds_0 {
        Some(bounds) => (s, c),
        None => {
            let t = TogglePhase::InCapture { window, work_area };
            assert(t.asks().fits(world(t.asks())));
            toggle_more(from, origin, world, s, c, t)
        },
    };
    let bounds = slide_in_bounds(window, world);
    let slide = slide_of(window, work_area, bounds, world);
    let t = TogglePhase::InDirection { window, work_area, bounds };
    let (s, c) = toggle_more(from, origin, world, s, c, t);
    assert(t.asks().fits(world(t.asks())));
    let t = TogglePhase::InForeground { slide };
    let (s, c) = toggle_more(from, origin, world, s, c, t);
    assert(t.asks().fits(world(t.asks())));
    let previous = world(Request::Foreground)->Window_0;
    let t = TogglePhase::InPrevious { slide, previous };
    let (s, c) = toggle_more(from, origin, world, s, c, t);
    let (s, c) = toggle_more(from, origin, world, s, c, TogglePhase::InAnimate { slide });
    let (s, c) = toggle_more(from, origin, world, s, c, TogglePhase::InFocus { window });
    let (s, c) = toggle_more(from, origin, world, s, c, TogglePhase::InTarget { window });
    let (s, c) = toggle_more(from, origin, world, s, c, TogglePhase::InHook { window });
    assert(s =~= goal);
}

/// A toggle makes the calls of `toggle_calls`, whatever they give back. Where
/// it succeeds, the window counts as visible if and only if it did not before;
/// where it does not, nothing changes.
pub proof fn toggle_runs(controller: Controller, origin: Origin, world: World)
    requires
        honest(world),
        controller.phase == origin.within(TogglePhase::Valid),
    ensures
        performs(
            controller,
            world,
            toggle_calls(controller.visible, world),
            (Controller {
                settings: controller.settings,
                visible: controller.visible != toggle_succeeds(controller.visible, world),
                phase: origin.after(),
            }),
        ),
{
    let from = controller;
    let goal = toggle_calls(from.visible, world);
    let t = TogglePhase::Valid;
    performs_nothing(from, world);
    let (s, c) = toggle_more(from, origin, world, Seq::empty(), from, t);
    assert(t.asks().fits(world(t.asks())));
    if !world(Request::TrackedValid)->Flag_0 {
        assert(s =~= goal);
    } else {
        let t = TogglePhase::Find;
        let (s, c) = toggle_more(from, origin, world, s, c, t);
        assert(t.asks().fits(world(t.asks())));
        let window = world(Request::TrackedWindow)->Window_0;
        let t = TogglePhase::Area { window };
        let (s, c) = toggle_more(from, origin, world, s, c, t);
        assert(t.asks().fits(world(t.asks())));
        assert(s =~= seq![
            Request::TrackedValid,
            Request::TrackedWindow,
            Request::WindowWorkArea(window),
        ]);
        match work_area_of(world(Request::WindowWorkArea(window))->Monitor_0) {
            None => {},
            Some(work_area) => {
                if from.visible {
                    slide_out_runs(from, origin, world, s, c, window, work_area);
                } else {
                    slide_in_runs(from, origin, world, s, c, window, work_area);
                }
            },
        }
    }
}

/// A window that is hidden was measured first, and slides from where it was
/// measured; the focus has been given back before the slide starts, which is
/// the last call.
pub proof fn hiding_keeps_its_order(world: World)
    requires
        toggle_succeeds(true, world),
    ensures
        ({
            let script = toggle_calls(true, world);
            let n = script.len() as int;
            let window = world(Request::TrackedWindow)->Window_0;
            let previous = world(Request::PreviousFocus)->Window_0;
            let work_area = world(Request::WindowWorkArea(window))->Monitor_0.work;
            let saved = world(Request::SaveBounds(window))->Bounds_0->0;
            &&& script[3] == Request::SaveBounds(window)
            &&& script[n - 1] == Request::Animate {
                slide: slide_of(window, work_area, saved, world),
                show: false,
            }
            &&& previous != Window::none() ==> script[n - 2] == Request::SetForeground(previous)
            &&& forall|i: int| 0 <= i < n - 1 ==> !(#[trigger] script[i] is Animate)
        }),
{
}

/// A window that is shown slides in before it takes the focus, the window that
/// had the focus has been remembered before both, and the watch for the loss
/// of focus starts last.
pub proof fn showing_keeps_its_order(world: World)
    requires
        toggle_succeeds(false, world),
    ensures
        ({
            let script = toggle_calls(false, world);
            let n = script.len() as int;
            let window = world(Request::TrackedWindow)->Window_0;
            let foreground = world(Request::Foreground)->Window_0;
            let work_area = world(Request::WindowWorkArea(window))->Monitor_0.work;
            &&& script[n - 5] == Request::SavePreviousFocus(foreground)
            &&& script[n - 4] == Request::Animate {
                slide: slide_of(window, work_area, slide_in_bounds(window, world), world),
                show: true,
            }
            &&& script[n - 3] == Request::SetForeground(window)
            &&& script[n - 2] == Request::SetFocusTarget(window)
            &&& script[n - 1] == Request::InstallFocusHook(window)
            &&& forall|i: int|
                0 <= i < n && i != n - 4 && i != n - 3 ==> !(#[trigger] script[i] is Animate) && !(
                script[i] is SetForeground)
        }),
{
}

/// A toggle that does not succeed moves no window and no focus.
pub proof fn failing_moves_nothing(visible: bool, world: World)
    requires
        !toggle_succeeds(visible, world),
    ensures
        forall|i: int|
            0 <= i < toggle_calls(visible, world).len() ==> !(#[trigger] toggle_calls(
                visible,
                world,
            )[i] is Animate) && !(toggle_calls(visible, world)[i] is SetForeground),
{
}

} // verus!
