//! What the list of the windows holds.
use vstd::prelude::*;

use crate::config::MyConfig;
use crate::hotkey::ChoiceModel;
use crate::listing::{utf16_text, ListPhase, ListReply, ListRequest, ListStep};
use crate::startup::{StartPhase, StartReply};

verus! {

/// What a window answers to the questions about it.
pub ghost struct Asked {
    pub visible: bool,
    pub length: i32,
    /// The buffer that its title comes in.
    pub units: Vec<u16>,
}

impl Asked {
    /// The length leaves room for the closing zero, and the title comes in the
    /// whole buffer.
    pub open spec fn well_formed(self) -> bool {
        &&& self.length < i32::MAX
        &&& self.length > 0 ==> self.units@.len() == self.length + 1
    }

    /// The answer to a question.
    pub open spec fn answer(self, question: ListRequest) -> ListReply {
        match question {
            ListRequest::Visible => ListReply::Flag(self.visible),
            ListRequest::TextLength => ListReply::Length(self.length),
            ListRequest::Text { .. } => ListReply::Text(self.units),
        }
    }

    /// The title that the window is listed with: it has to be visible and have
    /// one.
    pub open spec fn listed(self) -> Option<Seq<char>> {
        if self.visible && self.length > 0 {
            Some(utf16_text(self.units@.take(self.length as int)))
        } else {
            None
        }
    }
}

/// Where the questions about a window end, with at most `n` of them left.
pub open spec fn questioned(phase: ListPhase, window: Asked, n: nat) -> ListStep<Seq<char>>
    decreases n,
{
    if n == 0 {
        ListStep::Next(phase)
    } else {
        match phase.next(window.answer(phase.asks())) {
            ListStep::Next(next) => questioned(next, window, (n - 1) as nat),
            over => over,
        }
    }
}

/// At most three questions about a window, each of which it can answer, lead to
/// their end: with its title where it is visible and has one, and never without
/// going on to the next window.
pub proof fn window_is_questioned(window: Asked)
    requires
        window.well_formed(),
    ensures
        questioned(ListPhase::Visible, window, 3) == (ListStep::Over {
            title: window.listed(),
            go_on: true,
        }),
        ListPhase::Visible.fits(window.answer(ListRequest::Visible)),
        ListPhase::Length.fits(window.answer(ListRequest::TextLength)),
        window.length > 0 ==> {
            let text = ListPhase::Text { length: window.length as usize };
            text.well_formed() && text.fits(window.answer(text.asks()))
        },
{
    reveal_with_fuel(questioned, 4);
}

/// What is listed of a row of windows, one entry each, where the enumeration
/// ends with the first window after which it is not to go on.
pub open spec fn enumerated(windows: Seq<Asked>) -> Seq<Option<Seq<char>>>
    decreases windows.len(),
{
    if windows.len() == 0 {
        Seq::empty()
    } else {
        match questioned(ListPhase::Visible, windows[0], 3) {
            ListStep::Over { title, go_on: true } => seq![title] + enumerated(windows.skip(1)),
            ListStep::Over { title, go_on: false } => seq![title],
            ListStep::Next(_) => Seq::empty(),
        }
    }
}

/// No window cuts the list short, hidden or untitled ones included: each window
/// of the row has its turn, and is listed as it is alone.
pub proof fn every_window_is_listed(windows: Seq<Asked>)
    requires
        forall|i: int| 0 <= i < windows.len() ==> (#[trigger] windows[i]).well_formed(),
    ensures
        enumerated(windows) == windows.map_values(|window: Asked| window.listed()),
    decreases windows.len(),
{
    if windows.len() > 0 {
        let rest = windows.skip(1);
        window_is_questioned(windows[0]);
        assert forall|i: int| 0 <= i < rest.len() implies (#[trigger] rest[i]).well_formed() by {
            assert(rest[i] == windows[i + 1]);
        }
        every_window_is_listed(rest);
    }
    assert(enumerated(windows) =~= windows.map_values(|window: Asked| window.listed()));
}

/// A list that did not come to its end stops nothing: the start goes on as it
/// does otherwise.
pub proof fn failed_list_is_passed_over(config: MyConfig, reply: StartReply)
    requires
        (StartPhase::<ChoiceModel>::ListWindows { config }).asks().fits(reply),
    ensures
        (StartPhase::<ChoiceModel>::ListWindows { config }).next(reply) == (StartPhase::<
            ChoiceModel,
        >::CreateTray { config }),
{
}

} // verus!
