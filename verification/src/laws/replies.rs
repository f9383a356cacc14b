//! Which replies the calls take: all of one kind, whatever they hold.
use vstd::prelude::*;

use crate::hotkey::ChoiceModel;
use crate::laws::in_time::some_reply;
use crate::listing::{ListPhase, ListReply};
use crate::protocol::{Reply, Request};
use crate::startup::{StartReply, StartRequest};

verus! {

/// Are two replies of one kind, whatever they hold?
pub open spec fn one_kind(a: Reply, b: Reply) -> bool {
    match (a, b) {
        (Reply::Done, Reply::Done) => true,
        (Reply::Flag(_), Reply::Flag(_)) => true,
        (Reply::Hotkey(_), Reply::Hotkey(_)) => true,
        (Reply::Menu(_), Reply::Menu(_)) => true,
        (Reply::Message(_), Reply::Message(_)) => true,
        (Reply::Cursor(_), Reply::Cursor(_)) => true,
        (Reply::Monitor(_), Reply::Monitor(_)) => true,
        (Reply::Bounds(_), Reply::Bounds(_)) => true,
        (Reply::Rect(_), Reply::Rect(_)) => true,
        (Reply::Direction(_), Reply::Direction(_)) => true,
        (Reply::Edge(_), Reply::Edge(_)) => true,
        (Reply::Window(_), Reply::Window(_)) => true,
        (Reply::Title(_), Reply::Title(_)) => true,
        (Reply::Switched(_), Reply::Switched(_)) => true,
        (Reply::Path(_), Reply::Path(_)) => true,
        (Reply::Outcome(_), Reply::Outcome(_)) => true,
        _ => false,
    }
}

/// A call takes the replies of one kind, all of them, and no others; and what
/// `some_reply` gives is of that kind.
pub proof fn call_takes_one_kind(request: Request, reply: Reply)
    requires
        !(request is Exit),
    ensures
        request.fits(reply) <==> one_kind(reply, some_reply(request)),
{
}

/// After the end nothing comes back.
pub proof fn nothing_comes_after_the_end(reply: Reply)
    ensures
        !Request::Exit.fits(reply),
{
}

/// Are two replies on the way to the event loop of one kind, whatever they hold?
pub open spec fn one_start_kind(a: StartReply, b: StartReply) -> bool {
    match (a, b) {
        (StartReply::Done, StartReply::Done) => true,
        (StartReply::Flag(_), StartReply::Flag(_)) => true,
        (StartReply::Outcome(_), StartReply::Outcome(_)) => true,
        (StartReply::Config(_), StartReply::Config(_)) => true,
        _ => false,
    }
}

/// A call on the way to the event loop takes the replies of one kind or none at
/// all: what a reply holds never decides whether it is taken.
pub proof fn start_call_takes_one_kind(
    request: StartRequest<ChoiceModel>,
    a: StartReply,
    b: StartReply,
)
    ensures
        one_start_kind(a, b) ==> request.fits(a) == request.fits(b),
        request.fits(a) && request.fits(b) ==> one_start_kind(a, b),
{
}

/// A question that is answered with yes or no takes both answers, a call that
/// may fail takes its success and every cause of a failure, and a call of which
/// nothing is of consequence takes that it was made. The last two requests are no
/// calls.
pub proof fn start_calls_take_every_answer(
    yes: bool,
    outcome: Result<(), String>,
    config: Result<crate::config::MyConfig, String>,
    choice: ChoiceModel,
    request: StartRequest<ChoiceModel>,
    reply: StartReply,
)
    ensures
        StartRequest::<ChoiceModel>::ListWindows.fits(StartReply::Flag(yes)),
        StartRequest::<ChoiceModel>::AutolaunchEnabled.fits(StartReply::Flag(yes)),
        StartRequest::<ChoiceModel>::EdgeEnabled.fits(StartReply::Flag(yes)),
        StartRequest::<ChoiceModel>::MarkAutolaunch(yes).fits(StartReply::Done),
        StartRequest::<ChoiceModel>::MarkEdge(yes).fits(StartReply::Done),
        StartRequest::<ChoiceModel>::ConfigPath.fits(StartReply::Outcome(outcome)),
        StartRequest::<ChoiceModel>::CreateTray.fits(StartReply::Outcome(outcome)),
        StartRequest::<ChoiceModel>::CreateHotkeyManager.fits(StartReply::Outcome(outcome)),
        StartRequest::<ChoiceModel>::RegisterHotkey(choice).fits(StartReply::Outcome(outcome)),
        StartRequest::<ChoiceModel>::InstallConsoleHandler.fits(StartReply::Outcome(outcome)),
        StartRequest::<ChoiceModel>::LoadConfig.fits(StartReply::Config(config)),
        request is Run || request is Fail ==> !request.fits(reply),
{
}

/// A question about a window takes both answers, every length that leaves room
/// for the closing zero, and every title that fills the buffer; the buffer is one
/// unit longer than the title.
pub proof fn list_questions_take_every_answer(reply: ListReply, length: usize)
    ensures
        ListPhase::Visible.fits(reply) <==> reply is Flag,
        ListPhase::Length.fits(reply) <==> reply is Length && reply->Length_0 < i32::MAX,
        0 < length < i32::MAX ==> (ListPhase::Text { length }).well_formed(),
        0 < length < i32::MAX ==> ((ListPhase::Text { length }).fits(reply) <==> reply is Text
            && reply->Text_0@.len() == length + 1),
        ListPhase::Visible.well_formed(),
        ListPhase::Length.well_formed(),
{
}

} // verus!
