//! What the way to the event loop does from its first call to its last.
use vstd::prelude::*;

use crate::config::MyConfig;
use crate::failure::{Failure, Stage};
use crate::hotkey::{chosen, ChoiceModel};
use crate::startup::{StartPhase, StartReply, StartRequest};

verus! {

/// How far the way has come after a row of replies.
pub open spec fn start_run(replies: Seq<StartReply>) -> StartPhase<ChoiceModel>
    decreases replies.len(),
{
    if replies.len() == 0 {
        StartPhase::ConfigPath
    } else {
        start_run(replies.drop_last()).next(replies.last())
    }
}

/// The calls that got the row of replies.
pub open spec fn start_made(replies: Seq<StartReply>) -> Seq<StartRequest<ChoiceModel>>
    decreases replies.len(),
{
    if replies.len() == 0 {
        Seq::empty()
    } else {
        start_made(replies.drop_last()).push(start_run(replies.drop_last()).asks())
    }
}

/// The replies of a start at which nothing fails that has to succeed.
pub open spec fn good_replies(
    config: MyConfig,
    list: bool,
    autolaunch: bool,
    edge: bool,
) -> Seq<StartReply> {
    let good = StartReply::Outcome(Ok(()));
    seq![
        good,
        StartReply::Config(Ok(config)),
        StartReply::Flag(list),
        good,
        StartReply::Flag(autolaunch),
        StartReply::Done,
        StartReply::Flag(edge),
        StartReply::Done,
        good,
        good,
        good,
        good,
    ]
}

/// One more reply.
proof fn start_more(replies: Seq<StartReply>, reply: StartReply) -> (more: Seq<StartReply>)
    ensures
        more == replies.push(reply),
        start_run(more) == start_run(replies).next(reply),
        start_made(more) == start_made(replies).push(start_run(replies).asks()),
{
    assert(replies.push(reply).drop_last() =~= replies);
    replies.push(reply)
}

/// Every reply of a start at which nothing fails that has to succeed is taken by
/// the call that it answers, whatever the configuration and the switches are.
pub proof fn good_replies_are_taken(config: MyConfig, list: bool, autolaunch: bool, edge: bool)
    ensures
        ({
            let replies = good_replies(config, list, autolaunch, edge);
            &&& start_made(replies).len() == replies.len()
            &&& forall|i: int|
                0 <= i < replies.len() ==> (#[trigger] start_made(replies)[i]).fits(replies[i])
        }),
{
    start_succeeds(config, list, autolaunch, edge);
}

/// A start at which nothing fails but perhaps the list of the windows marks the two switches as they are, registers
/// first the toggle hotkey and then the track hotkey, as configured or else the
/// defaults, and runs the event loop with their numbers.
pub proof fn start_succeeds(config: MyConfig, list: bool, autolaunch: bool, edge: bool)
    ensures
        ({
            let replies = good_replies(config, list, autolaunch, edge);
            let toggle = chosen(config.key_toggle@, "F8"@);
            let track = chosen(config.key_track@, "Ctrl+Alt+Q"@);
            &&& start_made(replies) == seq![
                StartRequest::ConfigPath,
                StartRequest::LoadConfig,
                StartRequest::ListWindows,
                StartRequest::CreateTray,
                StartRequest::AutolaunchEnabled,
                StartRequest::MarkAutolaunch(autolaunch),
                StartRequest::EdgeEnabled,
                StartRequest::MarkEdge(edge),
                StartRequest::CreateHotkeyManager,
                StartRequest::RegisterHotkey(toggle),
                StartRequest::RegisterHotkey(track),
                StartRequest::InstallConsoleHandler,
            ]
            &&& start_run(replies).asks() == StartRequest::<ChoiceModel>::Run {
                toggle_id: toggle.hotkey.2,
                track_id: track.hotkey.2,
            }
        }),
{
    let good = StartReply::Outcome(Ok(()));
    let s = start_more(Seq::empty(), good);
    let s = start_more(s, StartReply::Config(Ok(config)));
    let s = start_more(s, StartReply::Flag(list));
    let s = start_more(s, good);
    let s = start_more(s, StartReply::Flag(autolaunch));
    let s = start_more(s, StartReply::Done);
    let s = start_more(s, StartReply::Flag(edge));
    let s = start_more(s, StartReply::Done);
    let s = start_more(s, good);
    let s = start_more(s, good);
    let s = start_more(s, good);
    let s = start_more(s, good);
    assert(s =~= good_replies(config, list, autolaunch, edge));
}

/// Why a reply stops the program, if it does.
pub open spec fn cause_in(reply: StartReply) -> Option<String> {
    match reply {
        StartReply::Outcome(Err(cause)) => Some(cause),
        StartReply::Config(Err(cause)) => Some(cause),
        _ => None,
    }
}

/// A call that fails stops the program at once: it gives up with the stage of
/// that call and the cause, and makes no further call. One that does not fail
/// never stops it.
pub proof fn start_fails(phase: StartPhase<ChoiceModel>, reply: StartReply)
    requires
        phase.asks().fits(reply),
    ensures
        match cause_in(reply) {
            Some(cause) => {
                let failure = Failure { stage: phase.stage(), cause };
                &&& phase.next(reply).asks() == StartRequest::<ChoiceModel>::Fail(failure)
                &&& forall|later: StartReply| !#[trigger] phase.next(reply).asks().fits(later)
            },
            None => !(phase.next(reply) is Failed),
        },
{
}

/// The stage at which a call stops the program, in any state that the program
/// makes it in, and the cause is kept as it was given.
pub proof fn failing_call_names_its_stage(
    config: MyConfig,
    toggle: ChoiceModel,
    track: ChoiceModel,
    toggle_id: u32,
    track_id: u32,
    cause: String,
)
    ensures
        ({
            let failed = StartReply::Outcome(Err(cause));
            let at = |stage: Stage| StartPhase::<ChoiceModel>::Failed(Failure { stage, cause });
            &&& StartPhase::<ChoiceModel>::ConfigPath.next(failed) == at(Stage::ConfigPath)
            &&& StartPhase::<ChoiceModel>::LoadConfig.next(StartReply::Config(Err(cause))) == at(
                Stage::ConfigLoad,
            )
            &&& (StartPhase::<ChoiceModel>::CreateTray { config }).next(failed) == at(Stage::Tray)
            &&& (StartPhase::<ChoiceModel>::CreateHotkeyManager { config }).next(failed) == at(
                Stage::HotkeyManager,
            )
            &&& (StartPhase::RegisterToggle { toggle, track }).next(failed) == at(
                Stage::ToggleHotkey,
            )
            &&& (StartPhase::RegisterTrack { toggle_id, track }).next(failed) == at(
                Stage::TrackHotkey,
            )
            &&& (StartPhase::<ChoiceModel>::InstallConsoleHandler { toggle_id, track_id }).next(
                failed,
            ) == at(Stage::ConsoleHandler)
        }),
{
}

/// The event loop runs with the numbers of the hotkeys that were registered: the
/// first one toggles, the second one tracks.
pub proof fn loop_runs_with_what_was_registered(
    toggle: ChoiceModel,
    track: ChoiceModel,
)
    ensures
        ({
            let good = StartReply::Outcome(Ok(()));
            let first = StartPhase::RegisterToggle { toggle, track };
            let second = first.next(good);
            &&& first.asks() == StartRequest::RegisterHotkey(toggle)
            &&& second.asks() == StartRequest::RegisterHotkey(track)
            &&& second.next(good).next(good).asks() == (StartRequest::<ChoiceModel>::Run {
                toggle_id: toggle.hotkey.2,
                track_id: track.hotkey.2,
            })
        }),
{
}

} // verus!
