//! The command router: for each command, which actions it asks for, in
//! which order, and what it tells the caller.
//!
//! The router never waits. `General::begin` gives the first action of a
//! command; the caller carries it out and reports the outcome to
//! `General::advance`, which gives the next one, until the action is
//! `Finish`.

use crate::episodes::{episode_link, resolve, valid_episode};
use crate::messages::{
    failure_report, now_playing, now_playing_text, owned, ALREADY_MUTED, BYE, ENTER_DIGITS,
    ENTER_EPISODE, ENTER_IN_RANGE, FAILED_TO_DEAFEN, FAILED_TO_LEAVE, FAILED_TO_LOOP,
    FAILED_TO_MUTE, FAILED_TO_UNMUTE, HELP, JOINED, JOIN_A_CHANNEL_FIRST, LOOP_ENABLED,
    LOOP_OR_EMPTY, NOT_IN_A_CHANNEL, NOWHERE_TO_PLAY, NOWHERE_TO_UNMUTE, NOW_MUTED, NOW_UNMUTED,
};
use crate::play::{play_verdict, validate_play, PlayArguments, PlayRejection, PlayWords};
use crate::protocol::{
    Action, ActionView, Command, CommandView, Delivery, Event, EventView, PlaybackRequest, State,
    Step, StepView,
};
use vstd::prelude::*;

verus! {

/// The group of commands that the bot answers: `help`, `join`, `play`,
/// `mute`, `unmute` and `leave`.
#[derive(Clone, Copy, Debug)]
pub struct General;

/// The step that sends `text` and goes on from `state` when that is done.
pub open spec fn send_step(state: State, delivery: Delivery, text: Seq<char>) -> StepView {
    StepView { state, action: ActionView::Send { delivery, text } }
}

/// The step that sends `text` as the last message of a command.
pub open spec fn last_message(delivery: Delivery, text: Seq<char>) -> StepView {
    send_step(State::Closing, delivery, text)
}

/// The step that ends the handling of a command.
pub open spec fn finish_step() -> StepView {
    StepView { state: State::Finished, action: ActionView::Finish }
}

/// Whether `event` reports that an action was attempted, whatever came of
/// it.
pub open spec fn settled(event: EventView) -> bool {
    event is Done || event is Failed
}

/// How a rejected `play` command is answered.
pub open spec fn rejection_step(rejection: PlayRejection) -> StepView {
    match rejection {
        PlayRejection::MissingEpisode => last_message(Delivery::Say, ENTER_EPISODE@),
        PlayRejection::BadModifier => last_message(Delivery::Reply, LOOP_OR_EMPTY@),
        PlayRejection::NotANumber => last_message(Delivery::Reply, ENTER_DIGITS@),
        PlayRejection::OutOfRange => last_message(Delivery::Reply, ENTER_IN_RANGE@),
    }
}

/// The first step of `help`: the usage text, and nothing after it.
pub open spec fn help_step() -> StepView {
    last_message(Delivery::Reply, HELP@)
}

/// The first step of `join`. A caller who is in no voice channel is told to
/// join one, and nothing else happens; otherwise the bot joins the caller's
/// channel.
pub open spec fn join_step(caller_channel: Option<u64>) -> StepView {
    match caller_channel {
        None => last_message(Delivery::Reply, JOIN_A_CHANNEL_FIRST@),
        Some(channel) => StepView {
            state: State::JoinConnecting,
            action: ActionView::Connect { channel },
        },
    }
}

/// The first step of `play`. Words that break a rule are answered with the
/// message for the first rule they break, and nothing else happens;
/// otherwise the session is looked up.
pub open spec fn play_step(words: PlayWords) -> StepView {
    match play_verdict(words) {
        Err(rejection) => rejection_step(rejection),
        Ok(plan) => StepView { state: State::PlayLocating { plan }, action: ActionView::FindSession },
    }
}

/// The first step of `mute`: the session is looked up.
pub open spec fn mute_step() -> StepView {
    StepView { state: State::MuteLocating, action: ActionView::FindSession }
}

/// The first step of `unmute`: the session is looked up.
pub open spec fn unmute_step() -> StepView {
    StepView { state: State::UnmuteLocating, action: ActionView::FindSession }
}

/// The first step of `leave`: the session is looked up.
pub open spec fn leave_step() -> StepView {
    StepView { state: State::LeaveLocating, action: ActionView::FindSession }
}

/// The first step of a command.
pub open spec fn first_step(command: CommandView) -> StepView {
    match command {
        CommandView::Help => help_step(),
        CommandView::Join { caller_channel } => join_step(caller_channel),
        CommandView::Play { words } => play_step(words),
        CommandView::Mute => mute_step(),
        CommandView::Unmute => unmute_step(),
        CommandView::Leave => leave_step(),
    }
}

/// The step that follows when the action under way in `state` is answered
/// by `event`. An event that cannot answer that action ends the handling of
/// the command. So does a plan to play a number that names no episode:
/// nothing is played for it.
pub open spec fn next_step(state: State, event: EventView) -> StepView {
    match state {
        State::JoinConnecting => match event {
            EventView::Done => send_step(State::JoinAnnouncing, Delivery::Reply, JOINED@),
            _ => finish_step(),
        },
        State::JoinAnnouncing => if settled(event) {
            StepView { state: State::JoinWatching, action: ActionView::WatchTrackErrors }
        } else {
            finish_step()
        },
        State::JoinWatching => match event {
            EventView::Done => StepView { state: State::JoinDeafening, action: ActionView::Deafen },
            _ => finish_step(),
        },
        State::JoinDeafening => match event {
            EventView::Failed { reason } => last_message(Delivery::Say, FAILED_TO_DEAFEN@ + reason),
            _ => finish_step(),
        },
        State::PlayLocating { plan } => match event {
            EventView::Session { present: true } => if valid_episode(plan.episode as int) {
                StepView {
                    state: State::PlayStarting { plan },
                    action: ActionView::Play {
                        url: episode_link(plan.episode as int),
                        loop_enabled: plan.loop_enabled,
                    },
                }
            } else {
                finish_step()
            },
            EventView::Session { present: false } => last_message(Delivery::Say, NOWHERE_TO_PLAY@),
            _ => finish_step(),
        },
        State::PlayStarting { plan } => match event {
            EventView::Done => if plan.loop_enabled {
                StepView { state: State::PlayLooping { plan }, action: ActionView::EnableLoop }
            } else {
                last_message(Delivery::Say, now_playing_text(plan.episode as int))
            },
            _ => finish_step(),
        },
        State::PlayLooping { plan } => match event {
            EventView::Done => send_step(
                State::PlayReportingLoop { plan },
                Delivery::Reply,
                LOOP_ENABLED@,
            ),
            EventView::Failed { reason } => send_step(
                State::PlayReportingLoop { plan },
                Delivery::Reply,
                FAILED_TO_LOOP@ + reason,
            ),
            _ => finish_step(),
        },
        State::PlayReportingLoop { plan } => if settled(event) {
            last_message(Delivery::Say, now_playing_text(plan.episode as int))
        } else {
            finish_step()
        },
        State::MuteLocating => match event {
            EventView::Session { present: true } => StepView {
                state: State::MuteInspecting,
                action: ActionView::ReadMute,
            },
            EventView::Session { present: false } => last_message(
                Delivery::Reply,
                NOT_IN_A_CHANNEL@,
            ),
            _ => finish_step(),
        },
        State::MuteInspecting => match event {
            EventView::Muted { muted: true } => last_message(Delivery::Say, ALREADY_MUTED@),
            EventView::Muted { muted: false } => StepView {
                state: State::MuteRequesting,
                action: ActionView::SetMute { mute: true },
            },
            _ => finish_step(),
        },
        State::MuteRequesting => match event {
            EventView::Done => last_message(Delivery::Say, NOW_MUTED@),
            EventView::Failed { reason } => send_step(
                State::MuteReportingFailure,
                Delivery::Say,
                FAILED_TO_MUTE@ + reason,
            ),
            _ => finish_step(),
        },
        State::MuteReportingFailure => if settled(event) {
            last_message(Delivery::Say, NOW_MUTED@)
        } else {
            finish_step()
        },
        State::UnmuteLocating => match event {
            EventView::Session { present: true } => StepView {
                state: State::UnmuteRequesting,
                action: ActionView::SetMute { mute: false },
            },
            EventView::Session { present: false } => last_message(
                Delivery::Say,
                NOWHERE_TO_UNMUTE@,
            ),
            _ => finish_step(),
        },
        State::UnmuteRequesting => match event {
            EventView::Done => last_message(Delivery::Say, NOW_UNMUTED@),
            EventView::Failed { reason } => send_step(
                State::UnmuteReportingFailure,
                Delivery::Say,
                FAILED_TO_UNMUTE@ + reason,
            ),
            _ => finish_step(),
        },
        State::UnmuteReportingFailure => if settled(event) {
            last_message(Delivery::Say, NOW_UNMUTED@)
        } else {
            finish_step()
        },
        State::LeaveLocating => match event {
            EventView::Session { present: true } => StepView {
                state: State::LeaveRequesting,
                action: ActionView::Disconnect,
            },
            EventView::Session { present: false } => last_message(
                Delivery::Reply,
                NOT_IN_A_CHANNEL@,
            ),
            _ => finish_step(),
        },
        State::LeaveRequesting => match event {
            EventView::Done => last_message(Delivery::Say, BYE@),
            EventView::Failed { reason } => send_step(
                State::LeaveReportingFailure,
                Delivery::Say,
                FAILED_TO_LEAVE@ + reason,
            ),
            _ => finish_step(),
        },
        State::LeaveReportingFailure => if settled(event) {
            last_message(Delivery::Say, BYE@)
        } else {
            finish_step()
        },
        State::Closing => finish_step(),
        State::Finished => finish_step(),
    }
}

/// The greatest number of steps that can still follow the one under way in
/// `state`.
pub open spec fn steps_left(state: State) -> nat {
    match state {
        State::JoinConnecting => 5,
        State::JoinAnnouncing => 4,
        State::JoinWatching => 3,
        State::JoinDeafening => 2,
        State::PlayLocating { .. } => 5,
        State::PlayStarting { .. } => 4,
        State::PlayLooping { .. } => 3,
        State::PlayReportingLoop { .. } => 2,
        State::MuteLocating => 5,
        State::MuteInspecting => 4,
        State::MuteRequesting => 3,
        State::MuteReportingFailure => 2,
        State::UnmuteLocating => 4,
        State::UnmuteRequesting => 3,
        State::UnmuteReportingFailure => 2,
        State::LeaveLocating => 4,
        State::LeaveRequesting => 3,
        State::LeaveReportingFailure => 2,
        State::Closing => 1,
        State::Finished => 0,
    }
}

fn send(state: State, delivery: Delivery, text: String) -> (step: Step)
    ensures
        step@ == send_step(state, delivery, text@),
{
    Step { state, action: Action::Send { delivery, text } }
}

fn last(delivery: Delivery, text: String) -> (step: Step)
    ensures
        step@ == last_message(delivery, text@),
{
    send(State::Closing, delivery, text)
}

fn ask(state: State, action: Action) -> (step: Step)
    ensures
        step@ == (StepView { state, action: action@ }),
{
    Step { state, action }
}

fn finish() -> (step: Step)
    ensures
        step@ == finish_step(),
{
    Step { state: State::Finished, action: Action::Finish }
}

fn is_settled(event: &Event) -> (yes: bool)
    ensures
        yes == settled(event@),
{
    match event {
        Event::Done => true,
        Event::Failed { .. } => true,
        _ => false,
    }
}

impl General {
    /// Begins `help`.
    pub fn help() -> (step: Step)
        ensures
            step@ == help_step(),
    {
        last(Delivery::Reply, owned(HELP))
    }

    /// Begins `join` for a caller who is in the voice channel
    /// `caller_channel`, or in none.
    pub fn join(caller_channel: Option<u64>) -> (step: Step)
        ensures
            step@ == join_step(caller_channel),
    {
        match caller_channel {
            None => last(Delivery::Reply, owned(JOIN_A_CHANNEL_FIRST)),
            Some(channel) => ask(State::JoinConnecting, Action::Connect { channel }),
        }
    }

    /// Begins `play` with the words that followed it.
    pub fn play(arguments: &PlayArguments) -> (step: Step)
        ensures
            step@ == play_step(arguments@),
    {
        match validate_play(arguments) {
            Err(PlayRejection::MissingEpisode) => last(Delivery::Say, owned(ENTER_EPISODE)),
            Err(PlayRejection::BadModifier) => last(Delivery::Reply, owned(LOOP_OR_EMPTY)),
            Err(PlayRejection::NotANumber) => last(Delivery::Reply, owned(ENTER_DIGITS)),
            Err(PlayRejection::OutOfRange) => last(Delivery::Reply, owned(ENTER_IN_RANGE)),
            Ok(plan) => ask(State::PlayLocating { plan }, Action::FindSession),
        }
    }

    /// Begins `mute`.
    pub fn mute() -> (step: Step)
        ensures
            step@ == mute_step(),
    {
        ask(State::MuteLocating, Action::FindSession)
    }

    /// Begins `unmute`.
    pub fn unmute() -> (step: Step)
        ensures
            step@ == unmute_step(),
    {
        ask(State::UnmuteLocating, Action::FindSession)
    }

    /// Begins `leave`.
    pub fn leave() -> (step: Step)
        ensures
            step@ == leave_step(),
    {
        ask(State::LeaveLocating, Action::FindSession)
    }

    /// Begins the handling of `command`.
    pub fn begin(command: &Command) -> (step: Step)
        ensures
            step@ == first_step(command@),
    {
        match command {
            Command::Help => General::help(),
            Command::Join { caller_channel } => General::join(*caller_channel),
            Command::Play { arguments } => General::play(arguments),
            Command::Mute => General::mute(),
            Command::Unmute => General::unmute(),
            Command::Leave => General::leave(),
        }
    }

    /// Goes on with a command: `event` reports how the action under way in
    /// `state` went. Each call brings the command nearer to its end.
    pub fn advance(state: State, event: &Event) -> (step: Step)
        ensures
            step@ == next_step(state, event@),
            state != State::Finished ==> steps_left(step.state) < steps_left(state),
            step.action is Finish <==> step.state == State::Finished,
    {
        match state {
            State::JoinConnecting => match event {
                Event::Done => send(State::JoinAnnouncing, Delivery::Reply, owned(JOINED)),
                _ => finish(),
            },
            State::JoinAnnouncing => if is_settled(event) {
                ask(State::JoinWatching, Action::WatchTrackErrors)
            } else {
                finish()
            },
            State::JoinWatching => match event {
                Event::Done => ask(State::JoinDeafening, Action::Deafen),
                _ => finish(),
            },
            State::JoinDeafening => match event {
                Event::Failed { reason } => last(
                    Delivery::Say,
                    failure_report(FAILED_TO_DEAFEN, reason.as_str()),
                ),
                _ => finish(),
            },
            State::PlayLocating { plan } => match event {
                Event::Session { present: true } => match resolve(plan.episode) {
                    Ok(url) => ask(
                        State::PlayStarting { plan },
                        Action::Play {
                            request: PlaybackRequest { url, loop_enabled: plan.loop_enabled },
                        },
                    ),
                    Err(_) => finish(),
                },
                Event::Session { present: false } => last(Delivery::Say, owned(NOWHERE_TO_PLAY)),
                _ => finish(),
            },
            State::PlayStarting { plan } => match event {
                Event::Done => if plan.loop_enabled {
                    ask(State::PlayLooping { plan }, Action::EnableLoop)
                } else {
                    last(Delivery::Say, now_playing(plan.episode))
                },
                _ => finish(),
            },
            State::PlayLooping { plan } => match event {
                Event::Done => send(
                    State::PlayReportingLoop { plan },
                    Delivery::Reply,
                    owned(LOOP_ENABLED),
                ),
                Event::Failed { reason } => send(
                    State::PlayReportingLoop { plan },
                    Delivery::Reply,
                    failure_report(FAILED_TO_LOOP, reason.as_str()),
                ),
                _ => finish(),
            },
            State::PlayReportingLoop { plan } => if is_settled(event) {
                last(Delivery::Say, now_playing(plan.episode))
            } else {
                finish()
            },
            State::MuteLocating => match event {
                Event::Session { present: true } => ask(State::MuteInspecting, Action::ReadMute),
                Event::Session { present: false } => last(Delivery::Reply, owned(NOT_IN_A_CHANNEL)),
                _ => finish(),
            },
            State::MuteInspecting => match event {
                Event::Muted { muted: true } => last(Delivery::Say, owned(ALREADY_MUTED)),
                Event::Muted { muted: false } => ask(
                    State::MuteRequesting,
                    Action::SetMute { mute: true },
                ),
                _ => finish(),
            },
            State::MuteRequesting => match event {
                Event::Done => last(Delivery::Say, owned(NOW_MUTED)),
                Event::Failed { reason } => send(
                    State::MuteReportingFailure,
                    Delivery::Say,
                    failure_report(FAILED_TO_MUTE, reason.as_str()),
                ),
                _ => finish(),
            },
            State::MuteReportingFailure => if is_settled(event) {
                last(Delivery::Say, owned(NOW_MUTED))
            } else {
                finish()
            },
            State::UnmuteLocating => match event {
                Event::Session { present: true } => ask(
                    State::UnmuteRequesting,
                    Action::SetMute { mute: false },
                ),
                Event::Session { present: false } => last(Delivery::Say, owned(NOWHERE_TO_UNMUTE)),
                _ => finish(),
            },
            State::UnmuteRequesting => match event {
                Event::Done => last(Delivery::Say, owned(NOW_UNMUTED)),
                Event::Failed { reason } => send(
                    State::UnmuteReportingFailure,
                    Delivery::Say,
                    failure_report(FAILED_TO_UNMUTE, reason.as_str()),
                ),
                _ => finish(),
            },
            State::UnmuteReportingFailure => if is_settled(event) {
                last(Delivery::Say, owned(NOW_UNMUTED))
            } else {
                finish()
            },
            State::LeaveLocating => match event {
                Event::Session { present: true } => ask(State::LeaveRequesting, Action::Disconnect),
                Event::Session { present: false } => last(Delivery::Reply, owned(NOT_IN_A_CHANNEL)),
                _ => finish(),
            },
            State::LeaveRequesting => match event {
                Event::Done => last(Delivery::Say, owned(BYE)),
                Event::Failed { reason } => send(
                    State::LeaveReportingFailure,
                    Delivery::Say,
                    failure_report(FAILED_TO_LEAVE, reason.as_str()),
                ),
                _ => finish(),
            },
            State::LeaveReportingFailure => if is_settled(event) {
                last(Delivery::Say, owned(BYE))
            } else {
                finish()
            },
            State::Closing => finish(),
            State::Finished => finish(),
        }
    }
}

} // verus!
