//! What passes between the router and the code that runs it: the commands
//! that come in, the actions that the router asks for, and the events that
//! report how an action went.

use crate::play::{PlayArguments, PlayPlan, PlayWords};
use vstd::prelude::*;

verus! {

/// How a message is sent.
#[derive(Clone, Copy, Debug, PartialEq, Eq, Structural)]
pub enum Delivery {
    /// As a reply to the message that held the command.
    Reply,
    /// As a plain message in the channel from which the command came.
    Say,
}

/// A command, with what the router needs to know of its sender.
#[derive(Clone, Debug)]
pub enum Command {
    Help,
    /// `caller_channel` is the voice channel that the sender is in, if any.
    Join { caller_channel: Option<u64> },
    Play { arguments: PlayArguments },
    Mute,
    Unmute,
    Leave,
}

/// A `Command` with its words as sequences of characters.
pub enum CommandView {
    Help,
    Join { caller_channel: Option<u64> },
    Play { words: PlayWords },
    Mute,
    Unmute,
    Leave,
}

impl View for Command {
    type V = CommandView;

    open spec fn view(&self) -> CommandView {
        match *self {
            Command::Help => CommandView::Help,
            Command::Join { caller_channel } => CommandView::Join { caller_channel },
            Command::Play { arguments } => CommandView::Play { words: arguments@ },
            Command::Mute => CommandView::Mute,
            Command::Unmute => CommandView::Unmute,
            Command::Leave => CommandView::Leave,
        }
    }
}

/// A request to play the audio found at an address.
#[derive(Clone, Debug, PartialEq, Eq)]
pub struct PlaybackRequest {
    pub url: String,
    /// Whether the sender asked for the audio to repeat without end.
    pub loop_enabled: bool,
}

/// What the router asks the outside to do next. Each action is answered by
/// one `Event`, except `Finish`, which ends the handling of the command.
#[derive(Clone, Debug, PartialEq, Eq)]
pub enum Action {
    /// Send `text`. Answered by `Done`, or by `Failed` when it could not be
    /// delivered.
    Send { delivery: Delivery, text: String },
    /// Join the voice channel `channel` of the guild, creating the guild's
    /// session or attaching to it. Answered by `Done` or `Failed`.
    Connect { channel: u64 },
    /// Register the observer of track errors on the session. Answered by
    /// `Done`.
    WatchTrackErrors,
    /// Stop receiving audio in the session. Answered by `Done` or `Failed`.
    Deafen,
    /// Look up the guild's session. Answered by `Session`.
    FindSession,
    /// Ask the session whether it is muted. Answered by `Muted`.
    ReadMute,
    /// Mute or unmute the session. Answered by `Done` or `Failed`.
    SetMute { mute: bool },
    /// Play the requested audio in place of whatever is playing. Answered by
    /// `Done`, as soon as the request is made.
    Play { request: PlaybackRequest },
    /// Make the track just started repeat without end. Answered by `Done`
    /// or `Failed`.
    EnableLoop,
    /// Remove the guild's session. Answered by `Done` or `Failed`.
    Disconnect,
    /// Nothing is left to do.
    Finish,
}

/// An `Action` with its texts as sequences of characters.
pub enum ActionView {
    Send { delivery: Delivery, text: Seq<char> },
    Connect { channel: u64 },
    WatchTrackErrors,
    Deafen,
    FindSession,
    ReadMute,
    SetMute { mute: bool },
    Play { url: Seq<char>, loop_enabled: bool },
    EnableLoop,
    Disconnect,
    Finish,
}

impl View for Action {
    type V = ActionView;

    open spec fn view(&self) -> ActionView {
        match *self {
            Action::Send { delivery, text } => ActionView::Send { delivery, text: text@ },
            Action::Connect { channel } => ActionView::Connect { channel },
            Action::WatchTrackErrors => ActionView::WatchTrackErrors,
            Action::Deafen => ActionView::Deafen,
            Action::FindSession => ActionView::FindSession,
            Action::ReadMute => ActionView::ReadMute,
            Action::SetMute { mute } => ActionView::SetMute { mute },
            Action::Play { request } => ActionView::Play {
                url: request.url@,
                loop_enabled: request.loop_enabled,
            },
            Action::EnableLoop => ActionView::EnableLoop,
            Action::Disconnect => ActionView::Disconnect,
            Action::Finish => ActionView::Finish,
        }
    }
}

/// How the action that the router asked for went.
#[derive(Clone, Debug, PartialEq, Eq)]
pub enum Event {
    /// The action was carried out.
    Done,
    /// The action failed; `reason` is the failure in words.
    Failed { reason: String },
    /// The answer to `FindSession`: whether the guild has a session.
    Session { present: bool },
    /// The answer to `ReadMute`: whether the session is muted.
    Muted { muted: bool },
}

/// An `Event` with its text as a sequence of characters.
pub enum EventView {
    Done,
    Failed { reason: Seq<char> },
    Session { present: bool },
    Muted { muted: bool },
}

impl View for Event {
    type V = EventView;

    open spec fn view(&self) -> EventView {
        match *self {
            Event::Done => EventView::Done,
            Event::Failed { reason } => EventView::Failed { reason: reason@ },
            Event::Session { present } => EventView::Session { present },
            Event::Muted { muted } => EventView::Muted { muted },
        }
    }
}

/// Where the handling of a command stands: which action is under way and
/// what is to follow it.
#[derive(Clone, Copy, Debug, PartialEq, Eq, Structural)]
pub enum State {
    /// `join`: joining the caller's channel.
    JoinConnecting,
    /// `join`: telling the caller that the bot has joined.
    JoinAnnouncing,
    /// `join`: registering the observer of track errors.
    JoinWatching,
    /// `join`: deafening the session.
    JoinDeafening,
    /// `play`: looking up the session in which to play.
    PlayLocating { plan: PlayPlan },
    /// `play`: handing in the playback request.
    PlayStarting { plan: PlayPlan },
    /// `play`: switching on repetition.
    PlayLooping { plan: PlayPlan },
    /// `play`: telling the caller how switching on repetition went.
    PlayReportingLoop { plan: PlayPlan },
    /// `mute`: looking up the session.
    MuteLocating,
    /// `mute`: asking the session whether it is muted.
    MuteInspecting,
    /// `mute`: muting the session.
    MuteRequesting,
    /// `mute`: telling the caller that muting failed.
    MuteReportingFailure,
    /// `unmute`: looking up the session.
    UnmuteLocating,
    /// `unmute`: unmuting the session.
    UnmuteRequesting,
    /// `unmute`: telling the caller that unmuting failed.
    UnmuteReportingFailure,
    /// `leave`: looking up the session.
    LeaveLocating,
    /// `leave`: removing the session.
    LeaveRequesting,
    /// `leave`: telling the caller that leaving failed.
    LeaveReportingFailure,
    /// Any command: sending its last message.
    Closing,
    /// Any command: nothing is under way and nothing will follow.
    Finished,
}

/// One move of the router: the action to carry out now, and where the
/// handling of the command stands while it is carried out.
#[derive(Clone, Debug, PartialEq, Eq)]
pub struct Step {
    pub state: State,
    pub action: Action,
}

/// A `Step` with its texts as sequences of characters.
pub struct StepView {
    pub state: State,
    pub action: ActionView,
}

impl View for Step {
    type V = StepView;

    open spec fn view(&self) -> StepView {
        StepView { state: self.state, action: self.action@ }
    }
}

} // verus!
