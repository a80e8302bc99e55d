//! A model of a guild's voice session, and of how the handling of a command
//! unfolds against it. The model exists in proofs only: the session itself
//! is kept by the voice subsystem.

use crate::protocol::{ActionView, EventView, State, StepView};
use crate::router::{next_step, steps_left};
use vstd::prelude::*;

verus! {

/// What a session is playing.
pub enum Playback {
    Idle,
    /// The audio at `url`, once.
    Playing { url: Seq<char> },
    /// The audio at `url`, again and again.
    Looping { url: Seq<char> },
}

/// The voice session of a guild.
pub enum Voice {
    /// The bot is in no voice channel of the guild.
    NoSession,
    /// The bot is in a voice channel of the guild.
    Active { muted: bool, playback: Playback },
}

/// The session after `action` was carried out in `voice`.
pub open spec fn effect(voice: Voice, action: ActionView) -> Voice {
    match (voice, action) {
        (Voice::NoSession, ActionView::Connect { .. }) => Voice::Active {
            muted: false,
            playback: Playback::Idle,
        },
        (Voice::Active { playback, .. }, ActionView::SetMute { mute }) => Voice::Active {
            muted: mute,
            playback,
        },
        (Voice::Active { muted, .. }, ActionView::Play { url, .. }) => Voice::Active {
            muted,
            playback: Playback::Playing { url },
        },
        (
            Voice::Active { muted, playback: Playback::Playing { url } },
            ActionView::EnableLoop,
        ) => Voice::Active { muted, playback: Playback::Looping { url } },
        (_, ActionView::Disconnect) => Voice::NoSession,
        _ => voice,
    }
}

/// The event with which a session in state `voice` answers `action` when
/// nothing fails.
pub open spec fn answer(voice: Voice, action: ActionView) -> EventView {
    match action {
        ActionView::FindSession => EventView::Session { present: voice is Active },
        ActionView::ReadMute => EventView::Muted {
            muted: voice matches Voice::Active { muted, .. } && muted,
        },
        _ => EventView::Done,
    }
}

/// The actions that the handling of a command asks for, from `step` on,
/// when the actions are answered by `events` in turn. The handling stops at
/// `Finish`, or where the events run out.
pub open spec fn transcript(step: StepView, events: Seq<EventView>) -> Seq<ActionView>
    decreases events.len(),
{
    if step.action is Finish || events.len() == 0 {
        seq![step.action]
    } else {
        seq![step.action] + transcript(next_step(step.state, events[0]), events.skip(1))
    }
}

/// The handling of a command from beginning to end: the actions asked for,
/// in order, and the session that is left.
pub struct Run {
    pub actions: Seq<ActionView>,
    pub voice: Voice,
}

/// The handling of a command, from `step` on, by a session in state `voice`
/// in which nothing fails: each action is carried out and answered as the
/// session then stands.
pub open spec fn served(step: StepView, voice: Voice) -> Run
    decreases steps_left(step.state),
{
    if step.action is Finish || step.state == State::Finished {
        Run { actions: seq![step.action], voice }
    } else {
        let rest = served(
            next_step(step.state, answer(voice, step.action)),
            effect(voice, step.action),
        );
        Run { actions: seq![step.action] + rest.actions, voice: rest.voice }
    }
}

/// Whether `actions` holds a request to play.
pub open spec fn asks_to_play(actions: Seq<ActionView>) -> bool {
    exists|i: int| 0 <= i < actions.len() && #[trigger] actions[i] is Play
}

/// Whether `actions` holds a request to mute or unmute.
pub open spec fn asks_to_set_mute(actions: Seq<ActionView>) -> bool {
    exists|i: int| 0 <= i < actions.len() && #[trigger] actions[i] is SetMute
}

/// Whether `actions` holds a request to join a voice channel.
pub open spec fn asks_to_connect(actions: Seq<ActionView>) -> bool {
    exists|i: int| 0 <= i < actions.len() && #[trigger] actions[i] is Connect
}

/// Whether `actions` holds a request to remove the session.
pub open spec fn asks_to_disconnect(actions: Seq<ActionView>) -> bool {
    exists|i: int| 0 <= i < actions.len() && #[trigger] actions[i] is Disconnect
}

} // verus!
