//! What holds of the router whatever the command and whatever the outcome
//! of the actions it asks for.

use crate::episodes::episode_link;
use crate::messages::{
    now_playing_text, ALREADY_MUTED, JOIN_A_CHANNEL_FIRST, LOOP_ENABLED, NOT_IN_A_CHANNEL,
    NOW_MUTED,
};
use crate::play::{play_verdict, PlayWords};
use crate::protocol::{ActionView, CommandView, Delivery, EventView, State, StepView};
use crate::router::{
    first_step, join_step, leave_step, mute_step, next_step, play_step, rejection_step,
    steps_left,
};
use crate::session::{
    asks_to_connect, asks_to_disconnect, asks_to_play, asks_to_set_mute, served, transcript,
    Playback, Voice,
};
use vstd::prelude::*;

verus! {

/// A `play` command whose words break a rule is answered with the message
/// for the first rule they break and with nothing else: whatever is reported
/// back, no session is looked up and nothing is played.
pub proof fn lemma_rejected_play_plays_nothing(words: PlayWords, events: Seq<EventView>)
    requires
        play_verdict(words) is Err,
    ensures
        transcript(play_step(words), events) == if events.len() == 0 {
            seq![rejection_step(play_verdict(words)->Err_0).action]
        } else {
            seq![rejection_step(play_verdict(words)->Err_0).action, ActionView::Finish]
        },
        !asks_to_play(transcript(play_step(words), events)),
{
    reveal_with_fuel(transcript, 3);
    let actions = transcript(play_step(words), events);
    let message = rejection_step(play_verdict(words)->Err_0).action;
    assert(message is Send);
    if events.len() == 0 {
        assert(actions =~= seq![message]);
    } else {
        assert(actions =~= seq![message, ActionView::Finish]);
    }
}

/// A `play` command whose words meet every rule, sent while the bot is in
/// a voice channel, starts the episode it names. With `loop` the episode
/// then repeats without end and the caller is told so; either way the
/// episode is announced last.
pub proof fn lemma_accepted_play_plays(words: PlayWords, voice: Voice)
    requires
        play_verdict(words) is Ok,
        voice is Active,
    ensures
        ({
            let plan = play_verdict(words)->Ok_0;
            let url = episode_link(plan.episode as int);
            let run = served(play_step(words), voice);
            let request = ActionView::Play { url, loop_enabled: plan.loop_enabled };
            let announcement = ActionView::Send {
                delivery: Delivery::Say,
                text: now_playing_text(plan.episode as int),
            };
            if plan.loop_enabled {
                &&& run.actions == seq![
                    ActionView::FindSession,
                    request,
                    ActionView::EnableLoop,
                    ActionView::Send { delivery: Delivery::Reply, text: LOOP_ENABLED@ },
                    announcement,
                    ActionView::Finish,
                ]
                &&& run.voice == (Voice::Active {
                    muted: voice->muted,
                    playback: Playback::Looping { url },
                })
            } else {
                &&& run.actions == seq![
                    ActionView::FindSession,
                    request,
                    announcement,
                    ActionView::Finish,
                ]
                &&& run.voice == (Voice::Active {
                    muted: voice->muted,
                    playback: Playback::Playing { url },
                })
            }
        }),
{
    reveal_with_fuel(served, 7);
    let plan = play_verdict(words)->Ok_0;
    let url = episode_link(plan.episode as int);
    let run = served(play_step(words), voice);
    let request = ActionView::Play { url, loop_enabled: plan.loop_enabled };
    let announcement = ActionView::Send {
        delivery: Delivery::Say,
        text: now_playing_text(plan.episode as int),
    };
    if plan.loop_enabled {
        assert(run.actions =~= seq![
            ActionView::FindSession,
            request,
            ActionView::EnableLoop,
            ActionView::Send { delivery: Delivery::Reply, text: LOOP_ENABLED@ },
            announcement,
            ActionView::Finish,
        ]);
    } else {
        assert(run.actions =~= seq![
            ActionView::FindSession,
            request,
            announcement,
            ActionView::Finish,
        ]);
    }
}

/// `mute` sent twice in a row to a session that is not muted: the first
/// mutes the session and says so; the second finds the session muted, says
/// that, and asks for no muting.
pub proof fn lemma_mute_twice(voice: Voice)
    requires
        voice matches Voice::Active { muted, .. } && !muted,
    ensures
        ({
            let first = served(mute_step(), voice);
            let second = served(mute_step(), first.voice);
            &&& first.voice == (Voice::Active { muted: true, playback: voice->playback })
            &&& first.actions == seq![
                ActionView::FindSession,
                ActionView::ReadMute,
                ActionView::SetMute { mute: true },
                ActionView::Send { delivery: Delivery::Say, text: NOW_MUTED@ },
                ActionView::Finish,
            ]
            &&& second.voice == first.voice
            &&& second.actions == seq![
                ActionView::FindSession,
                ActionView::ReadMute,
                ActionView::Send { delivery: Delivery::Say, text: ALREADY_MUTED@ },
                ActionView::Finish,
            ]
            &&& !asks_to_set_mute(second.actions)
        }),
{
    reveal_with_fuel(served, 6);
    let first = served(mute_step(), voice);
    let second = served(mute_step(), first.voice);
    assert(first.actions =~= seq![
        ActionView::FindSession,
        ActionView::ReadMute,
        ActionView::SetMute { mute: true },
        ActionView::Send { delivery: Delivery::Say, text: NOW_MUTED@ },
        ActionView::Finish,
    ]);
    assert(second.actions =~= seq![
        ActionView::FindSession,
        ActionView::ReadMute,
        ActionView::Send { delivery: Delivery::Say, text: ALREADY_MUTED@ },
        ActionView::Finish,
    ]);
}

/// `leave` sent while the bot is in no voice channel is answered with "not
/// in a voice channel" and with nothing else: whatever is reported back
/// after the session was found missing, no removal is asked for.
pub proof fn lemma_leave_without_session(events: Seq<EventView>)
    requires
        events.len() > 0,
        events[0] == (EventView::Session { present: false }),
    ensures
        transcript(leave_step(), events) == if events.len() == 1 {
            seq![
                ActionView::FindSession,
                ActionView::Send { delivery: Delivery::Reply, text: NOT_IN_A_CHANNEL@ },
            ]
        } else {
            seq![
                ActionView::FindSession,
                ActionView::Send { delivery: Delivery::Reply, text: NOT_IN_A_CHANNEL@ },
                ActionView::Finish,
            ]
        },
        !asks_to_disconnect(transcript(leave_step(), events)),
        served(leave_step(), Voice::NoSession).voice == Voice::NoSession,
        !asks_to_disconnect(served(leave_step(), Voice::NoSession).actions),
{
    reveal_with_fuel(transcript, 4);
    reveal_with_fuel(served, 4);
    assert(served(leave_step(), Voice::NoSession).actions =~= seq![
        ActionView::FindSession,
        ActionView::Send { delivery: Delivery::Reply, text: NOT_IN_A_CHANNEL@ },
        ActionView::Finish,
    ]);
    let actions = transcript(leave_step(), events);
    let reply = ActionView::Send { delivery: Delivery::Reply, text: NOT_IN_A_CHANNEL@ };
    if events.len() == 1 {
        assert(events.skip(1).len() == 0);
        assert(actions =~= seq![ActionView::FindSession, reply]);
    } else {
        assert(events.skip(1).len() > 0);
        assert(actions =~= seq![ActionView::FindSession, reply, ActionView::Finish]);
    }
}

/// `join` sent by someone who is in no voice channel is answered with the
/// advice to join one and with nothing else: whatever is reported back, no
/// voice channel is joined.
pub proof fn lemma_join_without_channel(events: Seq<EventView>)
    ensures
        transcript(join_step(None), events) == if events.len() == 0 {
            seq![ActionView::Send { delivery: Delivery::Reply, text: JOIN_A_CHANNEL_FIRST@ }]
        } else {
            seq![
                ActionView::Send { delivery: Delivery::Reply, text: JOIN_A_CHANNEL_FIRST@ },
                ActionView::Finish,
            ]
        },
        !asks_to_connect(transcript(join_step(None), events)),
{
    reveal_with_fuel(transcript, 3);
    let actions = transcript(join_step(None), events);
    let reply = ActionView::Send { delivery: Delivery::Reply, text: JOIN_A_CHANNEL_FIRST@ };
    if events.len() == 0 {
        assert(actions =~= seq![reply]);
    } else {
        assert(actions =~= seq![reply, ActionView::Finish]);
    }
}

/// Whether a step is one that the router gives: its action is `Finish`
/// exactly when nothing is under way.
pub open spec fn coherent(step: StepView) -> bool {
    step.action is Finish <==> step.state == State::Finished
}

/// Every step but the last brings the handling of a command nearer to its
/// end, and the handling is at its end exactly when the action is `Finish`.
pub proof fn lemma_every_step_nears_the_end(state: State, event: EventView)
    ensures
        state != State::Finished ==> steps_left(next_step(state, event).state) < steps_left(state),
        coherent(next_step(state, event)),
{
}

/// The first step of a command asks for something, and at most five steps
/// can follow it.
pub proof fn lemma_first_step_is_near_the_end(command: CommandView)
    ensures
        steps_left(first_step(command).state) <= 5,
        coherent(first_step(command)),
        first_step(command).action !is Finish,
{
}

/// The handling of a command ends, whatever is reported back: from a step
/// of the router on, no more actions are asked for than `steps_left` says,
/// `Finish` included, and once that many events have come in the last
/// action is `Finish`.
pub proof fn lemma_handling_ends(step: StepView, events: Seq<EventView>)
    requires
        coherent(step),
    ensures
        transcript(step, events).len() <= steps_left(step.state) + 1,
        events.len() >= steps_left(step.state) ==> transcript(step, events).last() is Finish,
    decreases events.len(),
{
    if !(step.action is Finish) && events.len() > 0 {
        let next = next_step(step.state, events[0]);
        lemma_every_step_nears_the_end(step.state, events[0]);
        lemma_handling_ends(next, events.skip(1));
        let rest = transcript(next, events.skip(1));
        assert((seq![step.action] + rest).last() == rest.last());
    }
}

/// A command asks for at most five actions before `Finish`.
pub proof fn lemma_command_is_short(command: CommandView, events: Seq<EventView>)
    ensures
        transcript(first_step(command), events).len() <= 6,
        events.len() >= 5 ==> transcript(first_step(command), events).last() is Finish,
{
    lemma_first_step_is_near_the_end(command);
    lemma_handling_ends(first_step(command), events);
}

} // verus!
