//! The listeners that react to what happens outside of commands: a
//! connection that is ready, a plain message, a track that failed.

use crate::messages::owned;
use crate::protocol::{Action, ActionView, Delivery};
use vstd::prelude::*;
use vstd::string::*;

verus! {

/// The message that is greeted.
pub const GREETING: &'static str = "hi";

/// The answer to the greeting.
pub const GREETING_BACK: &'static str = "Hello!!!";

/// What follows the bot's name in the line that reports a connection.
pub const IS_CONNECTED: &'static str = " is connected!";

/// What precedes a track's identifier in the line that reports its failure.
pub const TRACK: &'static str = "Track ";

/// What stands between a track's identifier and its state in that line.
pub const ENCOUNTERED_AN_ERROR: &'static str = " encountered an error: ";

/// The listener for what the chat service reports.
#[derive(Clone, Copy, Debug)]
pub struct Handler;

/// The listener for tracks that failed. It keeps nothing between calls.
#[derive(Clone, Copy, Debug)]
pub struct TrackErrorNotifier;

/// A track that failed, as the voice subsystem describes it.
#[derive(Clone, Debug, PartialEq, Eq)]
pub struct FailedTrack {
    /// The track's identifier.
    pub id: String,
    /// Whether the track was playing, paused or stopped, and why.
    pub playing: String,
}

/// What a listener may ask of the voice subsystem after an event.
#[derive(Clone, Copy, Debug, PartialEq, Eq, Structural)]
pub enum FollowUp {
    /// Stop calling this listener.
    Cancel,
}

/// What `TrackErrorNotifier` makes of a batch of failed tracks.
#[derive(Clone, Debug, PartialEq, Eq)]
pub struct TrackErrorReport {
    /// One line for the log per failed track, in the order of the batch.
    pub lines: Vec<String>,
    /// What is asked of the voice subsystem.
    pub follow_up: Option<FollowUp>,
}

/// The line that reports the failure of a track.
pub open spec fn track_error_line(id: Seq<char>, playing: Seq<char>) -> Seq<char> {
    TRACK@ + id + ENCOUNTERED_AN_ERROR@ + playing
}

impl Handler {
    /// The line for the log when the connection is ready: the bot's name,
    /// then " is connected!".
    pub fn ready(name: &str) -> (line: String)
        ensures
            line@ == name@ + IS_CONNECTED@,
    {
        let mut line = String::from_str(name);
        line.append(IS_CONNECTED);
        line
    }

    /// How a plain message is answered: "hi" gets a greeting back, said in
    /// the channel; anything else gets no answer.
    pub fn message(content: &str) -> (answer: Option<Action>)
        ensures
            content@ == GREETING@ ==> answer is Some && answer->0@ == (ActionView::Send {
                delivery: Delivery::Say,
                text: GREETING_BACK@,
            }),
            content@ != GREETING@ ==> answer is None,
    {
        if owned(content) == owned(GREETING) {
            Some(Action::Send { delivery: Delivery::Say, text: owned(GREETING_BACK) })
        } else {
            None
        }
    }
}

impl TrackErrorNotifier {
    /// Reports a batch of failed tracks: one line per track, and nothing
    /// asked of the voice subsystem.
    pub fn act(tracks: &Vec<FailedTrack>) -> (report: TrackErrorReport)
        ensures
            report.follow_up is None,
            report.lines@.len() == tracks@.len(),
            forall|i: int|
                0 <= i < tracks@.len() ==> (#[trigger] report.lines@[i])@ == track_error_line(
                    tracks@[i].id@,
                    tracks@[i].playing@,
                ),
    {
        let mut lines: Vec<String> = Vec::new();
        let mut i: usize = 0;
        while i < tracks.len()
            invariant
                i <= tracks@.len(),
                lines@.len() == i,
                forall|j: int|
                    0 <= j < i ==> (#[trigger] lines@[j])@ == track_error_line(
                        tracks@[j].id@,
                        tracks@[j].playing@,
                    ),
            decreases tracks@.len() - i,
        {
            let track = &tracks[i];
            let mut line = String::from_str(TRACK);
            line.append(track.id.as_str());
            line.append(ENCOUNTERED_AN_ERROR);
            line.append(track.playing.as_str());
            assert(line@ =~= track_error_line(track.id@, track.playing@));
            lines.push(line);
            i = i + 1;
        }
        TrackErrorReport { lines, follow_up: None }
    }
}

} // verus!
