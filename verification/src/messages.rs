//! The texts that the bot sends.

use crate::numbers::{decimal_text, push_decimal};
use vstd::prelude::*;
use vstd::string::*;

verus! {

/// The usage text.
pub const HELP: &'static str = "

        A bot that plays some tunes to keep you from getting bored!

        Commands:

        !join: Joins the voice channel of the caller. \
        Don't forget to join one before doing so! ;)

        !play {Track #} [loop]: Starts playing the specified episode. The second argument can be \"loop\" if you wish to loop the track.
        So to play the seventh track and loop it, you'd say:
            !play 7 loop

        !mute: Mutes the bot.

        !unmute: Unmutes the bot.

        !leave: Leaves the voice channel.
";

/// Sent when `join` comes from someone who is in no voice channel.
pub const JOIN_A_CHANNEL_FIRST: &'static str = "Try again after joining a voice channel! ;)";

/// Sent when the bot has joined the caller's voice channel.
pub const JOINED: &'static str = "Joined your channel!";

/// Sent when `play` comes without an episode number.
pub const ENTER_EPISODE: &'static str = "Enter the number of the episode that you wish to play";

/// Sent when the second word of `play` is not `loop`.
pub const LOOP_OR_EMPTY: &'static str = "The second argument should either be \"loop\" or empty";

/// Sent when the first word of `play` is not an integer.
pub const ENTER_DIGITS: &'static str = "Please enter the number of the episode in digits";

/// Sent when the first word of `play` is an integer that names no episode.
pub const ENTER_IN_RANGE: &'static str = "Please enter a number between 1..70";

/// Sent when `play` comes while the bot is in no voice channel.
pub const NOWHERE_TO_PLAY: &'static str = "Not in a voice channel to play in :c";

/// Sent when the episode now repeats without end.
pub const LOOP_ENABLED: &'static str = "Loop enabled!";

/// Sent when `mute` or `leave` comes while the bot is in no voice channel.
pub const NOT_IN_A_CHANNEL: &'static str = "Not in a voice channel";

/// Sent when `mute` comes while the bot is muted.
pub const ALREADY_MUTED: &'static str = "Already muted";

/// Sent after a request to mute.
pub const NOW_MUTED: &'static str = "Now muted";

/// Sent after a request to unmute.
pub const NOW_UNMUTED: &'static str = "Now unmuted!";

/// Sent when `unmute` comes while the bot is in no voice channel.
pub const NOWHERE_TO_UNMUTE: &'static str = "Not in a voice channel to be unmuted in";

/// Sent after a request to leave.
pub const BYE: &'static str = "Bye bye!";

/// What precedes the reason when deafening failed.
pub const FAILED_TO_DEAFEN: &'static str = "Failed to deafen: ";

/// What precedes the reason when repeating could not be switched on.
pub const FAILED_TO_LOOP: &'static str = "Failed to enable loop: ";

/// What precedes the reason when muting failed.
pub const FAILED_TO_MUTE: &'static str = "Failed to mute: ";

/// What precedes the reason when unmuting failed.
pub const FAILED_TO_UNMUTE: &'static str = "Failed to unmute: ";

/// What precedes the reason when leaving failed.
pub const FAILED_TO_LEAVE: &'static str = "Failed to leave: ";

/// What precedes the reason, in the log, when a message could not be sent.
pub const ERROR_SENDING: &'static str = "Error sending message: ";

/// What precedes the episode's number in the announcement of an episode.
pub const NOW_PLAYING: &'static str = "Now playing: Episode ";

/// The decimal notation of an integer, with `-` before a negative one.
pub open spec fn integer_text(n: int) -> Seq<char> {
    if n < 0 {
        "-"@ + decimal_text((-n) as nat)
    } else {
        decimal_text(n as nat)
    }
}

/// The announcement of episode `episode`.
pub open spec fn now_playing_text(episode: int) -> Seq<char> {
    NOW_PLAYING@ + integer_text(episode)
}

/// The text `text` as a `String`.
pub fn owned(text: &str) -> (message: String)
    ensures
        message@ == text@,
{
    String::from_str(text)
}

/// The text that reports a failure: `prefix`, then the reason.
pub fn failure_report(prefix: &str, reason: &str) -> (message: String)
    ensures
        message@ == prefix@ + reason@,
{
    let mut message = String::from_str(prefix);
    message.append(reason);
    message
}

/// The announcement of episode `episode`.
pub fn now_playing(episode: i32) -> (message: String)
    ensures
        message@ == now_playing_text(episode as int),
{
    let mut message = String::from_str(NOW_PLAYING);
    if episode < 0 {
        message.append("-");
        push_decimal(&mut message, (-(episode as i64)) as u32);
    } else {
        push_decimal(&mut message, episode as u32);
    }
    assert(message@ =~= now_playing_text(episode as int));
    message
}

} // verus!
