//! Command routing for a voice-channel bot that streams one of seventy fixed
//! audio episodes.
//!
//! The crate decides; it performs no input or output. A caller hands it the
//! words of a command and the outcomes of the voice operations it asked for,
//! and receives the next operation to perform or message to send.

pub mod arguments;
pub mod episodes;
pub mod laws;
pub mod messages;
pub mod numbers;
pub mod observers;
pub mod play;
pub mod protocol;
pub mod router;
pub mod session;

pub use arguments::play_arguments;
pub use episodes::{get_episode_link, resolve, InvalidIndex};
pub use observers::{FailedTrack, FollowUp, Handler, TrackErrorNotifier, TrackErrorReport};
pub use play::{validate_play, PlayArguments, PlayPlan, PlayRejection};
pub use protocol::{Action, Command, Delivery, Event, PlaybackRequest, State, Step};
pub use router::General;
