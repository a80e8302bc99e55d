//! The arguments of the `play` command and the rules they must meet.

use crate::episodes::{is_valid_episode, valid_episode};
use crate::numbers::{integer_of, parse_integer};
use vstd::prelude::*;
use vstd::string::*;

verus! {

/// The two words that may follow `play`: the episode's number and the
/// optional word `loop`.
#[derive(Clone, Debug)]
pub struct PlayArguments {
    /// The first word, if there is one.
    pub episode: Option<String>,
    /// The second word, if there is one.
    pub modifier: Option<String>,
}

/// The words of `PlayArguments` as sequences of characters.
pub struct PlayWords {
    pub episode: Option<Seq<char>>,
    pub modifier: Option<Seq<char>>,
}

impl View for PlayArguments {
    type V = PlayWords;

    open spec fn view(&self) -> PlayWords {
        PlayWords {
            episode: match self.episode {
                Some(word) => Some(word@),
                None => None,
            },
            modifier: match self.modifier {
                Some(word) => Some(word@),
                None => None,
            },
        }
    }
}

/// Why a `play` command is turned down before anything is played.
#[derive(Clone, Copy, Debug, PartialEq, Eq, Structural)]
pub enum PlayRejection {
    /// No episode number was given.
    MissingEpisode,
    /// A second word was given and it is not `loop`.
    BadModifier,
    /// The first word is not an integer.
    NotANumber,
    /// The first word is an integer, but no episode has that number.
    OutOfRange,
}

/// What a `play` command that meets every rule asks for.
#[derive(Clone, Copy, Debug, PartialEq, Eq, Structural)]
pub struct PlayPlan {
    /// The number of the episode to play; always that of an episode.
    pub episode: i32,
    /// Whether the episode is to be repeated without end.
    pub loop_enabled: bool,
}

/// Whether `word` is `loop`, in any mixture of upper and lower case.
pub open spec fn is_loop_word(word: Seq<char>) -> bool {
    &&& word.len() == 4
    &&& (word[0] == 'l' || word[0] == 'L')
    &&& (word[1] == 'o' || word[1] == 'O')
    &&& (word[2] == 'o' || word[2] == 'O')
    &&& (word[3] == 'p' || word[3] == 'P')
}

/// The verdict on the words of a `play` command. The rules are applied in a
/// fixed order and the first that is broken decides: an episode number must be
/// there; a second word must be `loop`; the number must be an integer; the
/// integer must be the number of an episode.
pub open spec fn play_verdict(words: PlayWords) -> Result<PlayPlan, PlayRejection> {
    if words.episode is None {
        Err(PlayRejection::MissingEpisode)
    } else if words.modifier is Some && !is_loop_word(words.modifier->0) {
        Err(PlayRejection::BadModifier)
    } else if integer_of(words.episode->0) is None {
        Err(PlayRejection::NotANumber)
    } else if !valid_episode(integer_of(words.episode->0)->0) {
        Err(PlayRejection::OutOfRange)
    } else {
        Ok(
            PlayPlan {
                episode: integer_of(words.episode->0)->0 as i32,
                loop_enabled: words.modifier is Some,
            },
        )
    }
}

/// Decides whether `word` is `loop`, in any mixture of upper and lower case.
/// No character but these eight becomes `l`, `o` or `p` in lower case, so
/// the answer is that of comparing the lowercased word with `loop`.
pub fn is_loop(word: &str) -> (yes: bool)
    ensures
        yes == is_loop_word(word@),
{
    if !word.is_ascii() {
        assert(!is_loop_word(word@)) by {
            if word@.len() == 4 {
                let i = choose|i: int| 0 <= i < 4 && !('\0' <= #[trigger] word@[i] <= '\u{7f}');
                assert(0 <= i < 4);
            }
        }
        return false;
    }
    let bytes = word.as_bytes();
    proof {
        is_ascii_spec_bytes(word);
        assert(bytes@.len() == word@.len());
        assert forall|i: int| 0 <= i < word@.len() implies bytes@[i] as int == word@[i] as int by {
            assert('\0' <= word@[i] <= '\u{7f}');
        }
    }
    if bytes.len() != 4 {
        return false;
    }
    assert(bytes@[0] as int == word@[0] as int);
    assert(bytes@[1] as int == word@[1] as int);
    assert(bytes@[2] as int == word@[2] as int);
    assert(bytes@[3] as int == word@[3] as int);
    (bytes[0] == 108 || bytes[0] == 76) && (bytes[1] == 111 || bytes[1] == 79) && (bytes[2] == 111
        || bytes[2] == 79) && (bytes[3] == 112 || bytes[3] == 80)
}

/// Gives the verdict on the words of a `play` command.
pub fn validate_play(arguments: &PlayArguments) -> (verdict: Result<PlayPlan, PlayRejection>)
    ensures
        verdict == play_verdict(arguments@),
{
    let episode = match &arguments.episode {
        Some(word) => word,
        None => {
            return Err(PlayRejection::MissingEpisode);
        },
    };
    let loop_enabled = match &arguments.modifier {
        Some(word) => {
            if !is_loop(word.as_str()) {
                return Err(PlayRejection::BadModifier);
            }
            true
        },
        None => false,
    };
    let number = match parse_integer(episode.as_str()) {
        Some(number) => number,
        None => {
            return Err(PlayRejection::NotANumber);
        },
    };
    if !is_valid_episode(number) {
        return Err(PlayRejection::OutOfRange);
    }
    Ok(PlayPlan { episode: number, loop_enabled })
}

} // verus!
