//! The episode directory: seventy episodes, each with a number and a name,
//! and the address from which an episode can be fetched.

use crate::numbers::{decimal_text, push_decimal};
use vstd::prelude::*;
use vstd::string::*;

verus! {

/// The names of the episodes, in order: episode `n` is at position `n - 1`.
/// Several episodes share a name.
pub const EPISODES_NAMES: [&'static str; 70] = [
    "datassette",
    "sunjammer",
    "datassette",
    "com_truise",
    "abe_mangger",
    "gods_of_the_new_age",
    "tahlhoff_garten_and_untitled",
    "connectedness_locus",
    "datassette",
    "unity_gain_temple",
    "miles_tilmann",
    "forgotten_light",
    "matt_whitehead",
    "tahlhoff_garten_and_untitled",
    "dan_adeyemi",
    "silent_stelios",
    "graphplan",
    "konx_om_pax",
    "hivemind",
    "uberdog",
    "idol_eyes",
    "mindaugaszq",
    "panda_magic",
    "rites",
    "_nono_",
    "abstraction",
    "michael_hicks",
    "big_war",
    "luke_handsfree",
    "matt_kruse",
    "datassette",
    "chris_seddon",
    "uuav",
    "chukus",
    "nadim_kobeissi",
    "ea7_dmz",
    "lackluster",
    "j_s_aurelius",
    "kidding_kurrys",
    "mark_schneider",
    "sunjammer",
    "datassette",
    "hey_exit",
    "hukka",
    "ehohroma",
    "jo_johnson",
    "abe_mangger",
    "michael_hicks",
    "julien_mier",
    "misc.works",
    "m%C3%BCcha",
    "inchindown",
    "beb_welten",
    "hler",
    "20_jazz_funk_greats",
    "forest_drive_west",
    "hainbach",
    "olive_is_the_sun",
    "miunau",
    "tundra",
    "linnley",
    "our_grey_lives",
    "t-flx",
    "strepsil",
    "matt_whitehead",
    "conrad_clipper",
    "datassette",
    "no_data_available",
    "pearl_river_sound",
    "things_disappear",
];

/// The number of the last episode.
pub const LAST_EPISODE: i32 = 70;

/// Why an episode could not be resolved: its number names no episode.
#[derive(Clone, Copy, Debug, PartialEq, Eq)]
pub struct InvalidIndex {
    /// The number that was asked for.
    pub index: i32,
}

/// Whether `episode` is the number of an episode.
pub open spec fn valid_episode(episode: int) -> bool {
    1 <= episode <= 70
}

/// The name of episode `episode`.
pub open spec fn episode_name(episode: int) -> Seq<char> {
    EPISODES_NAMES[episode - 1]@
}

/// The file name of episode `episode` without its extension: the fixed
/// stem, the episode's number, a hyphen and the episode's name.
pub open spec fn episode_file_stem(episode: int) -> Seq<char> {
    "music_for_programming_"@ + decimal_text(episode as nat) + "-"@ + episode_name(episode)
}

/// The address of episode `episode`.
pub open spec fn episode_link(episode: int) -> Seq<char> {
    "https://datashat.net/"@ + episode_file_stem(episode) + ".mp3"@
}

/// Whether `needle` occurs in `haystack` as a run of adjacent characters.
pub open spec fn contains_text(haystack: Seq<char>, needle: Seq<char>) -> bool {
    exists|at: int|
        0 <= at && at + needle.len() <= haystack.len() && #[trigger] haystack.subrange(
            at,
            at + needle.len(),
        ) == needle
}

/// Decides whether `episode` is the number of an episode.
pub fn is_valid_episode(episode: i32) -> (valid: bool)
    ensures
        valid == valid_episode(episode as int),
{
    1 <= episode && episode <= LAST_EPISODE
}

/// The address of a valid episode.
pub fn get_episode_link(episode: i32) -> (link: String)
    requires
        valid_episode(episode as int),
    ensures
        link@ == episode_link(episode as int),
{
    let name = EPISODES_NAMES[(episode - 1) as usize];
    let mut link = String::from_str("https://datashat.net/");
    link.append("music_for_programming_");
    push_decimal(&mut link, episode as u32);
    link.append("-");
    link.append(name);
    link.append(".mp3");
    assert(link@ =~= episode_link(episode as int));
    link
}

/// The address of episode `index`, or `InvalidIndex` if there is no such
/// episode.
pub fn resolve(index: i32) -> (link: Result<String, InvalidIndex>)
    ensures
        valid_episode(index as int) <==> link is Ok,
        link is Ok ==> link->Ok_0@ == episode_link(index as int),
        link is Ok ==> contains_text(link->Ok_0@, episode_file_stem(index as int)),
        link is Err ==> link->Err_0.index == index,
{
    if is_valid_episode(index) {
        let link = get_episode_link(index);
        proof {
            lemma_link_contains_stem(index as int);
        }
        Ok(link)
    } else {
        Err(InvalidIndex { index })
    }
}

/// The address of an episode contains the fixed stem, the episode's number,
/// a hyphen and the episode's name, in that order and without gaps.
pub proof fn lemma_link_contains_stem(episode: int)
    ensures
        contains_text(episode_link(episode), episode_file_stem(episode)),
{
    let host = "https://datashat.net/"@;
    let stem = episode_file_stem(episode);
    let link = episode_link(episode);
    assert(link.subrange(host.len() as int, (host.len() + stem.len()) as int) =~= stem);
}

} // verus!
