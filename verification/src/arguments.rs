//! Reading the words of a command from the framework's argument list.

#![allow(deprecated)]

use crate::play::PlayArguments;
use serenity::framework::standard::Args;
use vstd::prelude::*;

verus! {

#[verifier::external_type_specification]
#[verifier::external_body]
pub struct ExArgs(Args);

/// The words that an argument list has yet to hand out, in the order in
/// which it hands them out, each as it reads when taken as a `String`.
pub uninterp spec fn pending_words(args: Args) -> Seq<Seq<char>>;

/// The word at position `at` of `words`, if there is one.
pub open spec fn word_at(words: Seq<Seq<char>>, at: int) -> Option<Seq<char>> {
    if 0 <= at < words.len() {
        Some(words[at])
    } else {
        None
    }
}

/// Takes the next word from the list, with `Args::single::<String>`.
///
/// Trusted: when the list has words left, the call returns the first of them
/// and moves past that word alone; when it has none, the call fails with
/// "end of string", which becomes `None` here, and the list stays as it was.
/// Reading a word as a `String` cannot fail.
#[verifier::external_body]
fn next_word(args: &mut Args) -> (word: Option<String>)
    ensures
        pending_words(*old(args)).len() == 0 ==> word is None && pending_words(*final(args))
            == pending_words(*old(args)),
        pending_words(*old(args)).len() > 0 ==> word is Some && word->0@ == pending_words(
            *old(args),
        )[0] && pending_words(*final(args)) == pending_words(*old(args)).skip(1),
{
    args.single::<String>().ok()
}

/// Takes the words of a `play` command from the list: the first word, and,
/// if there was a first, the second. Words beyond these stay in the list.
pub fn play_arguments(args: &mut Args) -> (arguments: PlayArguments)
    ensures
        arguments@.episode == word_at(pending_words(*old(args)), 0),
        arguments@.modifier == word_at(pending_words(*old(args)), 1),
        pending_words(*final(args)) == if pending_words(*old(args)).len() >= 2 {
            pending_words(*old(args)).skip(2)
        } else {
            Seq::<Seq<char>>::empty()
        },
{
    let episode = next_word(args);
    let modifier = match episode {
        Some(_) => next_word(args),
        None => None,
    };
    proof {
        let before = pending_words(*old(args));
        if before.len() >= 2 {
            assert(before.skip(1).skip(1) =~= before.skip(2));
        } else if before.len() == 1 {
            assert(before.skip(1) =~= Seq::<Seq<char>>::empty());
        } else {
            assert(before =~= Seq::<Seq<char>>::empty());
        }
    }
    PlayArguments { episode, modifier }
}

} // verus!
