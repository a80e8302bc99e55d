use mfp_bot::play::is_loop;
use mfp_bot::{validate_play, PlayArguments, PlayPlan, PlayRejection};

fn words(episode: Option<&str>, modifier: Option<&str>) -> PlayArguments {
    PlayArguments { episode: episode.map(String::from), modifier: modifier.map(String::from) }
}

#[test]
fn loop_word_in_any_case() {
    assert!(is_loop("loop"));
    assert!(is_loop("LOOP"));
    assert!(is_loop("Loop"));
    assert!(is_loop("lOoP"));
}

#[test]
fn other_words_are_not_loop() {
    assert!(!is_loop(""));
    assert!(!is_loop("twice"));
    assert!(!is_loop("loo"));
    assert!(!is_loop("loops"));
    assert!(!is_loop("l00p"));
    assert!(!is_loop("lööp"));
    assert!(!is_loop(" loop"));
}

#[test]
fn loop_word_agrees_with_lowercasing() {
    for word in ["loop", "LOOP", "LoOp", "twice", "", "looP", "lo\u{212A}p", "ｌｏｏｐ", "LOOP "] {
        assert_eq!(is_loop(word), word.to_lowercase() == "loop", "on {word:?}");
    }
}

#[test]
fn accepts_episode_alone() {
    assert_eq!(
        validate_play(&words(Some("5"), None)),
        Ok(PlayPlan { episode: 5, loop_enabled: false })
    );
}

#[test]
fn accepts_episode_with_loop() {
    assert_eq!(
        validate_play(&words(Some("5"), Some("LOOP"))),
        Ok(PlayPlan { episode: 5, loop_enabled: true })
    );
    assert_eq!(
        validate_play(&words(Some("70"), Some("loop"))),
        Ok(PlayPlan { episode: 70, loop_enabled: true })
    );
}

#[test]
fn accepts_the_first_and_the_last_episode() {
    assert_eq!(
        validate_play(&words(Some("1"), None)),
        Ok(PlayPlan { episode: 1, loop_enabled: false })
    );
    assert_eq!(
        validate_play(&words(Some("+70"), None)),
        Ok(PlayPlan { episode: 70, loop_enabled: false })
    );
}

#[test]
fn rejects_missing_episode() {
    assert_eq!(validate_play(&words(None, None)), Err(PlayRejection::MissingEpisode));
}

#[test]
fn rejects_second_word_other_than_loop() {
    assert_eq!(validate_play(&words(Some("5"), Some("twice"))), Err(PlayRejection::BadModifier));
}

#[test]
fn rejects_what_is_not_a_number_as_episode() {
    assert_eq!(validate_play(&words(Some("abc"), None)), Err(PlayRejection::NotANumber));
    assert_eq!(validate_play(&words(Some("99999999999"), None)), Err(PlayRejection::NotANumber));
}

#[test]
fn rejects_numbers_that_name_no_episode() {
    assert_eq!(validate_play(&words(Some("71"), None)), Err(PlayRejection::OutOfRange));
    assert_eq!(validate_play(&words(Some("0"), None)), Err(PlayRejection::OutOfRange));
    assert_eq!(validate_play(&words(Some("-3"), Some("loop"))), Err(PlayRejection::OutOfRange));
}

#[test]
fn the_second_word_is_judged_before_the_number() {
    assert_eq!(validate_play(&words(Some("abc"), Some("twice"))), Err(PlayRejection::BadModifier));
    assert_eq!(validate_play(&words(Some("71"), Some("twice"))), Err(PlayRejection::BadModifier));
    assert_eq!(validate_play(&words(Some("abc"), Some("loop"))), Err(PlayRejection::NotANumber));
}
