use mfp_bot::messages::HELP;
use mfp_bot::{
    Action, Command, Delivery, Event, General, PlayArguments, PlayPlan, PlaybackRequest, State,
    Step,
};

/// A stand-in for the voice subsystem: it keeps what a session keeps and
/// carries out the actions it is given.
struct Stage {
    session: bool,
    muted: bool,
    deafened: bool,
    observers: usize,
    playing: Option<String>,
    looping: bool,
    failing: Vec<&'static str>,
    sent: Vec<(Delivery, String)>,
    asked: Vec<Action>,
}

fn empty_stage() -> Stage {
    Stage {
        session: false,
        muted: false,
        deafened: false,
        observers: 0,
        playing: None,
        looping: false,
        failing: Vec::new(),
        sent: Vec::new(),
        asked: Vec::new(),
    }
}

fn joined_stage() -> Stage {
    let mut stage = empty_stage();
    stage.session = true;
    stage
}

fn fails(stage: &Stage, what: &str) -> Option<Event> {
    if stage.failing.contains(&what) {
        Some(Event::Failed { reason: format!("{what} broke") })
    } else {
        None
    }
}

fn perform(stage: &mut Stage, action: &Action) -> Event {
    stage.asked.push(action.clone());
    match action {
        Action::Send { delivery, text } => {
            stage.sent.push((*delivery, text.clone()));
            fails(stage, "send").unwrap_or(Event::Done)
        }
        Action::Connect { .. } => fails(stage, "connect").unwrap_or_else(|| {
            stage.session = true;
            Event::Done
        }),
        Action::WatchTrackErrors => {
            stage.observers += 1;
            Event::Done
        }
        Action::Deafen => fails(stage, "deafen").unwrap_or_else(|| {
            stage.deafened = true;
            Event::Done
        }),
        Action::FindSession => Event::Session { present: stage.session },
        Action::ReadMute => Event::Muted { muted: stage.muted },
        Action::SetMute { mute } => fails(stage, "mute").unwrap_or_else(|| {
            stage.muted = *mute;
            Event::Done
        }),
        Action::Play { request } => {
            stage.playing = Some(request.url.clone());
            stage.looping = false;
            Event::Done
        }
        Action::EnableLoop => fails(stage, "loop").unwrap_or_else(|| {
            stage.looping = true;
            Event::Done
        }),
        Action::Disconnect => fails(stage, "leave").unwrap_or_else(|| {
            stage.session = false;
            Event::Done
        }),
        Action::Finish => panic!("nothing answers Finish"),
    }
}

fn run(stage: &mut Stage, command: Command) {
    stage.sent.clear();
    stage.asked.clear();
    let mut step = General::begin(&command);
    let mut turns = 0;
    while step.action != Action::Finish {
        turns += 1;
        assert!(turns <= 5, "a command ends after five actions at most");
        let event = perform(stage, &step.action);
        step = General::advance(step.state, &event);
    }
    assert_eq!(step.state, State::Finished);
}

fn play(episode: &str, modifier: Option<&str>) -> Command {
    Command::Play {
        arguments: PlayArguments {
            episode: Some(String::from(episode)),
            modifier: modifier.map(String::from),
        },
    }
}

fn reply(text: &str) -> (Delivery, String) {
    (Delivery::Reply, String::from(text))
}

fn say(text: &str) -> (Delivery, String) {
    (Delivery::Say, String::from(text))
}

fn asked_to_play(stage: &Stage) -> bool {
    stage.asked.iter().any(|action| matches!(action, Action::Play { .. }))
}

#[test]
fn help_replies_with_the_usage_text() {
    let mut stage = empty_stage();
    run(&mut stage, Command::Help);
    assert_eq!(stage.sent, vec![reply(HELP)]);
    assert_eq!(stage.asked.len(), 1);
    assert!(HELP.contains("!join: Joins the voice channel of the caller. Don't forget"));
    assert!(HELP.contains("The second argument can be \"loop\" if you wish to loop the track."));
    assert!(HELP.starts_with("\n\n        A bot that plays some tunes"));
    assert!(HELP.ends_with("!leave: Leaves the voice channel.\n"));
}

#[test]
fn join_without_a_voice_channel_is_a_guided_no_op() {
    let mut stage = empty_stage();
    run(&mut stage, Command::Join { caller_channel: None });
    assert_eq!(stage.sent, vec![reply("Try again after joining a voice channel! ;)")]);
    assert_eq!(stage.asked.len(), 1);
    assert!(!stage.asked.iter().any(|action| matches!(action, Action::Connect { .. })));
    assert!(!stage.session);
}

#[test]
fn join_connects_watches_and_deafens() {
    let mut stage = empty_stage();
    run(&mut stage, Command::Join { caller_channel: Some(42) });
    assert_eq!(
        stage.asked,
        vec![
            Action::Connect { channel: 42 },
            Action::Send { delivery: Delivery::Reply, text: String::from("Joined your channel!") },
            Action::WatchTrackErrors,
            Action::Deafen,
        ]
    );
    assert!(stage.session);
    assert!(stage.deafened);
    assert_eq!(stage.observers, 1);
}

#[test]
fn join_reports_a_failed_deafen_after_joining() {
    let mut stage = empty_stage();
    stage.failing = vec!["deafen"];
    run(&mut stage, Command::Join { caller_channel: Some(42) });
    assert_eq!(
        stage.sent,
        vec![reply("Joined your channel!"), say("Failed to deafen: deafen broke")]
    );
    assert!(stage.session);
    assert!(!stage.deafened);
}

#[test]
fn join_that_cannot_connect_says_nothing() {
    let mut stage = empty_stage();
    stage.failing = vec!["connect"];
    run(&mut stage, Command::Join { caller_channel: Some(42) });
    assert_eq!(stage.sent, vec![]);
    assert_eq!(stage.asked, vec![Action::Connect { channel: 42 }]);
    assert_eq!(stage.observers, 0);
}

#[test]
fn play_71_is_out_of_range() {
    let mut stage = joined_stage();
    run(&mut stage, play("71", None));
    assert_eq!(stage.sent, vec![reply("Please enter a number between 1..70")]);
    assert!(!asked_to_play(&stage));
    assert_eq!(stage.asked.len(), 1);
}

#[test]
fn play_abc_asks_for_digits() {
    let mut stage = joined_stage();
    run(&mut stage, play("abc", None));
    assert_eq!(stage.sent, vec![reply("Please enter the number of the episode in digits")]);
    assert!(!asked_to_play(&stage));
    assert_eq!(stage.asked.len(), 1);
}

#[test]
fn play_5_upper_case_loop_plays_and_loops() {
    let mut stage = joined_stage();
    run(&mut stage, play("5", Some("LOOP")));
    let url = String::from("https://datashat.net/music_for_programming_5-abe_mangger.mp3");
    assert_eq!(
        stage.asked,
        vec![
            Action::FindSession,
            Action::Play { request: PlaybackRequest { url: url.clone(), loop_enabled: true } },
            Action::EnableLoop,
            Action::Send { delivery: Delivery::Reply, text: String::from("Loop enabled!") },
            Action::Send { delivery: Delivery::Say, text: String::from("Now playing: Episode 5") },
        ]
    );
    assert_eq!(stage.playing, Some(url));
    assert!(stage.looping);
}

#[test]
fn play_5_twice_is_turned_down() {
    let mut stage = joined_stage();
    run(&mut stage, play("5", Some("twice")));
    assert_eq!(
        stage.sent,
        vec![reply("The second argument should either be \"loop\" or empty")]
    );
    assert!(!asked_to_play(&stage));
    assert_eq!(stage.playing, None);
}

#[test]
fn play_without_a_number_asks_for_one() {
    let mut stage = joined_stage();
    run(&mut stage, Command::Play { arguments: PlayArguments { episode: None, modifier: None } });
    assert_eq!(stage.sent, vec![say("Enter the number of the episode that you wish to play")]);
    assert!(!asked_to_play(&stage));
}

#[test]
fn play_without_loop_plays_once() {
    let mut stage = joined_stage();
    run(&mut stage, play("70", None));
    let url = String::from("https://datashat.net/music_for_programming_70-things_disappear.mp3");
    assert_eq!(
        stage.asked,
        vec![
            Action::FindSession,
            Action::Play { request: PlaybackRequest { url: url.clone(), loop_enabled: false } },
            Action::Send { delivery: Delivery::Say, text: String::from("Now playing: Episode 70") },
        ]
    );
    assert_eq!(stage.playing, Some(url));
    assert!(!stage.looping);
}

#[test]
fn play_outside_a_voice_channel_is_a_guided_no_op() {
    let mut stage = empty_stage();
    run(&mut stage, play("5", Some("loop")));
    assert_eq!(stage.sent, vec![say("Not in a voice channel to play in :c")]);
    assert!(!asked_to_play(&stage));
}

#[test]
fn play_reports_a_failed_loop_and_still_announces() {
    let mut stage = joined_stage();
    stage.failing = vec!["loop"];
    run(&mut stage, play("7", Some("loop")));
    assert_eq!(
        stage.sent,
        vec![reply("Failed to enable loop: loop broke"), say("Now playing: Episode 7")]
    );
    assert!(stage.playing.is_some());
    assert!(!stage.looping);
}

#[test]
fn play_replaces_what_is_playing() {
    let mut stage = joined_stage();
    run(&mut stage, play("1", Some("loop")));
    run(&mut stage, play("2", None));
    assert_eq!(
        stage.playing,
        Some(String::from("https://datashat.net/music_for_programming_2-sunjammer.mp3"))
    );
    assert!(!stage.looping);
}

#[test]
fn mute_twice_mutes_once() {
    let mut stage = joined_stage();
    run(&mut stage, Command::Mute);
    assert_eq!(stage.sent, vec![say("Now muted")]);
    assert_eq!(
        stage.asked[..3],
        [Action::FindSession, Action::ReadMute, Action::SetMute { mute: true }]
    );
    assert!(stage.muted);
    run(&mut stage, Command::Mute);
    assert_eq!(stage.sent, vec![say("Already muted")]);
    assert!(!stage.asked.iter().any(|action| matches!(action, Action::SetMute { .. })));
    assert!(stage.muted);
}

#[test]
fn mute_outside_a_voice_channel_is_a_guided_no_op() {
    let mut stage = empty_stage();
    run(&mut stage, Command::Mute);
    assert_eq!(stage.sent, vec![reply("Not in a voice channel")]);
    assert_eq!(stage.asked.len(), 2);
}

#[test]
fn mute_that_fails_reports_both_failure_and_success() {
    let mut stage = joined_stage();
    stage.failing = vec!["mute"];
    run(&mut stage, Command::Mute);
    assert_eq!(stage.sent, vec![say("Failed to mute: mute broke"), say("Now muted")]);
}

#[test]
fn unmute_unmutes() {
    let mut stage = joined_stage();
    stage.muted = true;
    run(&mut stage, Command::Unmute);
    assert_eq!(stage.sent, vec![say("Now unmuted!")]);
    assert_eq!(stage.asked[..2], [Action::FindSession, Action::SetMute { mute: false }]);
    assert!(!stage.muted);
}

#[test]
fn unmute_that_fails_reports_both_failure_and_success() {
    let mut stage = joined_stage();
    stage.failing = vec!["mute"];
    run(&mut stage, Command::Unmute);
    assert_eq!(stage.sent, vec![say("Failed to unmute: mute broke"), say("Now unmuted!")]);
}

#[test]
fn unmute_outside_a_voice_channel_is_a_guided_no_op() {
    let mut stage = empty_stage();
    run(&mut stage, Command::Unmute);
    assert_eq!(stage.sent, vec![say("Not in a voice channel to be unmuted in")]);
    assert!(!stage.asked.iter().any(|action| matches!(action, Action::SetMute { .. })));
}

#[test]
fn leave_removes_the_session() {
    let mut stage = joined_stage();
    run(&mut stage, Command::Leave);
    assert_eq!(stage.sent, vec![say("Bye bye!")]);
    assert_eq!(stage.asked[..2], [Action::FindSession, Action::Disconnect]);
    assert!(!stage.session);
}

#[test]
fn leave_without_a_session_removes_nothing() {
    let mut stage = empty_stage();
    run(&mut stage, Command::Leave);
    assert_eq!(stage.sent, vec![reply("Not in a voice channel")]);
    assert!(!stage.asked.iter().any(|action| matches!(action, Action::Disconnect)));
}

#[test]
fn leave_that_fails_reports_both_failure_and_success() {
    let mut stage = joined_stage();
    stage.failing = vec!["leave"];
    run(&mut stage, Command::Leave);
    assert_eq!(stage.sent, vec![say("Failed to leave: leave broke"), say("Bye bye!")]);
    assert!(stage.session);
}

#[test]
fn a_message_that_cannot_be_sent_stops_nothing() {
    let mut stage = empty_stage();
    stage.failing = vec!["send"];
    run(&mut stage, Command::Join { caller_channel: Some(9) });
    assert!(stage.deafened);
    assert_eq!(stage.observers, 1);
    let mut stage = joined_stage();
    stage.failing = vec!["send", "mute"];
    run(&mut stage, Command::Mute);
    assert_eq!(stage.sent, vec![say("Failed to mute: mute broke"), say("Now muted")]);
}

#[test]
fn an_event_that_answers_nothing_ends_the_command() {
    let step = General::mute();
    assert_eq!(step, Step { state: State::MuteLocating, action: Action::FindSession });
    let next = General::advance(step.state, &Event::Done);
    assert_eq!(next, Step { state: State::Finished, action: Action::Finish });
    let next = General::advance(State::MuteInspecting, &Event::Session { present: true });
    assert_eq!(next, Step { state: State::Finished, action: Action::Finish });
    let next = General::advance(State::Finished, &Event::Done);
    assert_eq!(next, Step { state: State::Finished, action: Action::Finish });
}

#[test]
fn a_plan_for_no_episode_is_never_played() {
    let plan = PlayPlan { episode: 71, loop_enabled: false };
    let next = General::advance(State::PlayLocating { plan }, &Event::Session { present: true });
    assert_eq!(next, Step { state: State::Finished, action: Action::Finish });
}

#[test]
fn each_command_begins_as_its_own_function_does() {
    assert_eq!(General::begin(&Command::Help), General::help());
    assert_eq!(General::begin(&Command::Join { caller_channel: Some(3) }), General::join(Some(3)));
    assert_eq!(General::begin(&Command::Join { caller_channel: None }), General::join(None));
    assert_eq!(General::begin(&Command::Mute), General::mute());
    assert_eq!(General::begin(&Command::Unmute), General::unmute());
    assert_eq!(General::begin(&Command::Leave), General::leave());
    let arguments = PlayArguments { episode: Some(String::from("12")), modifier: None };
    assert_eq!(
        General::begin(&Command::Play { arguments: arguments.clone() }),
        General::play(&arguments)
    );
    assert_eq!(
        General::play(&arguments),
        Step {
            state: State::PlayLocating { plan: PlayPlan { episode: 12, loop_enabled: false } },
            action: Action::FindSession,
        }
    );
}
