use music_player::{
    handle_key_event, App, Command, Intent, Key, KeyOutcome, MusicPlayer, PlayState, PlayerError,
    OutputAction, RepeatMode, Track,
};

const SECOND: u64 = 1_000_000_000;

fn named(title: &str, seconds: Option<u64>) -> Track {
    Track {
        path: format!("/music/{}.ogg", title),
        title: title.to_string(),
        duration: seconds.map(|s| s * SECOND),
    }
}

fn open(track: &Track) -> Option<String> {
    if track.title.starts_with("Bad") {
        None
    } else {
        Some(track.title.clone())
    }
}

fn loaded(titles: &[&str]) -> MusicPlayer {
    let mut player = MusicPlayer::new();
    let tracks: Vec<Track> = titles.iter().map(|t| named(t, Some(10))).collect();
    assert_eq!(player.load(tracks), Ok(()));
    player
}

fn replaced(result: Result<OutputAction<String>, PlayerError>) -> String {
    match result {
        Ok(OutputAction::Replace(stream)) => stream,
        other => panic!("no stream: {:?}", other),
    }
}

fn press(app: &mut App, key: Key, now: u64) -> Result<KeyOutcome<String>, PlayerError> {
    handle_key_event(key, app, now, open)
}

fn is_keep(outcome: &Result<KeyOutcome<String>, PlayerError>) -> bool {
    matches!(outcome, Ok(KeyOutcome::Continue(OutputAction::Keep)))
}

#[test]
fn execute_select_replaces_the_stream() {
    let mut player = loaded(&["A", "B", "C"]);
    assert_eq!(replaced(player.execute(Command::Select(2), 0, open)), "C");
    assert_eq!(player.current_index(), 2);
    assert_eq!(player.state(), PlayState::Playing);
}

#[test]
fn execute_next_and_previous_step_through_the_catalog() {
    let mut player = loaded(&["A", "B", "C"]);
    assert_eq!(replaced(player.execute(Command::Next, 0, open)), "B");
    assert_eq!(replaced(player.execute(Command::Previous, 0, open)), "A");
    assert_eq!(replaced(player.execute(Command::Previous, 0, open)), "C");
    assert_eq!(player.current_index(), 2);
}

#[test]
fn execute_toggle_pause_tells_the_output_what_to_do() {
    let mut player = loaded(&["A", "B"]);
    assert!(matches!(
        player.execute::<String, _>(Command::TogglePause, 0, open),
        Ok(OutputAction::Keep)
    ));
    assert_eq!(replaced(player.execute(Command::Select(0), 0, open)), "A");
    assert!(matches!(
        player.execute::<String, _>(Command::TogglePause, 2 * SECOND, open),
        Ok(OutputAction::Pause)
    ));
    assert_eq!(player.state(), PlayState::Paused);
    assert!(matches!(
        player.execute::<String, _>(Command::TogglePause, 5 * SECOND, open),
        Ok(OutputAction::Resume)
    ));
    assert_eq!(player.state(), PlayState::Playing);
    assert_eq!(player.elapsed(6 * SECOND), 3 * SECOND);
}

#[test]
fn execute_stop_halts_the_output() {
    let mut player = loaded(&["A", "B"]);
    assert_eq!(replaced(player.execute(Command::Select(1), 0, open)), "B");
    assert!(matches!(
        player.execute::<String, _>(Command::Stop, SECOND, open),
        Ok(OutputAction::Halt)
    ));
    assert_eq!(player.state(), PlayState::Stopped);
    assert_eq!(player.current_index(), 1);
}

#[test]
fn execute_modes_leave_the_output_alone() {
    let mut player = loaded(&["A"]);
    assert!(matches!(
        player.execute::<String, _>(Command::ToggleShuffle, 0, open),
        Ok(OutputAction::Keep)
    ));
    assert!(player.is_shuffled());
    assert!(matches!(
        player.execute::<String, _>(Command::CycleRepeat, 0, open),
        Ok(OutputAction::Keep)
    ));
    assert_eq!(player.repeat_mode(), RepeatMode::One);
}

#[test]
fn execute_reports_a_catalog_without_playable_tracks() {
    let mut player = loaded(&["Bad one", "Bad two"]);
    assert!(matches!(
        player.execute::<String, _>(Command::Next, 0, open),
        Err(PlayerError::NoPlayableTrack)
    ));
    assert_eq!(player.state(), PlayState::Stopped);
    assert_eq!(player.current_index(), 1);
}

#[test]
fn execute_on_an_empty_catalog_keeps_the_output() {
    let mut player = MusicPlayer::new();
    assert!(matches!(
        player.execute::<String, _>(Command::Select(4), 0, open),
        Ok(OutputAction::Keep)
    ));
    assert!(matches!(player.execute::<String, _>(Command::Next, 0, open), Ok(OutputAction::Keep)));
}

#[test]
fn finished_track_is_followed_by_the_next() {
    let mut player = loaded(&["A", "B"]);
    assert_eq!(replaced(player.execute(Command::Select(0), 0, open)), "A");
    assert!(player.advance_if_finished::<String, _>(3 * SECOND, false, open).is_none());
    assert_eq!(player.current_index(), 0);
    let moved = player.advance_if_finished(3 * SECOND, true, open);
    assert_eq!(replaced(moved.unwrap()), "B");
    assert_eq!(player.current_index(), 1);
    assert_eq!(player.state(), PlayState::Playing);
    assert_eq!(player.elapsed(4 * SECOND), SECOND);
    let moved = player.advance_if_finished(3 * SECOND + 10 * SECOND + SECOND / 2, false, open);
    assert_eq!(replaced(moved.unwrap()), "A");
    assert_eq!(player.current_index(), 0);
}

#[test]
fn paused_track_is_not_followed() {
    let mut player = loaded(&["A", "B"]);
    assert_eq!(replaced(player.execute(Command::Select(0), 0, open)), "A");
    player.toggle_pause(SECOND);
    assert!(player.advance_if_finished::<String, _>(2 * SECOND, true, open).is_none());
    assert_eq!(player.current_index(), 0);
    assert_eq!(player.state(), PlayState::Paused);
}

#[test]
fn new_app_selects_the_first_row() {
    let app = App::new(loaded(&["A", "B"]));
    assert_eq!(app.selected, Some(0));
    assert!(!app.show_help);
    let empty = App::new(MusicPlayer::new());
    assert_eq!(empty.selected, None);
}

#[test]
fn app_steps_move_selection_and_current_index() {
    let mut app = App::new(loaded(&["A", "B", "C"]));
    app.next_track();
    assert_eq!(app.selected, Some(1));
    assert_eq!(app.player.current_index(), 1);
    app.next_track();
    app.next_track();
    assert_eq!(app.selected, Some(0));
    assert_eq!(app.player.current_index(), 0);
    app.previous_track();
    assert_eq!(app.selected, Some(2));
    assert_eq!(app.player.current_index(), 2);
    app.previous_track();
    assert_eq!(app.selected, Some(1));
    assert_eq!(app.player.state(), PlayState::Stopped);
}

#[test]
fn app_steps_from_no_selection_go_to_the_first_row() {
    let mut app = App::new(loaded(&["A", "B", "C"]));
    app.selected = None;
    app.next_track();
    assert_eq!(app.selected, Some(0));
    app.selected = None;
    app.previous_track();
    assert_eq!(app.selected, Some(0));
}

#[test]
fn help_toggles() {
    let mut app = App::new(loaded(&["A"]));
    app.toggle_help();
    assert!(app.show_help);
    app.toggle_help();
    assert!(!app.show_help);
    assert!(is_keep(&press(&mut app, Key::Char('?'), 0)));
    assert!(app.show_help);
    assert!(is_keep(&press(&mut app, Key::Char('h'), 0)));
    assert!(!app.show_help);
}

#[test]
fn quit_keys_quit() {
    let mut app = App::new(loaded(&["A"]));
    assert!(matches!(press(&mut app, Key::Char('q'), 0), Ok(KeyOutcome::Quit)));
    assert!(matches!(press(&mut app, Key::Esc, 0), Ok(KeyOutcome::Quit)));
    assert_eq!(app.interpret(Key::Esc), Intent::Quit);
}

#[test]
fn movement_keys_move_the_selection_only() {
    let mut app = App::new(loaded(&["A", "B", "C"]));
    assert!(is_keep(&press(&mut app, Key::Char('j'), 0)));
    assert_eq!(app.selected, Some(1));
    assert!(is_keep(&press(&mut app, Key::Down, 0)));
    assert_eq!(app.selected, Some(2));
    assert!(is_keep(&press(&mut app, Key::Down, 0)));
    assert_eq!(app.selected, Some(0));
    assert!(is_keep(&press(&mut app, Key::Char('k'), 0)));
    assert_eq!(app.selected, Some(2));
    assert!(is_keep(&press(&mut app, Key::Up, 0)));
    assert_eq!(app.selected, Some(1));
    assert_eq!(app.player.current_index(), 0);
    assert_eq!(app.player.state(), PlayState::Stopped);
}

#[test]
fn enter_plays_the_selected_track() {
    let mut app = App::new(loaded(&["A", "B", "C"]));
    assert!(is_keep(&press(&mut app, Key::Down, 0)));
    match press(&mut app, Key::Enter, SECOND) {
        Ok(KeyOutcome::Continue(OutputAction::Replace(stream))) => assert_eq!(stream, "B"),
        other => panic!("unexpected: {:?}", other),
    }
    assert_eq!(app.player.current_index(), 1);
    assert_eq!(app.player.state(), PlayState::Playing);
    assert_eq!(app.selected, Some(1));
}

#[test]
fn enter_without_selection_does_nothing() {
    let mut app = App::new(loaded(&["A", "B"]));
    app.selected = None;
    assert!(is_keep(&press(&mut app, Key::Enter, 0)));
    assert_eq!(app.player.state(), PlayState::Stopped);
}

#[test]
fn space_plays_another_track_or_toggles_pause() {
    let mut app = App::new(loaded(&["A", "B"]));
    assert!(matches!(
        press(&mut app, Key::Enter, 0),
        Ok(KeyOutcome::Continue(OutputAction::Replace(_)))
    ));
    assert!(matches!(
        press(&mut app, Key::Char(' '), SECOND),
        Ok(KeyOutcome::Continue(OutputAction::Pause))
    ));
    assert_eq!(app.player.state(), PlayState::Paused);
    assert!(matches!(
        press(&mut app, Key::Char(' '), 2 * SECOND),
        Ok(KeyOutcome::Continue(OutputAction::Resume))
    ));
    assert!(is_keep(&press(&mut app, Key::Down, 0)));
    match press(&mut app, Key::Char(' '), 3 * SECOND) {
        Ok(KeyOutcome::Continue(OutputAction::Replace(stream))) => assert_eq!(stream, "B"),
        other => panic!("unexpected: {:?}", other),
    }
    assert_eq!(app.player.current_index(), 1);
    app.selected = None;
    assert!(matches!(
        press(&mut app, Key::Char(' '), 4 * SECOND),
        Ok(KeyOutcome::Continue(OutputAction::Pause))
    ));
}

#[test]
fn step_keys_take_the_selection_along() {
    let mut app = App::new(loaded(&["A", "Bad", "C"]));
    match press(&mut app, Key::Char('n'), 0) {
        Ok(KeyOutcome::Continue(OutputAction::Replace(stream))) => assert_eq!(stream, "C"),
        other => panic!("unexpected: {:?}", other),
    }
    assert_eq!(app.player.current_index(), 2);
    assert_eq!(app.selected, Some(2));
    match press(&mut app, Key::Char('p'), 0) {
        Ok(KeyOutcome::Continue(OutputAction::Replace(stream))) => assert_eq!(stream, "C"),
        other => panic!("unexpected: {:?}", other),
    }
    assert_eq!(app.selected, Some(2));
    assert!(matches!(
        press(&mut app, Key::Char('n'), 0),
        Ok(KeyOutcome::Continue(OutputAction::Replace(_)))
    ));
    assert_eq!(app.player.current_index(), 0);
    assert_eq!(app.selected, Some(0));
}

#[test]
fn mode_and_stop_keys_reach_the_controller() {
    let mut app = App::new(loaded(&["A", "B"]));
    assert!(is_keep(&press(&mut app, Key::Char('s'), 0)));
    assert!(app.player.is_shuffled());
    assert!(is_keep(&press(&mut app, Key::Char('r'), 0)));
    assert_eq!(app.player.repeat_mode(), RepeatMode::One);
    assert!(matches!(
        press(&mut app, Key::Enter, 0),
        Ok(KeyOutcome::Continue(OutputAction::Replace(_)))
    ));
    assert!(matches!(
        press(&mut app, Key::Char('S'), SECOND),
        Ok(KeyOutcome::Continue(OutputAction::Halt))
    ));
    assert_eq!(app.player.state(), PlayState::Stopped);
}

#[test]
fn keys_without_meaning_do_nothing() {
    let mut app = App::new(loaded(&["A", "B"]));
    assert!(is_keep(&press(&mut app, Key::Char('x'), 0)));
    assert!(is_keep(&press(&mut app, Key::Other, 0)));
    assert_eq!(app.selected, Some(0));
    assert!(!app.show_help);
    assert_eq!(app.player.state(), PlayState::Stopped);
    assert_eq!(app.interpret(Key::Char('Q')), Intent::Nothing);
}

#[test]
fn play_key_on_a_hopeless_catalog_reports_it() {
    let mut app = App::new(loaded(&["Bad one", "Bad two"]));
    assert!(matches!(
        press(&mut app, Key::Enter, 0),
        Err(PlayerError::NoPlayableTrack)
    ));
    assert_eq!(app.player.state(), PlayState::Stopped);
    assert_eq!(app.selected, Some(0));
}

#[test]
fn interpret_names_the_command() {
    let mut app = App::new(loaded(&["A", "B"]));
    assert_eq!(app.interpret(Key::Char(' ')), Intent::Run(Command::TogglePause));
    assert_eq!(app.interpret(Key::Down), Intent::Nothing);
    assert_eq!(app.interpret(Key::Char(' ')), Intent::Run(Command::Select(1)));
    assert_eq!(app.interpret(Key::Enter), Intent::Run(Command::Select(1)));
    assert_eq!(app.interpret(Key::Char('n')), Intent::Run(Command::Next));
    assert_eq!(app.interpret(Key::Char('p')), Intent::Run(Command::Previous));
    assert_eq!(app.interpret(Key::Char('s')), Intent::Run(Command::ToggleShuffle));
    assert_eq!(app.interpret(Key::Char('r')), Intent::Run(Command::CycleRepeat));
    assert_eq!(app.interpret(Key::Char('S')), Intent::Run(Command::Stop));
}

#[test]
fn repeat_one_plays_the_finished_track_again() {
    let mut player = loaded(&["A", "B", "C"]);
    assert_eq!(replaced(player.execute(Command::Select(1), 0, open)), "B");
    player.cycle_repeat();
    assert_eq!(player.repeat_mode(), RepeatMode::One);
    let moved = player.advance_if_finished(4 * SECOND, true, open);
    assert_eq!(replaced(moved.unwrap()), "B");
    assert_eq!(player.current_index(), 1);
    assert_eq!(player.state(), PlayState::Playing);
    assert_eq!(player.elapsed(5 * SECOND), SECOND);
}

#[test]
fn repeat_all_and_off_move_on_to_the_next_track() {
    let mut player = loaded(&["A", "B"]);
    assert_eq!(replaced(player.execute(Command::Select(1), 0, open)), "B");
    player.cycle_repeat();
    player.cycle_repeat();
    assert_eq!(player.repeat_mode(), RepeatMode::All);
    let moved = player.advance_if_finished(4 * SECOND, true, open);
    assert_eq!(replaced(moved.unwrap()), "A");
    assert_eq!(player.current_index(), 0);
    player.cycle_repeat();
    assert_eq!(player.repeat_mode(), RepeatMode::Off);
    let moved = player.advance_if_finished(9 * SECOND, true, open);
    assert_eq!(replaced(moved.unwrap()), "B");
    assert_eq!(player.current_index(), 1);
}

#[test]
fn repeat_one_on_a_track_that_no_longer_decodes_fails_over() {
    let mut player = loaded(&["A", "B"]);
    assert_eq!(replaced(player.execute(Command::Select(0), 0, open)), "A");
    player.cycle_repeat();
    let only_b = |track: &Track| -> Option<String> {
        if track.title == "B" {
            Some(track.title.clone())
        } else {
            None
        }
    };
    let moved = player.advance_if_finished(SECOND, true, only_b);
    assert_eq!(replaced(moved.unwrap()), "B");
    assert_eq!(player.current_index(), 1);
}

#[test]
fn tick_takes_the_selection_along() {
    let mut app = App::new(loaded(&["A", "B", "C"]));
    assert!(matches!(
        press(&mut app, Key::Enter, 0),
        Ok(KeyOutcome::Continue(OutputAction::Replace(_)))
    ));
    assert!(app.tick::<String, _>(SECOND, false, open).is_none());
    assert_eq!(app.selected, Some(0));
    assert!(is_keep(&press(&mut app, Key::Down, SECOND)));
    assert!(is_keep(&press(&mut app, Key::Down, SECOND)));
    assert_eq!(app.selected, Some(2));
    let moved = app.tick(2 * SECOND, true, open);
    assert_eq!(replaced(moved.unwrap()), "B");
    assert_eq!(app.player.current_index(), 1);
    assert_eq!(app.selected, Some(1));
}

#[test]
fn tick_under_repeat_one_stays_on_the_track() {
    let mut app = App::new(loaded(&["A", "B"]));
    assert!(is_keep(&press(&mut app, Key::Char('r'), 0)));
    assert!(matches!(
        press(&mut app, Key::Enter, 0),
        Ok(KeyOutcome::Continue(OutputAction::Replace(_)))
    ));
    assert!(is_keep(&press(&mut app, Key::Down, SECOND)));
    let moved = app.tick(11 * SECOND, false, open);
    assert_eq!(replaced(moved.unwrap()), "A");
    assert_eq!(app.player.current_index(), 0);
    assert_eq!(app.selected, Some(0));
    assert_eq!(app.player.elapsed(12 * SECOND), SECOND);
}

#[test]
fn tick_does_nothing_while_paused() {
    let mut app = App::new(loaded(&["A", "B"]));
    assert!(matches!(
        press(&mut app, Key::Enter, 0),
        Ok(KeyOutcome::Continue(OutputAction::Replace(_)))
    ));
    assert!(matches!(
        press(&mut app, Key::Char(' '), SECOND),
        Ok(KeyOutcome::Continue(OutputAction::Pause))
    ));
    assert!(is_keep(&press(&mut app, Key::Down, SECOND)));
    assert!(app.tick::<String, _>(2 * SECOND, true, open).is_none());
    assert_eq!(app.player.current_index(), 0);
    assert_eq!(app.selected, Some(1));
    assert_eq!(app.player.state(), PlayState::Paused);
}
