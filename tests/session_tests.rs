use tuitype::config::{Config, Difficulty, TestMode};
use tuitype::session::{parse_digits, EndReason, Key, MenuState, Session, SettingChange, WarningState};
use tuitype::typing::TextSource;

fn config(mode: TestMode, repeat: bool, end_on_error: bool) -> Config {
    Config { test_mode: mode, difficulty: Difficulty::Easy, repeat_test: repeat, end_on_first_error: end_on_error }
}

fn typing_session(c: Config, target: &str) -> Session {
    let mut s = Session::new(c, TextSource::new(target.chars().collect(), false));
    s.restart(TextSource::new(target.chars().collect(), false));
    s
}

#[test]
fn starts_at_main_menu() {
    let s = Session::new(config(TestMode::Quote, false, false), TextSource::new(vec![], true));
    assert!(matches!(s.menu_state, MenuState::MainMenu(0)));
    assert!(matches!(s.warning_state, WarningState::Inactive));
}

#[test]
fn words_mode_completes_naturally() {
    let mut s = typing_session(config(TestMode::Words(2), false, false), "abcde fghi");
    for (i, c) in "abcde fghi".chars().enumerate() {
        assert!(matches!(s.menu_state, MenuState::Typing));
        s.handle_key(Key::Char(c), 1000 * (i as u32 + 1));
    }
    assert!(matches!(s.menu_state, MenuState::TestComplete));
    assert_eq!(s.test_end_reason, None);
    assert!(s.stats.finished);
    assert_eq!(s.stats.accuracy.tenths(), 1000);
    assert_eq!(s.stats.wpm.tenths(), 120);
}

#[test]
fn timed_mode_ends_when_time_is_up() {
    let mut s = typing_session(config(TestMode::Timed(15), false, false), "some words to type");
    s.handle_key(Key::Char('s'), 0);
    s.tick(1000);
    assert_eq!(s.time_remaining, Some(14));
    assert_eq!(s.stats.wpm_samples.len(), 1);
    s.tick(15000);
    assert!(matches!(s.menu_state, MenuState::TestComplete));
    assert_eq!(s.test_end_reason, Some(EndReason::TimeUp));
    assert_eq!(s.time_remaining, Some(0));
    assert_eq!(s.stats.wpm_samples.len(), 1);
    assert_eq!(s.stats.raw_wpm_samples.len(), 1);
}

#[test]
fn first_error_ends_the_test() {
    let mut s = typing_session(config(TestMode::Words(5), false, true), "hello");
    s.handle_key(Key::Char('x'), 200);
    assert!(matches!(s.menu_state, MenuState::TestComplete));
    assert_eq!(s.test_end_reason, Some(EndReason::FirstError));
    assert_eq!(s.typed_text.len(), 1);
}

#[test]
fn mismatch_without_end_on_error_continues() {
    let mut s = typing_session(config(TestMode::Words(5), false, false), "hello");
    s.handle_key(Key::Char('x'), 200);
    assert!(matches!(s.menu_state, MenuState::Typing));
    s.handle_key(Key::Backspace, 300);
    assert!(s.typed_text.is_empty());
    assert_eq!(s.cursor_pos, 0);
}

#[test]
fn repeat_mode_warning_confirm_applies_change() {
    let mut s = Session::new(config(TestMode::Words(10), true, false), TextSource::new(vec!['a'], false));
    s.handle_key(Key::Down, 0);
    s.handle_key(Key::Enter, 0);
    assert!(matches!(s.menu_state, MenuState::DifficultyMenu(0)));
    s.handle_key(Key::Down, 0);
    s.handle_key(Key::Enter, 0);
    match &s.warning_state {
        WarningState::RepeatModeSettings { action, prev_state } => {
            assert_eq!(*action, SettingChange::Difficulty(Difficulty::Medium));
            assert!(matches!(prev_state, MenuState::DifficultyMenu(1)));
        }
        WarningState::Inactive => panic!("expected the warning"),
    }
    assert_eq!(s.config.difficulty, Difficulty::Easy);
    s.handle_key(Key::Enter, 0);
    assert!(matches!(s.warning_state, WarningState::Inactive));
    assert!(!s.config.repeat_test);
    assert_eq!(s.config.difficulty, Difficulty::Medium);
    assert!(s.restart_requested);
}

#[test]
fn repeat_mode_warning_cancel_restores_menu() {
    let mut s = Session::new(config(TestMode::Words(10), true, false), TextSource::new(vec!['a'], false));
    s.handle_key(Key::Down, 0);
    s.handle_key(Key::Enter, 0);
    s.handle_key(Key::Down, 0);
    s.handle_key(Key::Down, 0);
    s.handle_key(Key::Enter, 0);
    assert!(matches!(s.warning_state, WarningState::RepeatModeSettings { .. }));
    s.handle_key(Key::Esc, 0);
    assert!(matches!(s.warning_state, WarningState::Inactive));
    assert!(matches!(s.menu_state, MenuState::DifficultyMenu(2)));
    assert!(s.config.repeat_test);
    assert_eq!(s.config.difficulty, Difficulty::Easy);
}

#[test]
fn menu_navigation_wraps() {
    let mut s = Session::new(config(TestMode::Quote, false, false), TextSource::new(vec![], true));
    s.handle_key(Key::Up, 0);
    assert!(matches!(s.menu_state, MenuState::MainMenu(5)));
    s.handle_key(Key::Down, 0);
    assert!(matches!(s.menu_state, MenuState::MainMenu(0)));
}

#[test]
fn escape_moves_between_typing_and_menu() {
    let mut s = typing_session(config(TestMode::Quote, false, false), "abc");
    s.handle_key(Key::Char('a'), 10);
    s.handle_key(Key::Esc, 20);
    assert!(matches!(s.menu_state, MenuState::MainMenu(0)));
    s.handle_key(Key::Esc, 30);
    assert!(matches!(s.menu_state, MenuState::Typing));
    assert_eq!(s.typed_text, vec!['a']);
}

#[test]
fn custom_time_input_accepts_digits_only() {
    let mut s = Session::new(config(TestMode::Quote, false, false), TextSource::new(vec![], true));
    s.handle_key(Key::Enter, 0);
    s.handle_key(Key::Enter, 0);
    assert!(matches!(s.menu_state, MenuState::TimeMenu(0)));
    for _ in 0..4 {
        s.handle_key(Key::Down, 0);
    }
    s.handle_key(Key::Enter, 0);
    assert!(matches!(s.menu_state, MenuState::CustomTimedInput(_)));
    s.handle_key(Key::Char('4'), 0);
    s.handle_key(Key::Char('x'), 0);
    s.handle_key(Key::Char('5'), 0);
    s.handle_key(Key::Char('7'), 0);
    s.handle_key(Key::Backspace, 0);
    match &s.menu_state {
        MenuState::CustomTimedInput(b) => assert_eq!(*b, vec!['4', '5']),
        _ => panic!("expected the custom input"),
    }
    s.handle_key(Key::Enter, 0);
    assert_eq!(s.config.test_mode, TestMode::Timed(45));
    assert!(matches!(s.menu_state, MenuState::TimeMenu(0)));
}

#[test]
fn parse_digits_saturates() {
    assert_eq!(parse_digits(&"0042".chars().collect()), 42);
    assert_eq!(parse_digits(&"99999999999999999999999".chars().collect()), u64::MAX);
}

#[test]
fn help_scroll_is_clamped() {
    let mut s = Session::new(config(TestMode::Quote, false, false), TextSource::new(vec![], true));
    for _ in 0..4 {
        s.handle_key(Key::Down, 0);
    }
    s.handle_key(Key::Enter, 0);
    assert!(matches!(s.menu_state, MenuState::Help));
    s.handle_key(Key::Up, 0);
    assert_eq!(s.help_scroll_offset, 0);
    for _ in 0..100 {
        s.handle_key(Key::Down, 0);
    }
    assert_eq!(s.help_scroll_offset, 40);
}

#[test]
fn tab_requests_restart() {
    let mut s = typing_session(config(TestMode::Quote, false, false), "abc");
    s.handle_key(Key::Tab, 0);
    assert!(s.restart_requested);
}
