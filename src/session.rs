use vstd::prelude::*;

use crate::config::{Config, Difficulty, TestMode};
use crate::stats::{accuracy_spec, speed_spec, Stats};
use crate::typing::TextSource;

verus! {

/// The screen the user is on. Each menu carries its selected item.
#[derive(Debug)]
pub enum MenuState {
    MainMenu(usize),
    TestModeMenu(usize),
    DifficultyMenu(usize),
    TimeMenu(usize),
    WordCountMenu(usize),
    ThemeMenu(usize),
    /// The digits entered so far for a custom time.
    CustomTimedInput(Vec<char>),
    /// The digits entered so far for a custom word count.
    CustomWordsInput(Vec<char>),
    SettingsMenu(usize),
    Help,
    TestComplete,
    Typing,
}

/// A change of setting that repeat mode guards.
#[derive(Clone, Copy, Debug, PartialEq, Eq)]
pub enum SettingChange {
    Mode(TestMode),
    Difficulty(Difficulty),
}

/// A modal warning over the current screen.
#[derive(Debug)]
pub enum WarningState {
    Inactive,
    /// A guarded change was attempted in repeat mode, from `prev_state`.
    RepeatModeSettings { action: SettingChange, prev_state: MenuState },
}

/// Why a test ended before its text was typed.
#[derive(Clone, Copy, Debug, PartialEq, Eq)]
pub enum EndReason {
    TimeUp,
    FirstError,
}

/// An input event.
#[derive(Clone, Copy, Debug, PartialEq, Eq)]
pub enum Key {
    Up,
    Down,
    Enter,
    Esc,
    Tab,
    Backspace,
    Char(char),
}

/// The number of items of each list menu; zero for the other screens.
pub open spec fn menu_len(m: MenuState) -> nat {
    match m {
        MenuState::MainMenu(_) => 6,
        MenuState::TestModeMenu(_) => 4,
        MenuState::DifficultyMenu(_) => 4,
        MenuState::TimeMenu(_) => 6,
        MenuState::WordCountMenu(_) => 5,
        MenuState::ThemeMenu(_) => 6,
        MenuState::SettingsMenu(_) => 3,
        _ => 0,
    }
}

/// The selected item of a list menu.
pub open spec fn menu_index(m: MenuState) -> nat {
    match m {
        MenuState::MainMenu(i) => i as nat,
        MenuState::TestModeMenu(i) => i as nat,
        MenuState::DifficultyMenu(i) => i as nat,
        MenuState::TimeMenu(i) => i as nat,
        MenuState::WordCountMenu(i) => i as nat,
        MenuState::ThemeMenu(i) => i as nat,
        MenuState::SettingsMenu(i) => i as nat,
        _ => 0,
    }
}

/// A list menu of the same kind with item `i` selected.
pub open spec fn with_index(m: MenuState, i: usize) -> MenuState {
    match m {
        MenuState::MainMenu(_) => MenuState::MainMenu(i),
        MenuState::TestModeMenu(_) => MenuState::TestModeMenu(i),
        MenuState::DifficultyMenu(_) => MenuState::DifficultyMenu(i),
        MenuState::TimeMenu(_) => MenuState::TimeMenu(i),
        MenuState::WordCountMenu(_) => MenuState::WordCountMenu(i),
        MenuState::ThemeMenu(_) => MenuState::ThemeMenu(i),
        MenuState::SettingsMenu(_) => MenuState::SettingsMenu(i),
        _ => m,
    }
}

/// Where `Esc` leads, and where applying a setting returns to: a submenu's
/// parent, the main menu from typing or a finished test, typing from the
/// main menu.
pub open spec fn parent(m: MenuState) -> MenuState {
    match m {
        MenuState::MainMenu(_) => MenuState::Typing,
        MenuState::TimeMenu(_) => MenuState::TestModeMenu(0),
        MenuState::WordCountMenu(_) => MenuState::TestModeMenu(0),
        MenuState::CustomTimedInput(_) => MenuState::TimeMenu(0),
        MenuState::CustomWordsInput(_) => MenuState::WordCountMenu(0),
        _ => MenuState::MainMenu(0),
    }
}

/// The selection after one step down or up in a list of `n` items, wrapping around.
pub open spec fn moved_index(i: int, n: int, down: bool) -> int {
    if down { (i + 1) % n } else { (i + n - 1) % n }
}

/// The number of lines of the help screen, which bounds its scroll offset.
pub const HELP_LINES: usize = 41;

/// The number of colour themes.
pub const THEME_COUNT: usize = 5;

/// The value of a string of decimal digits, saturating at `u64::MAX`.
pub open spec fn digits_value(d: Seq<char>) -> nat
    decreases d.len(),
{
    if d.len() == 0 {
        0
    } else {
        let v = digits_value(d.drop_last()) * 10 + digit_value(d.last());
        if v > u64::MAX { u64::MAX as nat } else { v }
    }
}

pub open spec fn is_digit(c: char) -> bool {
    '0' <= c && c <= '9'
}

pub open spec fn digit_value(c: char) -> nat {
    if is_digit(c) { (c as nat - '0' as nat) as nat } else { 0 }
}

/// Reads a string of digits as a number, saturating at `u64::MAX`.
pub fn parse_digits(d: &Vec<char>) -> (r: u64)
    ensures
        r == digits_value(d@),
{
    let mut v: u64 = 0;
    let mut i: usize = 0;
    while i < d.len()
        invariant
            i <= d@.len(),
            v == digits_value(d@.subrange(0, i as int)),
        decreases d@.len() - i,
    {
        let c = d[i];
        let dv: u64 = if '0' <= c && c <= '9' { (c as u32 - '0' as u32) as u64 } else { 0 };
        proof {
            let s = d@.subrange(0, i + 1);
            assert(s.drop_last() == d@.subrange(0, i as int));
            assert(s.last() == c);
        }
        if v > (u64::MAX - dv) / 10 {
            v = u64::MAX;
        } else {
            v = v * 10 + dv;
        }
        i = i + 1;
    }
    assert(d@.subrange(0, d@.len() as int) == d@);
    v
}

/// The number of typed characters that equal the target at their index.
pub open spec fn correct_count(full: Seq<char>, typed: Seq<char>, n: int) -> nat
    decreases n,
{
    if n <= 0 {
        0
    } else {
        correct_count(full, typed, n - 1) + if n - 1 < full.len() && typed[n - 1] == full[n - 1] {
            1nat
        } else {
            0nat
        }
    }
}

proof fn lemma_correct_count_le(full: Seq<char>, typed: Seq<char>, n: int)
    requires
        n >= 0,
    ensures
        correct_count(full, typed, n) <= n,
    decreases n,
{
    if n > 0 {
        lemma_correct_count_le(full, typed, n - 1);
    }
}

/// Counts the correct characters of `typed`.
pub fn count_correct(full: &Vec<char>, typed: &Vec<char>) -> (r: usize)
    ensures
        r == correct_count(full@, typed@, typed@.len() as int),
        r <= typed@.len(),
{
    let mut n: usize = 0;
    let mut i: usize = 0;
    while i < typed.len()
        invariant
            i <= typed@.len(),
            n == correct_count(full@, typed@, i as int),
            n <= i,
        decreases typed@.len() - i,
    {
        if i < full.len() && typed[i] == full[i] {
            n = n + 1;
        }
        i = i + 1;
    }
    n
}

/// What `Enter` does on a screen.
#[derive(Debug)]
pub enum Choice {
    /// Moves to another screen.
    Go(MenuState),
    OpenCustomTime,
    OpenCustomWords,
    /// Asks for a guarded change of setting.
    Change(SettingChange),
    SetTheme(usize),
    ToggleRepeat,
    ToggleEndOnError,
    /// Asks for a new test.
    Restart,
    Nothing,
}

/// The time limits offered, in seconds.
pub open spec fn time_choice(i: nat) -> u64 {
    if i == 0 { 15 } else if i == 1 { 30 } else if i == 2 { 60 } else { 120 }
}

/// The word counts offered.
pub open spec fn word_choice(i: nat) -> u64 {
    if i == 0 { 10 } else if i == 1 { 25 } else { 50 }
}

/// What `Enter` does: the items of each menu in order, the last of each
/// leading back; a custom input confirms its number once it holds a digit.
pub open spec fn choice_spec(m: MenuState) -> Choice {
    match m {
        MenuState::MainMenu(i) => if i == 0 {
            Choice::Go(MenuState::TestModeMenu(0))
        } else if i == 1 {
            Choice::Go(MenuState::DifficultyMenu(0))
        } else if i == 2 {
            Choice::Go(MenuState::ThemeMenu(0))
        } else if i == 3 {
            Choice::Go(MenuState::SettingsMenu(0))
        } else if i == 4 {
            Choice::Go(MenuState::Help)
        } else {
            Choice::Go(MenuState::Typing)
        },
        MenuState::TestModeMenu(i) => if i == 0 {
            Choice::Go(MenuState::TimeMenu(0))
        } else if i == 1 {
            Choice::Go(MenuState::WordCountMenu(0))
        } else if i == 2 {
            Choice::Change(SettingChange::Mode(TestMode::Quote))
        } else {
            Choice::Go(MenuState::MainMenu(0))
        },
        MenuState::DifficultyMenu(i) => if i == 0 {
            Choice::Change(SettingChange::Difficulty(Difficulty::Easy))
        } else if i == 1 {
            Choice::Change(SettingChange::Difficulty(Difficulty::Medium))
        } else if i == 2 {
            Choice::Change(SettingChange::Difficulty(Difficulty::Hard))
        } else {
            Choice::Go(MenuState::MainMenu(0))
        },
        MenuState::TimeMenu(i) => if i < 4 {
            Choice::Change(SettingChange::Mode(TestMode::Timed(time_choice(i as nat))))
        } else if i == 4 {
            Choice::OpenCustomTime
        } else {
            Choice::Go(MenuState::TestModeMenu(0))
        },
        MenuState::WordCountMenu(i) => if i < 3 {
            Choice::Change(SettingChange::Mode(TestMode::Words(word_choice(i as nat))))
        } else if i == 3 {
            Choice::OpenCustomWords
        } else {
            Choice::Go(MenuState::TestModeMenu(0))
        },
        MenuState::ThemeMenu(i) => if i < 5 {
            Choice::SetTheme(i)
        } else {
            Choice::Go(MenuState::MainMenu(0))
        },
        MenuState::SettingsMenu(i) => if i == 0 {
            Choice::ToggleRepeat
        } else if i == 1 {
            Choice::ToggleEndOnError
        } else {
            Choice::Go(MenuState::MainMenu(0))
        },
        MenuState::CustomTimedInput(b) => if b@.len() > 0 {
            Choice::Change(SettingChange::Mode(TestMode::Timed(digits_value(b@) as u64)))
        } else {
            Choice::Nothing
        },
        MenuState::CustomWordsInput(b) => if b@.len() > 0 {
            Choice::Change(SettingChange::Mode(TestMode::Words(digits_value(b@) as u64)))
        } else {
            Choice::Nothing
        },
        MenuState::TestComplete => Choice::Restart,
        _ => Choice::Nothing,
    }
}

/// What `Enter` does on screen `m`.
pub fn choice(m: &MenuState) -> (r: Choice)
    ensures
        r == choice_spec(*m),
{
    match m {
        MenuState::MainMenu(i) => if *i == 0 {
            Choice::Go(MenuState::TestModeMenu(0))
        } else if *i == 1 {
            Choice::Go(MenuState::DifficultyMenu(0))
        } else if *i == 2 {
            Choice::Go(MenuState::ThemeMenu(0))
        } else if *i == 3 {
            Choice::Go(MenuState::SettingsMenu(0))
        } else if *i == 4 {
            Choice::Go(MenuState::Help)
        } else {
            Choice::Go(MenuState::Typing)
        },
        MenuState::TestModeMenu(i) => if *i == 0 {
            Choice::Go(MenuState::TimeMenu(0))
        } else if *i == 1 {
            Choice::Go(MenuState::WordCountMenu(0))
        } else if *i == 2 {
            Choice::Change(SettingChange::Mode(TestMode::Quote))
        } else {
            Choice::Go(MenuState::MainMenu(0))
        },
        MenuState::DifficultyMenu(i) => if *i == 0 {
            Choice::Change(SettingChange::Difficulty(Difficulty::Easy))
        } else if *i == 1 {
            Choice::Change(SettingChange::Difficulty(Difficulty::Medium))
        } else if *i == 2 {
            Choice::Change(SettingChange::Difficulty(Difficulty::Hard))
        } else {
            Choice::Go(MenuState::MainMenu(0))
        },
        MenuState::TimeMenu(i) => if *i < 4 {
            let secs: u64 = if *i == 0 { 15 } else if *i == 1 { 30 } else if *i == 2 { 60 } else { 120 };
            Choice::Change(SettingChange::Mode(TestMode::Timed(secs)))
        } else if *i == 4 {
            Choice::OpenCustomTime
        } else {
            Choice::Go(MenuState::TestModeMenu(0))
        },
        MenuState::WordCountMenu(i) => if *i < 3 {
            let n: u64 = if *i == 0 { 10 } else if *i == 1 { 25 } else { 50 };
            Choice::Change(SettingChange::Mode(TestMode::Words(n)))
        } else if *i == 3 {
            Choice::OpenCustomWords
        } else {
            Choice::Go(MenuState::TestModeMenu(0))
        },
        MenuState::ThemeMenu(i) => if *i < 5 {
            Choice::SetTheme(*i)
        } else {
            Choice::Go(MenuState::MainMenu(0))
        },
        MenuState::SettingsMenu(i) => if *i == 0 {
            Choice::ToggleRepeat
        } else if *i == 1 {
            Choice::ToggleEndOnError
        } else {
            Choice::Go(MenuState::MainMenu(0))
        },
        MenuState::CustomTimedInput(b) => if b.len() > 0 {
            Choice::Change(SettingChange::Mode(TestMode::Timed(parse_digits(b))))
        } else {
            Choice::Nothing
        },
        MenuState::CustomWordsInput(b) => if b.len() > 0 {
            Choice::Change(SettingChange::Mode(TestMode::Words(parse_digits(b))))
        } else {
            Choice::Nothing
        },
        MenuState::TestComplete => Choice::Restart,
        _ => Choice::Nothing,
    }
}

/// The screen `Esc` leads to from `m`.
pub fn parent_of(m: &MenuState) -> (r: MenuState)
    ensures
        r == parent(*m),
{
    match m {
        MenuState::MainMenu(_) => MenuState::Typing,
        MenuState::TimeMenu(_) => MenuState::TestModeMenu(0),
        MenuState::WordCountMenu(_) => MenuState::TestModeMenu(0),
        MenuState::CustomTimedInput(_) => MenuState::TimeMenu(0),
        MenuState::CustomWordsInput(_) => MenuState::WordCountMenu(0),
        _ => MenuState::MainMenu(0),
    }
}

/// The item count of a list menu, zero for other screens.
pub fn menu_len_of(m: &MenuState) -> (r: usize)
    ensures
        r == menu_len(*m),
{
    match m {
        MenuState::MainMenu(_) => 6,
        MenuState::TestModeMenu(_) => 4,
        MenuState::DifficultyMenu(_) => 4,
        MenuState::TimeMenu(_) => 6,
        MenuState::WordCountMenu(_) => 5,
        MenuState::ThemeMenu(_) => 6,
        MenuState::SettingsMenu(_) => 3,
        _ => 0,
    }
}

/// The selected item of a list menu.
pub fn menu_index_of(m: &MenuState) -> (r: usize)
    ensures
        r == menu_index(*m),
{
    match m {
        MenuState::MainMenu(i) => *i,
        MenuState::TestModeMenu(i) => *i,
        MenuState::DifficultyMenu(i) => *i,
        MenuState::TimeMenu(i) => *i,
        MenuState::WordCountMenu(i) => *i,
        MenuState::ThemeMenu(i) => *i,
        MenuState::SettingsMenu(i) => *i,
        _ => 0,
    }
}

/// The same list menu with item `i` selected.
pub fn set_index(m: &MenuState, i: usize) -> (r: MenuState)
    requires
        menu_len(*m) > 0,
    ensures
        r == with_index(*m, i),
{
    match m {
        MenuState::MainMenu(_) => MenuState::MainMenu(i),
        MenuState::TestModeMenu(_) => MenuState::TestModeMenu(i),
        MenuState::DifficultyMenu(_) => MenuState::DifficultyMenu(i),
        MenuState::TimeMenu(_) => MenuState::TimeMenu(i),
        MenuState::WordCountMenu(_) => MenuState::WordCountMenu(i),
        MenuState::ThemeMenu(_) => MenuState::ThemeMenu(i),
        _ => MenuState::SettingsMenu(i),
    }
}

/// A configuration with `c` applied.
pub open spec fn applied(config: Config, c: SettingChange) -> Config {
    match c {
        SettingChange::Mode(m) => Config { test_mode: m, ..config },
        SettingChange::Difficulty(d) => Config { difficulty: d, ..config },
    }
}

/// The effect of moving the selection down or up.
pub open spec fn navigate_post(s: Session, t: Session, down: bool) -> bool {
    &&& t.wf()
    &&& t.config == s.config
    &&& t.typed_text@ == s.typed_text@
    &&& t.warning_state == s.warning_state
    &&& menu_len(s.menu_state) > 0 ==> t.menu_state == with_index(
        s.menu_state,
        moved_index(menu_index(s.menu_state) as int, menu_len(s.menu_state) as int, down) as usize,
    )
    &&& s.menu_state is Help ==> t.menu_state == MenuState::Help && t.help_scroll_offset == if down {
        if s.help_scroll_offset + 1 < HELP_LINES { s.help_scroll_offset + 1 } else { s.help_scroll_offset as int }
    } else {
        if s.help_scroll_offset > 0 { s.help_scroll_offset - 1 } else { 0 }
    }
    &&& menu_len(s.menu_state) == 0 && !(s.menu_state is Help) ==> t.menu_state == s.menu_state
}

/// The effect of `Enter`: a warning is confirmed (repeat mode goes off and
/// the change is made), or the screen's choice is carried out. In repeat
/// mode a change of mode or difficulty raises the warning instead, keeping
/// the screen it came from.
pub open spec fn select_post(s: Session, t: Session) -> bool {
    &&& t.wf()
    &&& t.typed_text@ == s.typed_text@
    &&& match s.warning_state {
        WarningState::RepeatModeSettings { action, prev_state } => {
            &&& t.config == applied(Config { repeat_test: false, ..s.config }, action)
            &&& t.menu_state == parent(prev_state)
            &&& t.warning_state == WarningState::Inactive
            &&& t.restart_requested
        },
        WarningState::Inactive => match choice_spec(s.menu_state) {
            Choice::Go(m) => t.menu_state == m && t.config == s.config,
            Choice::OpenCustomTime => t.menu_state is CustomTimedInput
                && t.menu_state->CustomTimedInput_0@.len() == 0,
            Choice::OpenCustomWords => t.menu_state is CustomWordsInput
                && t.menu_state->CustomWordsInput_0@.len() == 0,
            Choice::Change(c) => if s.config.repeat_test {
                &&& t.config == s.config
                &&& t.warning_state == (WarningState::RepeatModeSettings { action: c, prev_state: s.menu_state })
            } else {
                &&& t.config == applied(s.config, c)
                &&& t.menu_state == parent(s.menu_state)
                &&& t.warning_state == WarningState::Inactive
                &&& t.restart_requested
            },
            Choice::SetTheme(k) => t.theme == k && t.menu_state == MenuState::MainMenu(0),
            Choice::ToggleRepeat => t.config == (Config { repeat_test: !s.config.repeat_test, ..s.config })
                && t.menu_state == s.menu_state,
            Choice::ToggleEndOnError => t.config == (Config {
                end_on_first_error: !s.config.end_on_first_error,
                ..s.config
            }) && t.menu_state == s.menu_state,
            Choice::Restart => t.restart_requested && t.menu_state == s.menu_state,
            Choice::Nothing => t.menu_state == s.menu_state && t.config == s.config,
        },
    }
}

/// The effect of `Esc`: a warning is cancelled, restoring the screen it was
/// raised on, or the parent screen is shown.
pub open spec fn escape_post(s: Session, t: Session) -> bool {
    &&& t.wf()
    &&& t.config == s.config
    &&& t.typed_text@ == s.typed_text@
    &&& t.warning_state == WarningState::Inactive
    &&& match s.warning_state {
        WarningState::RepeatModeSettings { prev_state, .. } => t.menu_state == prev_state,
        WarningState::Inactive => t.menu_state == parent(s.menu_state),
    }
}

/// Whether `s` is in a running test that can take one more character.
pub open spec fn accepts_char(s: Session) -> bool {
    s.warning_state is Inactive && s.menu_state is Typing && s.typed_text@.len() < u32::MAX
}

/// Whether typing `c` next in `s` is a mismatch: it differs from the target
/// or lies past its end.
pub open spec fn is_mismatch(s: Session, c: char) -> bool {
    let pos = s.typed_text@.len();
    pos >= s.text_source.full_text@.len() || c != s.text_source.full_text@[pos as int]
}

/// The effect of a printable character: it is typed in a running test, and
/// a digit is entered into a custom input. A test ends at once on a mismatch
/// when it ends on the first error, and, outside timed mode, when the typed
/// text reaches the target's length.
pub open spec fn type_char_post(s: Session, t: Session, c: char) -> bool {
    &&& t.wf()
    &&& t.config == s.config
    &&& t.warning_state == s.warning_state
    &&& accepts_char(s) ==> {
        let reached = s.typed_text@.len() + 1 >= s.text_source.full_text@.len();
        let stop = s.config.end_on_first_error && is_mismatch(s, c);
        &&& t.typed_text@ == s.typed_text@.push(c)
        &&& t.started
        &&& stop ==> t.menu_state == MenuState::TestComplete
            && t.test_end_reason == Some(EndReason::FirstError)
        &&& !stop && !(s.config.test_mode is Timed) && reached ==>
            t.menu_state == MenuState::TestComplete && t.test_end_reason == s.test_end_reason
        &&& !stop && (s.config.test_mode is Timed || !reached) ==> t.menu_state == MenuState::Typing
    }
    &&& s.warning_state is Inactive && s.menu_state is CustomTimedInput ==>
        t.menu_state is CustomTimedInput && t.menu_state->CustomTimedInput_0@ == if is_digit(c) {
            s.menu_state->CustomTimedInput_0@.push(c)
        } else {
            s.menu_state->CustomTimedInput_0@
        }
    &&& s.warning_state is Inactive && s.menu_state is CustomWordsInput ==>
        t.menu_state is CustomWordsInput && t.menu_state->CustomWordsInput_0@ == if is_digit(c) {
            s.menu_state->CustomWordsInput_0@.push(c)
        } else {
            s.menu_state->CustomWordsInput_0@
        }
    &&& !(s.warning_state is Inactive && (s.menu_state is Typing || s.menu_state is CustomTimedInput
        || s.menu_state is CustomWordsInput)) ==> t.menu_state == s.menu_state
        && t.typed_text@ == s.typed_text@
}

/// The effect of `Backspace`: the last typed character of a running test,
/// or the last digit of a custom input, is removed.
pub open spec fn backspace_post(s: Session, t: Session) -> bool {
    &&& t.wf()
    &&& t.config == s.config
    &&& t.warning_state == s.warning_state
    &&& s.warning_state is Inactive && s.menu_state is Typing ==> t.menu_state == MenuState::Typing
        && t.typed_text@ == if s.typed_text@.len() > 0 { s.typed_text@.drop_last() } else { s.typed_text@ }
    &&& s.warning_state is Inactive && s.menu_state is CustomTimedInput ==>
        t.menu_state is CustomTimedInput && t.menu_state->CustomTimedInput_0@ == if s.menu_state->CustomTimedInput_0@.len() > 0 {
            s.menu_state->CustomTimedInput_0@.drop_last()
        } else {
            s.menu_state->CustomTimedInput_0@
        }
    &&& s.warning_state is Inactive && s.menu_state is CustomWordsInput ==>
        t.menu_state is CustomWordsInput && t.menu_state->CustomWordsInput_0@ == if s.menu_state->CustomWordsInput_0@.len() > 0 {
            s.menu_state->CustomWordsInput_0@.drop_last()
        } else {
            s.menu_state->CustomWordsInput_0@
        }
    &&& !(s.warning_state is Inactive && (s.menu_state is Typing || s.menu_state is CustomTimedInput
        || s.menu_state is CustomWordsInput)) ==> t.menu_state == s.menu_state
        && t.typed_text@ == s.typed_text@
}

/// In repeat mode, choosing a difficulty raises the warning and changes
/// nothing; cancelling it returns to the same menu with the settings as they
/// were, and confirming it turns repeat mode off and sets the chosen
/// difficulty.
pub proof fn law_repeat_mode_guard(s0: Session, s1: Session, cancelled: Session, confirmed: Session, d: Difficulty)
    requires
        s0.warning_state is Inactive,
        s0.config.repeat_test,
        choice_spec(s0.menu_state) == Choice::Change(SettingChange::Difficulty(d)),
        select_post(s0, s1),
        escape_post(s1, cancelled),
        select_post(s1, confirmed),
    ensures
        s1.config == s0.config,
        s1.warning_state == (WarningState::RepeatModeSettings {
            action: SettingChange::Difficulty(d),
            prev_state: s0.menu_state,
        }),
        cancelled.menu_state == s0.menu_state,
        cancelled.config == s0.config,
        cancelled.warning_state is Inactive,
        !confirmed.config.repeat_test,
        confirmed.config.difficulty == d,
        confirmed.config.test_mode == s0.config.test_mode,
        confirmed.warning_state is Inactive,
{
}

/// One typing test and the menus around it.
pub struct Session {
    pub config: Config,
    pub menu_state: MenuState,
    /// While a warning is up, `menu_state` is not shown and the screen to
    /// return to is kept in the warning.
    pub warning_state: WarningState,
    pub text_source: TextSource,
    pub typed_text: Vec<char>,
    /// The index of the next character to type.
    pub cursor_pos: usize,
    pub stats: Stats,
    /// Seconds left in a timed test, once it has started.
    pub time_remaining: Option<u64>,
    pub test_end_reason: Option<EndReason>,
    pub help_scroll_offset: usize,
    pub theme: usize,
    /// Whether the first character has been typed.
    pub started: bool,
    /// Set when a new text is wanted: a restart, or a changed setting.
    pub restart_requested: bool,
}

impl Session {
    pub open spec fn wf(&self) -> bool {
        &&& self.cursor_pos == self.typed_text@.len()
        &&& self.typed_text@.len() <= u32::MAX
        &&& self.stats.wf()
        &&& self.text_source.wf()
        &&& self.help_scroll_offset < HELP_LINES
        &&& self.theme < THEME_COUNT
        &&& menu_index(self.menu_state) < menu_len(self.menu_state) || menu_len(self.menu_state) == 0
        &&& (self.warning_state matches WarningState::RepeatModeSettings { prev_state, .. } ==>
                menu_index(prev_state) < menu_len(prev_state) || menu_len(prev_state) == 0)
    }

    /// A session at the main menu, with a fresh test on `text`.
    pub fn new(config: Config, text: TextSource) -> (r: Session)
        requires
            text.wf(),
        ensures
            r.wf(),
            r.config == config,
            r.menu_state == MenuState::MainMenu(0),
            r.warning_state == WarningState::Inactive,
            r.typed_text@.len() == 0,
            r.test_end_reason.is_none(),
            !r.started,
    {
        Session {
            config,
            menu_state: MenuState::MainMenu(0),
            warning_state: WarningState::Inactive,
            text_source: text,
            typed_text: Vec::new(),
            cursor_pos: 0,
            stats: Stats::new(),
            time_remaining: None,
            test_end_reason: None,
            help_scroll_offset: 0,
            theme: 0,
            started: false,
            restart_requested: false,
        }
    }

    /// Starts a new test on `text`, in the typing screen.
    pub fn restart(&mut self, text: TextSource)
        requires
            old(self).wf(),
            text.wf(),
        ensures
            final(self).wf(),
            final(self).config == old(self).config,
            final(self).text_source == text,
            final(self).menu_state == MenuState::Typing,
            final(self).warning_state == WarningState::Inactive,
            final(self).typed_text@.len() == 0,
            final(self).test_end_reason.is_none(),
            final(self).time_remaining.is_none(),
            !final(self).started,
            !final(self).restart_requested,
            !final(self).stats.finished,
            final(self).stats.wpm_samples@.len() == 0,
    {
        self.text_source = text;
        self.typed_text = Vec::new();
        self.cursor_pos = 0;
        self.stats = Stats::new();
        self.time_remaining = None;
        self.test_end_reason = None;
        self.menu_state = MenuState::Typing;
        self.warning_state = WarningState::Inactive;
        self.started = false;
        self.restart_requested = false;
    }

    /// Recomputes the live figures from the text typed so far.
    fn refresh_stats(&mut self, elapsed_ms: u32)
        requires
            old(self).wf(),
        ensures
            final(self).wf(),
            final(self).stats.finished == old(self).stats.finished,
            final(self).stats.wpm_samples@ == old(self).stats.wpm_samples@,
            !old(self).stats.finished ==> final(self).stats.wpm == speed_spec(
                correct_count(old(self).text_source.full_text@, old(self).typed_text@, old(self).typed_text@.len() as int) as u32,
                elapsed_ms,
            ),
            final(self).menu_state == old(self).menu_state,
            final(self).warning_state == old(self).warning_state,
            final(self).typed_text@ == old(self).typed_text@,
            final(self).text_source == old(self).text_source,
            final(self).config == old(self).config,
            final(self).test_end_reason == old(self).test_end_reason,
            final(self).time_remaining == old(self).time_remaining,
            final(self).started == old(self).started,
            final(self).restart_requested == old(self).restart_requested,
            final(self).help_scroll_offset == old(self).help_scroll_offset,
            final(self).theme == old(self).theme,
    {
        let correct = count_correct(&self.text_source.full_text, &self.typed_text);
        let typed = self.typed_text.len();
        self.stats.update(correct as u32, typed as u32, elapsed_ms);
    }

    /// Ends the test: the figures are frozen and the summary is shown.
    fn complete(&mut self, reason: Option<EndReason>, elapsed_ms: u32)
        requires
            old(self).wf(),
        ensures
            final(self).wf(),
            final(self).menu_state == MenuState::TestComplete,
            final(self).test_end_reason == reason,
            final(self).stats.finished,
            final(self).warning_state == old(self).warning_state,
            final(self).typed_text@ == old(self).typed_text@,
            final(self).text_source == old(self).text_source,
            final(self).config == old(self).config,
            final(self).time_remaining == old(self).time_remaining,
            final(self).started == old(self).started,
            final(self).stats.wpm_samples@ == old(self).stats.wpm_samples@,
    {
        self.refresh_stats(elapsed_ms);
        self.stats.finish();
        self.menu_state = MenuState::TestComplete;
        self.test_end_reason = reason;
    }

    /// Advances the clock of a running test to `elapsed_ms` after its first
    /// keystroke. A timed test whose countdown reaches zero ends with
    /// `TimeUp` and takes no further sample; otherwise the figures are
    /// refreshed and one sample is appended.
    pub fn tick(&mut self, elapsed_ms: u32)
        requires
            old(self).wf(),
        ensures
            final(self).wf(),
            final(self).config == old(self).config,
            final(self).typed_text@ == old(self).typed_text@,
            !(old(self).menu_state is Typing && old(self).started && old(self).warning_state is Inactive)
                ==> final(self).menu_state == old(self).menu_state
                && final(self).stats.wpm_samples@ == old(self).stats.wpm_samples@,
            old(self).menu_state is Typing && old(self).started && old(self).warning_state is Inactive ==> ({
                let expired = match old(self).config.test_mode {
                    TestMode::Timed(secs) => secs <= elapsed_ms / 1000,
                    _ => false,
                };
                &&& (old(self).config.test_mode matches TestMode::Timed(secs) ==>
                    final(self).time_remaining == Some(
                        if secs <= elapsed_ms / 1000 { 0u64 } else { (secs - elapsed_ms / 1000) as u64 }))
                &&& expired ==> final(self).menu_state == MenuState::TestComplete
                    && final(self).test_end_reason == Some(EndReason::TimeUp)
                    && final(self).stats.wpm_samples@ == old(self).stats.wpm_samples@
                &&& !expired ==> final(self).menu_state == MenuState::Typing
                    && final(self).stats.wpm_samples@.len() == old(self).stats.wpm_samples@.len()
                        + if old(self).stats.finished { 0int } else { 1int }
                &&& !expired && !old(self).stats.finished ==> {
                    let wpm = speed_spec(
                        correct_count(old(self).text_source.full_text@, old(self).typed_text@, old(self).typed_text@.len() as int) as u32,
                        elapsed_ms,
                    );
                    &&& final(self).stats.wpm == wpm
                    &&& final(self).stats.wpm_samples@ == old(self).stats.wpm_samples@.push(wpm)
                }
            }),
    {
        let running = match self.menu_state {
            MenuState::Typing => self.started,
            _ => false,
        };
        let no_warning = match self.warning_state {
            WarningState::Inactive => true,
            _ => false,
        };
        if !running || !no_warning {
            return;
        }
        let secs_done: u64 = (elapsed_ms / 1000) as u64;
        match self.config.test_mode {
            TestMode::Timed(secs) => {
                let left: u64 = if secs <= secs_done { 0 } else { secs - secs_done };
                self.time_remaining = Some(left);
                if left == 0 {
                    self.complete(Some(EndReason::TimeUp), elapsed_ms);
                    return;
                }
            },
            _ => {},
        }
        self.refresh_stats(elapsed_ms);
        self.stats.record_sample();
    }

    /// Moves the selection of a list menu by one, wrapping around, or
    /// scrolls the help screen by one line within its length.
    pub fn navigate(&mut self, down: bool)
        requires
            old(self).wf(),
        ensures
            navigate_post(*old(self), *final(self), down),
    {
        let n = menu_len_of(&self.menu_state);
        if n > 0 {
            let i = menu_index_of(&self.menu_state);
            let j = if down { (i + 1) % n } else { (i + n - 1) % n };
            self.menu_state = set_index(&self.menu_state, j);
        } else if let MenuState::Help = self.menu_state {
            if down {
                if self.help_scroll_offset + 1 < HELP_LINES {
                    self.help_scroll_offset = self.help_scroll_offset + 1;
                }
            } else if self.help_scroll_offset > 0 {
                self.help_scroll_offset = self.help_scroll_offset - 1;
            }
        }
    }

    /// Applies a setting change and returns to the parent of `from`; a new
    /// test is wanted.
    fn apply(&mut self, c: SettingChange, from: &MenuState)
        requires
            old(self).wf(),
        ensures
            final(self).wf(),
            final(self).config == applied(old(self).config, c),
            final(self).menu_state == parent(*from),
            final(self).restart_requested,
            final(self).warning_state == old(self).warning_state,
            final(self).typed_text@ == old(self).typed_text@,
    {
        match c {
            SettingChange::Mode(m) => self.config.test_mode = m,
            SettingChange::Difficulty(d) => self.config.difficulty = d,
        }
        self.menu_state = parent_of(from);
        self.restart_requested = true;
    }

    /// `Enter`: confirms a warning (repeat mode goes off and the change is
    /// made), or does what the screen's selection says. In repeat mode a
    /// change of mode or difficulty raises the warning instead, keeping the
    /// screen it came from.
    pub fn select(&mut self)
        requires
            old(self).wf(),
        ensures
            select_post(*old(self), *final(self)),
    {
        let mut w = WarningState::Inactive;
        std::mem::swap(&mut w, &mut self.warning_state);
        match w {
            WarningState::RepeatModeSettings { action, prev_state } => {
                self.config.repeat_test = false;
                self.apply(action, &prev_state);
                return;
            },
            WarningState::Inactive => {},
        }
        let c = choice(&self.menu_state);
        match c {
            Choice::Go(m) => {
                if let MenuState::Help = m {
                    self.help_scroll_offset = 0;
                }
                self.menu_state = m;
            },
            Choice::OpenCustomTime => self.menu_state = MenuState::CustomTimedInput(Vec::new()),
            Choice::OpenCustomWords => self.menu_state = MenuState::CustomWordsInput(Vec::new()),
            Choice::Change(ch) => {
                if self.config.repeat_test {
                    let mut prev = MenuState::MainMenu(0);
                    std::mem::swap(&mut prev, &mut self.menu_state);
                    self.warning_state = WarningState::RepeatModeSettings { action: ch, prev_state: prev };
                } else {
                    let mut from = MenuState::MainMenu(0);
                    std::mem::swap(&mut from, &mut self.menu_state);
                    self.apply(ch, &from);
                }
            },
            Choice::SetTheme(t) => {
                self.theme = t;
                self.menu_state = MenuState::MainMenu(0);
            },
            Choice::ToggleRepeat => self.config.repeat_test = !self.config.repeat_test,
            Choice::ToggleEndOnError => self.config.end_on_first_error = !self.config.end_on_first_error,
            Choice::Restart => self.restart_requested = true,
            Choice::Nothing => {},
        }
    }

    /// `Esc`: cancels a warning, restoring the screen it was raised on, or
    /// goes to the parent screen.
    pub fn escape(&mut self)
        requires
            old(self).wf(),
        ensures
            escape_post(*old(self), *final(self)),
    {
        let mut w = WarningState::Inactive;
        std::mem::swap(&mut w, &mut self.warning_state);
        match w {
            WarningState::RepeatModeSettings { action: _, prev_state } => {
                self.menu_state = prev_state;
            },
            WarningState::Inactive => {
                self.menu_state = parent_of(&self.menu_state);
            },
        }
    }

    /// A printable character: typed in a running test, or a digit entered
    /// into a custom input; ignored elsewhere. A test ends at once on a
    /// mismatch when it ends on the first error, and, outside timed mode,
    /// when the typed text reaches the target's length.
    pub fn type_char(&mut self, c: char, elapsed_ms: u32)
        requires
            old(self).wf(),
        ensures
            type_char_post(*old(self), *final(self), c),
    {
        if let WarningState::RepeatModeSettings { .. } = self.warning_state {
            return;
        }
        let mut m = MenuState::MainMenu(0);
        std::mem::swap(&mut m, &mut self.menu_state);
        match m {
            MenuState::Typing => {
                self.menu_state = MenuState::Typing;
                if self.typed_text.len() < 0xffff_ffff {
                    let pos = self.typed_text.len();
                    self.typed_text.push(c);
                    self.cursor_pos = self.typed_text.len();
                    self.started = true;
                    let full_len = self.text_source.full_text.len();
                    let mismatch = pos >= full_len || c != self.text_source.full_text[pos];
                    let timed = match self.config.test_mode {
                        TestMode::Timed(_) => true,
                        _ => false,
                    };
                    if self.config.end_on_first_error && mismatch {
                        self.complete(Some(EndReason::FirstError), elapsed_ms);
                    } else if !timed && pos + 1 >= full_len {
                        let reason = self.test_end_reason;
                        self.complete(reason, elapsed_ms);
                    }
                }
            },
            MenuState::CustomTimedInput(mut b) => {
                if '0' <= c && c <= '9' {
                    b.push(c);
                }
                self.menu_state = MenuState::CustomTimedInput(b);
            },
            MenuState::CustomWordsInput(mut b) => {
                if '0' <= c && c <= '9' {
                    b.push(c);
                }
                self.menu_state = MenuState::CustomWordsInput(b);
            },
            other => {
                self.menu_state = other;
            },
        }
    }

    /// `Backspace`: removes the last typed character of a running test, or
    /// the last digit of a custom input.
    pub fn backspace(&mut self)
        requires
            old(self).wf(),
        ensures
            backspace_post(*old(self), *final(self)),
    {
        if let WarningState::RepeatModeSettings { .. } = self.warning_state {
            return;
        }
        let mut m = MenuState::MainMenu(0);
        std::mem::swap(&mut m, &mut self.menu_state);
        match m {
            MenuState::Typing => {
                self.menu_state = MenuState::Typing;
                if self.typed_text.len() > 0 {
                    self.typed_text.pop();
                    self.cursor_pos = self.typed_text.len();
                }
            },
            MenuState::CustomTimedInput(mut b) => {
                if b.len() > 0 {
                    b.pop();
                }
                self.menu_state = MenuState::CustomTimedInput(b);
            },
            MenuState::CustomWordsInput(mut b) => {
                if b.len() > 0 {
                    b.pop();
                }
                self.menu_state = MenuState::CustomWordsInput(b);
            },
            other => {
                self.menu_state = other;
            },
        }
    }

    /// Handles one input event; `elapsed_ms` is the time since the test's
    /// first keystroke. `Tab` asks for a new test from any screen.
    pub fn handle_key(&mut self, key: Key, elapsed_ms: u32)
        requires
            old(self).wf(),
        ensures
            match key {
                Key::Up => navigate_post(*old(self), *final(self), false),
                Key::Down => navigate_post(*old(self), *final(self), true),
                Key::Enter => select_post(*old(self), *final(self)),
                Key::Esc => escape_post(*old(self), *final(self)),
                Key::Tab => final(self).wf() && final(self).restart_requested
                    && final(self).menu_state == old(self).menu_state
                    && final(self).warning_state == old(self).warning_state
                    && final(self).config == old(self).config
                    && final(self).typed_text@ == old(self).typed_text@,
                Key::Backspace => backspace_post(*old(self), *final(self)),
                Key::Char(c) => type_char_post(*old(self), *final(self), c),
            },
    {
        match key {
            Key::Up => self.navigate(false),
            Key::Down => self.navigate(true),
            Key::Enter => self.select(),
            Key::Esc => self.escape(),
            Key::Tab => self.restart_requested = true,
            Key::Backspace => self.backspace(),
            Key::Char(c) => self.type_char(c, elapsed_ms),
        }
    }

}

} // verus!
