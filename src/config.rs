use vstd::prelude::*;

verus! {

/// What ends a test.
#[derive(Clone, Copy, Debug, PartialEq, Eq)]
pub enum TestMode {
    /// A countdown of this many seconds.
    Timed(u64),
    /// A text of this many words.
    Words(u64),
    Quote,
    Custom,
}

#[derive(Clone, Copy, Debug, PartialEq, Eq)]
pub enum Difficulty {
    Easy,
    Medium,
    Hard,
    Custom,
}

/// The settings of a test.
#[derive(Clone, Copy, Debug, PartialEq, Eq)]
pub struct Config {
    pub test_mode: TestMode,
    pub difficulty: Difficulty,
    /// Keeps the same text from test to test; locks mode and difficulty.
    pub repeat_test: bool,
    pub end_on_first_error: bool,
}

} // verus!
