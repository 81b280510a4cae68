use vstd::prelude::*;

use crate::config::Config;
use crate::session::{menu_index, MenuState};
use crate::text::{chars_of, push_str};
use crate::title::append;

verus! {

/// One line of a menu's text.
#[derive(Debug)]
pub struct MenuLine {
    pub text: Vec<char>,
    /// Drawn inverted.
    pub selected: bool,
}

/// The items of each list menu, in order.
pub open spec fn labels_spec(m: MenuState) -> Seq<Seq<char>> {
    match m {
        MenuState::MainMenu(_) => seq![
            "1. Test Mode"@, "2. Difficulty"@, "3. Theme"@, "4. Settings"@, "5. Help"@, "6. Back"@,
        ],
        MenuState::TestModeMenu(_) => seq!["1. Timed"@, "2. Words"@, "3. Quote"@, "4. Back"@],
        MenuState::DifficultyMenu(_) => seq!["1. Easy"@, "2. Medium"@, "3. Hard"@, "4. Back"@],
        MenuState::TimeMenu(_) => seq![
            "1. 15 seconds"@, "2. 30 seconds"@, "3. 60 seconds"@, "4. 120 seconds"@, "5. Custom..."@,
            "6. Back"@,
        ],
        MenuState::WordCountMenu(_) => seq![
            "1. 10 words"@, "2. 25 words"@, "3. 50 words"@, "4. Custom..."@, "5. Back"@,
        ],
        MenuState::ThemeMenu(_) => seq![
            "1. Light"@, "2. Dark"@, "3. Sepia"@, "4. Matrix"@, "5. Ocean"@, "6. Back"@,
        ],
        MenuState::SettingsMenu(_) => seq![
            "1. Toggle Repeat Mode"@, "2. Toggle End on First Error"@, "3. Back"@,
        ],
        _ => Seq::empty(),
    }
}

/// An item as drawn: a selected one stands between markers.
pub open spec fn item_text(label: Seq<char>, selected: bool) -> Seq<char> {
    if selected { "> "@ + label + " <"@ } else { label }
}

/// Appends the items `labels` as lines, with item `sel` selected.
fn push_items(out: &mut Vec<MenuLine>, labels: &[&str], sel: usize)
    ensures
        final(out)@.len() == old(out)@.len() + labels@.len(),
        forall|k: int| 0 <= k < old(out)@.len() ==> #[trigger] final(out)@[k] == old(out)@[k],
        forall|k: int| 0 <= k < labels@.len() ==> {
            &&& (#[trigger] final(out)@[old(out)@.len() + k]).text@ == item_text(labels@[k]@, k == sel)
            &&& final(out)@[old(out)@.len() + k].selected == (k == sel)
        },
{
    let ghost start = out@;
    let mut i: usize = 0;
    while i < labels.len()
        invariant
            i <= labels@.len(),
            out@.len() == start.len() + i,
            forall|k: int| 0 <= k < start.len() ==> #[trigger] out@[k] == start[k],
            forall|k: int| 0 <= k < i ==> {
                &&& (#[trigger] out@[start.len() + k]).text@ == item_text(labels@[k]@, k == sel)
                &&& out@[start.len() + k].selected == (k == sel)
            },
        decreases labels@.len() - i,
    {
        let mut t = Vec::new();
        let selected = i == sel;
        if selected {
            push_str(&mut t, "> ");
            push_str(&mut t, labels[i]);
            push_str(&mut t, " <");
            assert(t@ == Seq::<char>::empty() + "> "@ + labels@[i as int]@ + " <"@);
        } else {
            push_str(&mut t, labels[i]);
            assert(t@ == Seq::<char>::empty() + labels@[i as int]@);
        }
        let ghost prev = out@;
        let line = MenuLine { text: t, selected };
        out.push(line);
        assert forall|k: int| 0 <= k < i + 1 implies {
            &&& (#[trigger] out@[start.len() + k]).text@ == item_text(labels@[k]@, k == sel)
            &&& out@[start.len() + k].selected == (k == sel)
        } by {
            if k < i {
                assert(out@[start.len() + k] == prev[start.len() + k]);
            }
        }
        assert forall|k: int| 0 <= k < start.len() implies #[trigger] out@[k] == start[k] by {
            assert(out@[k] == prev[k]);
        }
        i = i + 1;
    }
}

/// The list items of a list menu, each a line, the selected one marked.
pub fn menu_items(m: &MenuState) -> (r: Vec<MenuLine>)
    ensures
        r@.len() == labels_spec(*m).len(),
        forall|k: int| 0 <= k < r@.len() ==> {
            &&& (#[trigger] r@[k]).text@ == item_text(labels_spec(*m)[k], k == menu_index(*m))
            &&& r@[k].selected == (k == menu_index(*m))
        },
{
    let mut r: Vec<MenuLine> = Vec::new();
    match m {
        MenuState::MainMenu(i) => {
            let labels = ["1. Test Mode", "2. Difficulty", "3. Theme", "4. Settings", "5. Help", "6. Back"];
            proof { assert(labels@.map_values(|s: &str| s@) =~= labels_spec(*m)); }
            push_items(&mut r, &labels, *i);
            proof { lemma_items(r@, labels@, labels_spec(*m), *i as int); }
        },
        MenuState::TestModeMenu(i) => {
            let labels = ["1. Timed", "2. Words", "3. Quote", "4. Back"];
            proof { assert(labels@.map_values(|s: &str| s@) =~= labels_spec(*m)); }
            push_items(&mut r, &labels, *i);
            proof { lemma_items(r@, labels@, labels_spec(*m), *i as int); }
        },
        MenuState::DifficultyMenu(i) => {
            let labels = ["1. Easy", "2. Medium", "3. Hard", "4. Back"];
            proof { assert(labels@.map_values(|s: &str| s@) =~= labels_spec(*m)); }
            push_items(&mut r, &labels, *i);
            proof { lemma_items(r@, labels@, labels_spec(*m), *i as int); }
        },
        MenuState::TimeMenu(i) => {
            let labels = ["1. 15 seconds", "2. 30 seconds", "3. 60 seconds", "4. 120 seconds", "5. Custom...", "6. Back"];
            proof { assert(labels@.map_values(|s: &str| s@) =~= labels_spec(*m)); }
            push_items(&mut r, &labels, *i);
            proof { lemma_items(r@, labels@, labels_spec(*m), *i as int); }
        },
        MenuState::WordCountMenu(i) => {
            let labels = ["1. 10 words", "2. 25 words", "3. 50 words", "4. Custom...", "5. Back"];
            proof { assert(labels@.map_values(|s: &str| s@) =~= labels_spec(*m)); }
            push_items(&mut r, &labels, *i);
            proof { lemma_items(r@, labels@, labels_spec(*m), *i as int); }
        },
        MenuState::ThemeMenu(i) => {
            let labels = ["1. Light", "2. Dark", "3. Sepia", "4. Matrix", "5. Ocean", "6. Back"];
            proof { assert(labels@.map_values(|s: &str| s@) =~= labels_spec(*m)); }
            push_items(&mut r, &labels, *i);
            proof { lemma_items(r@, labels@, labels_spec(*m), *i as int); }
        },
        MenuState::SettingsMenu(i) => {
            let labels = ["1. Toggle Repeat Mode", "2. Toggle End on First Error", "3. Back"];
            proof { assert(labels@.map_values(|s: &str| s@) =~= labels_spec(*m)); }
            push_items(&mut r, &labels, *i);
            proof { lemma_items(r@, labels@, labels_spec(*m), *i as int); }
        },
        _ => {},
    }
    r
}

proof fn lemma_items(r: Seq<MenuLine>, labels: Seq<&str>, spec: Seq<Seq<char>>, sel: int)
    requires
        labels.map_values(|s: &str| s@) == spec,
        r.len() == labels.len(),
        forall|k: int| 0 <= k < labels.len() ==> {
            &&& (#[trigger] r[0 + k]).text@ == item_text(labels[k]@, k == sel)
            &&& r[0 + k].selected == (k == sel)
        },
    ensures
        r.len() == spec.len(),
        forall|k: int| 0 <= k < r.len() ==> {
            &&& (#[trigger] r[k]).text@ == item_text(spec[k], k == sel)
            &&& r[k].selected == (k == sel)
        },
{
    assert forall|k: int| 0 <= k < r.len() implies {
        &&& (#[trigger] r[k]).text@ == item_text(spec[k], k == sel)
        &&& r[k].selected == (k == sel)
    } by {
        assert(r[0 + k] == r[k]);
        assert(spec[k] == labels[k]@);
    }
}

/// The heading of a menu's popup.
pub open spec fn menu_heading_spec(m: MenuState) -> Seq<char> {
    match m {
        MenuState::MainMenu(_) => "MAIN MENU"@,
        MenuState::TestModeMenu(_) => "TEST MODE"@,
        MenuState::DifficultyMenu(_) => "DIFFICULTY"@,
        MenuState::TimeMenu(_) => "TIME LIMIT"@,
        MenuState::WordCountMenu(_) => "WORD COUNT"@,
        MenuState::ThemeMenu(_) => "THEME"@,
        MenuState::CustomTimedInput(_) => "CUSTOM TIMED TEST"@,
        MenuState::CustomWordsInput(_) => "CUSTOM WORDS TEST"@,
        MenuState::SettingsMenu(_) => "SETTINGS"@,
        MenuState::Help => "HELP"@,
        MenuState::TestComplete => "TEST COMPLETE"@,
        MenuState::Typing => Seq::empty(),
    }
}

pub fn menu_heading(m: &MenuState) -> (r: Vec<char>)
    ensures
        r@ == menu_heading_spec(*m),
{
    match m {
        MenuState::MainMenu(_) => chars_of("MAIN MENU"),
        MenuState::TestModeMenu(_) => chars_of("TEST MODE"),
        MenuState::DifficultyMenu(_) => chars_of("DIFFICULTY"),
        MenuState::TimeMenu(_) => chars_of("TIME LIMIT"),
        MenuState::WordCountMenu(_) => chars_of("WORD COUNT"),
        MenuState::ThemeMenu(_) => chars_of("THEME"),
        MenuState::CustomTimedInput(_) => chars_of("CUSTOM TIMED TEST"),
        MenuState::CustomWordsInput(_) => chars_of("CUSTOM WORDS TEST"),
        MenuState::SettingsMenu(_) => chars_of("SETTINGS"),
        MenuState::Help => chars_of("HELP"),
        MenuState::TestComplete => chars_of("TEST COMPLETE"),
        MenuState::Typing => Vec::new(),
    }
}

/// The short name shown when the popup does not fit.
pub open spec fn menu_short_name_spec(m: MenuState) -> Seq<char> {
    match m {
        MenuState::MainMenu(_) => "Main Menu"@,
        MenuState::TestModeMenu(_) => "Test Mode"@,
        MenuState::DifficultyMenu(_) => "Difficulty"@,
        MenuState::TimeMenu(_) => "Time Limit"@,
        MenuState::WordCountMenu(_) => "Word Count"@,
        MenuState::ThemeMenu(_) => "Theme"@,
        MenuState::Help => "Help"@,
        _ => "Menu"@,
    }
}

pub fn menu_short_name(m: &MenuState) -> (r: Vec<char>)
    ensures
        r@ == menu_short_name_spec(*m),
{
    match m {
        MenuState::MainMenu(_) => chars_of("Main Menu"),
        MenuState::TestModeMenu(_) => chars_of("Test Mode"),
        MenuState::DifficultyMenu(_) => chars_of("Difficulty"),
        MenuState::TimeMenu(_) => chars_of("Time Limit"),
        MenuState::WordCountMenu(_) => chars_of("Word Count"),
        MenuState::ThemeMenu(_) => chars_of("Theme"),
        MenuState::Help => chars_of("Help"),
        _ => chars_of("Menu"),
    }
}

/// The popup's title: the application's title and the menu's heading.
pub open spec fn menu_title_spec(c: Config, m: MenuState) -> Seq<char> {
    " "@ + crate::title::app_title_spec(c.repeat_test) + " - "@ + menu_heading_spec(m) + " "@
}

pub fn menu_title(c: &Config, m: &MenuState) -> (r: Vec<char>)
    ensures
        r@ == menu_title_spec(*c, *m),
{
    let mut r = chars_of(" ");
    let t = crate::title::app_title(c.repeat_test);
    append(&mut r, &t);
    push_str(&mut r, " - ");
    let h = menu_heading(m);
    append(&mut r, &h);
    push_str(&mut r, " ");
    r
}

} // verus!
