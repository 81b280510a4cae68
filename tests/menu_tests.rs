use tuitype::config::{Config, Difficulty, TestMode};
use tuitype::menu::{menu_heading, menu_items, menu_short_name, menu_title};
use tuitype::session::MenuState;

fn line(v: &[char]) -> String {
    v.iter().collect()
}

#[test]
fn selected_item_is_marked() {
    let items = menu_items(&MenuState::DifficultyMenu(1));
    let texts: Vec<String> = items.iter().map(|l| line(&l.text)).collect();
    assert_eq!(texts, vec!["1. Easy", "> 2. Medium <", "3. Hard", "4. Back"]);
    let selected: Vec<bool> = items.iter().map(|l| l.selected).collect();
    assert_eq!(selected, vec![false, true, false, false]);
}

#[test]
fn main_menu_has_six_items() {
    let items = menu_items(&MenuState::MainMenu(5));
    assert_eq!(items.len(), 6);
    assert_eq!(line(&items[5].text), "> 6. Back <");
    assert_eq!(line(&items[0].text), "1. Test Mode");
}

#[test]
fn screens_without_list_have_no_items() {
    assert!(menu_items(&MenuState::Help).is_empty());
    assert!(menu_items(&MenuState::CustomTimedInput(vec!['1'])).is_empty());
}

#[test]
fn menu_titles_and_names() {
    let c = Config { test_mode: TestMode::Quote, difficulty: Difficulty::Hard, repeat_test: true, end_on_first_error: false };
    assert_eq!(line(&menu_title(&c, &MenuState::TimeMenu(0))), " TuiType [Repeat Mode] - TIME LIMIT ");
    assert_eq!(line(&menu_heading(&MenuState::CustomWordsInput(vec![]))), "CUSTOM WORDS TEST");
    assert_eq!(line(&menu_short_name(&MenuState::SettingsMenu(0))), "Menu");
    assert_eq!(line(&menu_short_name(&MenuState::Help)), "Help");
}
