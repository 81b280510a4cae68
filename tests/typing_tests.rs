use tuitype::typing::{progress, typing_cells, visible_window, word_count, Cell, Mark, TextSource, Window};

fn chars(s: &str) -> Vec<char> {
    s.chars().collect()
}

#[test]
fn window_start_snaps_to_word_boundary() {
    let full = chars("ab cd efgh ij");
    let w = visible_window(&full, true, 13, 3);
    assert_eq!(w, Window { start: 6, end: 13 });
    assert_eq!(full[w.start], 'e');
}

#[test]
fn window_clamps_to_start_without_space() {
    let full = chars("abcdefghijklmnop");
    let w = visible_window(&full, true, 14, 3);
    assert_eq!(w, Window { start: 0, end: 12 });
}

#[test]
fn window_whole_text_when_not_scrollable() {
    let full = chars("ab cd efgh ij");
    assert_eq!(visible_window(&full, false, 13, 3), Window { start: 0, end: 13 });
    assert_eq!(visible_window(&full, true, 13, 10), Window { start: 0, end: 13 });
}

#[test]
fn window_stays_at_start_before_half() {
    let full = chars("ab cd efgh ij");
    assert_eq!(visible_window(&full, true, 6, 3), Window { start: 0, end: 12 });
}

#[test]
fn cells_mark_correct_incorrect_cursor_pending() {
    let full = chars("abc");
    let typed = chars("ax");
    let w = Window { start: 0, end: 3 };
    let cells = typing_cells(&full, &typed, 2, w);
    assert_eq!(
        cells,
        vec![
            Cell { ch: 'a', mark: Mark::Correct },
            Cell { ch: 'b', mark: Mark::Incorrect },
            Cell { ch: 'c', mark: Mark::Cursor },
        ]
    );
}

#[test]
fn cells_extra_characters_are_incorrect() {
    let full = chars("ab");
    let typed = chars("abcd");
    let cells = typing_cells(&full, &typed, 4, Window { start: 0, end: 2 });
    assert_eq!(
        cells,
        vec![
            Cell { ch: 'a', mark: Mark::Correct },
            Cell { ch: 'b', mark: Mark::Correct },
            Cell { ch: 'c', mark: Mark::Incorrect },
            Cell { ch: 'd', mark: Mark::Incorrect },
            Cell { ch: ' ', mark: Mark::Cursor },
        ]
    );
}

#[test]
fn word_count_splits_on_whitespace() {
    assert_eq!(word_count(&chars("  hello  world\tagain\n")), 3);
    assert_eq!(word_count(&chars("")), 0);
    assert_eq!(word_count(&chars("   ")), 0);
}

#[test]
fn progress_by_characters() {
    let src = TextSource::new(chars("abcdefghij"), false);
    assert_eq!(progress(&src, &chars("")), 0);
    assert_eq!(progress(&src, &chars("abc")), 30);
    assert_eq!(progress(&src, &chars("abcdefghijkl")), 100);
}

#[test]
fn progress_by_words_for_quotes() {
    let src = TextSource::new(chars("one two three four"), true);
    assert_eq!(src.total_words, 4);
    assert_eq!(progress(&src, &chars("one tw")), 50);
    assert_eq!(progress(&src, &chars("a b c d e f")), 100);
}

#[test]
fn progress_of_empty_text_is_zero() {
    let src = TextSource::new(chars(""), true);
    assert_eq!(progress(&src, &chars("abc")), 0);
}

#[test]
fn progress_never_decreases_while_typing() {
    let src = TextSource::new(chars("the quick brown fox"), true);
    let typed = chars("the quick brown fox");
    let mut last = 0;
    for n in 0..=typed.len() {
        let p = progress(&src, &typed[..n].to_vec());
        assert!(p >= last);
        last = p;
    }
    assert_eq!(last, 100);
}
