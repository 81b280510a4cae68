use vstd::prelude::*;

verus! {

/// Unicode `White_Space`: the characters that separate words.
pub open spec fn is_space_spec(c: char) -> bool {
    ||| ('\u{9}' <= c && c <= '\u{d}')
    ||| c == ' '
    ||| c == '\u{85}'
    ||| c == '\u{a0}'
    ||| c == '\u{1680}'
    ||| ('\u{2000}' <= c && c <= '\u{200a}')
    ||| c == '\u{2028}'
    ||| c == '\u{2029}'
    ||| c == '\u{202f}'
    ||| c == '\u{205f}'
    ||| c == '\u{3000}'
}

pub fn is_space(c: char) -> (r: bool)
    ensures
        r == is_space_spec(c),
{
    ('\u{9}' <= c && c <= '\u{d}') || c == ' ' || c == '\u{85}' || c == '\u{a0}'
        || c == '\u{1680}' || ('\u{2000}' <= c && c <= '\u{200a}') || c == '\u{2028}'
        || c == '\u{2029}' || c == '\u{202f}' || c == '\u{205f}' || c == '\u{3000}'
}

/// Whether a word starts at index `i` of `s`.
pub open spec fn word_starts_at(s: Seq<char>, i: int) -> bool {
    &&& !is_space_spec(s[i])
    &&& (i == 0 || is_space_spec(s[i - 1]))
}

/// The number of whitespace-separated words among the first `n` characters of `s`.
pub open spec fn words_prefix(s: Seq<char>, n: int) -> nat
    decreases n,
{
    if n <= 0 {
        0
    } else {
        words_prefix(s, n - 1) + if word_starts_at(s, n - 1) { 1nat } else { 0nat }
    }
}

/// The number of whitespace-separated words in `s`.
pub open spec fn word_count_spec(s: Seq<char>) -> nat {
    words_prefix(s, s.len() as int)
}

proof fn lemma_words_prefix_mono(s: Seq<char>, n: int, m: int)
    requires
        0 <= n <= m,
    ensures
        words_prefix(s, n) <= words_prefix(s, m),
    decreases m - n,
{
    if n < m {
        lemma_words_prefix_mono(s, n, m - 1);
    }
}

proof fn lemma_words_prefix_agree(s: Seq<char>, t: Seq<char>, n: int)
    requires
        0 <= n <= s.len(),
        n <= t.len(),
        s.subrange(0, n) == t.subrange(0, n),
    ensures
        words_prefix(s, n) == words_prefix(t, n),
    decreases n,
{
    if n > 0 {
        assert(s.subrange(0, n - 1) == t.subrange(0, n - 1)) by {
            assert(s.subrange(0, n - 1) == s.subrange(0, n).subrange(0, n - 1));
            assert(t.subrange(0, n - 1) == t.subrange(0, n).subrange(0, n - 1));
        }
        assert(s[n - 1] == s.subrange(0, n)[n - 1]);
        assert(t[n - 1] == t.subrange(0, n)[n - 1]);
        if n >= 2 {
            assert(s[n - 2] == s.subrange(0, n)[n - 2]);
            assert(t[n - 2] == t.subrange(0, n)[n - 2]);
        }
        lemma_words_prefix_agree(s, t, n - 1);
    }
}

/// Appending characters never lowers the word count.
pub proof fn lemma_word_count_grows(a: Seq<char>, b: Seq<char>)
    requires
        a.len() <= b.len(),
        a == b.subrange(0, a.len() as int),
    ensures
        word_count_spec(a) <= word_count_spec(b),
{
    assert(a.subrange(0, a.len() as int) == a);
    lemma_words_prefix_agree(a, b, a.len() as int);
    lemma_words_prefix_mono(b, a.len() as int, b.len() as int);
}

/// Counts the whitespace-separated words of `s`.
pub fn word_count(s: &Vec<char>) -> (r: usize)
    ensures
        r == word_count_spec(s@),
{
    let mut count: usize = 0;
    let mut i: usize = 0;
    while i < s.len()
        invariant
            i <= s@.len(),
            count == words_prefix(s@, i as int),
            count <= i,
        decreases s@.len() - i,
    {
        if !is_space(s[i]) && (i == 0 || is_space(s[i - 1])) {
            count = count + 1;
        }
        i = i + 1;
    }
    count
}

/// The target text of one test.
pub struct TextSource {
    pub full_text: Vec<char>,
    /// Whether the text may be longer than what fits on screen (quotes).
    pub is_scrollable: bool,
    pub total_words: usize,
}

impl TextSource {
    pub open spec fn wf(&self) -> bool {
        self.total_words == word_count_spec(self.full_text@)
    }

    pub fn new(full_text: Vec<char>, is_scrollable: bool) -> (r: TextSource)
        ensures
            r.wf(),
            r.full_text@ == full_text@,
            r.is_scrollable == is_scrollable,
    {
        let total_words = word_count(&full_text);
        TextSource { full_text, is_scrollable, total_words }
    }
}

/// Progress through the text in percent, from zero to one hundred: words
/// typed over the text's words for a scrollable text, characters typed over
/// its characters otherwise.
pub open spec fn progress_spec(src: TextSource, typed: Seq<char>) -> int {
    let full_len = src.full_text@.len() as int;
    if full_len == 0 {
        0
    } else if src.is_scrollable {
        if src.total_words == 0 {
            0
        } else {
            let p = (word_count_spec(typed) * 100) as int / (src.total_words as int);
            if p > 100 { 100 } else { p }
        }
    } else {
        let t = if typed.len() < full_len { typed.len() as int } else { full_len };
        t * 100 / full_len
    }
}

/// Progress through the text in percent.
pub fn progress(src: &TextSource, typed: &Vec<char>) -> (r: u64)
    ensures
        r == progress_spec(*src, typed@),
        r <= 100,
{
    let full_len = src.full_text.len();
    if full_len == 0 {
        0
    } else if src.is_scrollable {
        if src.total_words == 0 {
            0
        } else {
            let w = word_count(typed);
            let p: u128 = (w as u128) * 100 / (src.total_words as u128);
            if p > 100 {
                100
            } else {
                p as u64
            }
        }
    } else {
        let t: usize = if typed.len() < full_len { typed.len() } else { full_len };
        let p: u128 = (t as u128) * 100 / (full_len as u128);
        proof {
            assert((t as int) * 100 <= (full_len as int) * 100) by (nonlinear_arith)
                requires t <= full_len;
            vstd::arithmetic::div_mod::lemma_div_is_ordered((t as int) * 100, (full_len as int) * 100, full_len as int);
            vstd::arithmetic::div_mod::lemma_div_by_multiple(100, full_len as int);
        }
        p as u64
    }
}

/// Progress never goes down as the typed text grows.
pub proof fn law_progress_grows(src: TextSource, typed: Seq<char>, more: Seq<char>)
    ensures
        progress_spec(src, typed) <= progress_spec(src, typed + more),
{
    let b = typed + more;
    let full_len = src.full_text@.len() as int;
    if full_len != 0 {
        if src.is_scrollable {
            if src.total_words != 0 {
                assert(typed == b.subrange(0, typed.len() as int));
                lemma_word_count_grows(typed, b);
                assert(word_count_spec(typed) * 100 <= word_count_spec(b) * 100) by (nonlinear_arith)
                    requires word_count_spec(typed) <= word_count_spec(b);
                vstd::arithmetic::div_mod::lemma_div_is_ordered(
                    (word_count_spec(typed) * 100) as int,
                    (word_count_spec(b) * 100) as int,
                    src.total_words as int,
                );
            }
        } else {
            let t1 = if typed.len() < full_len { typed.len() as int } else { full_len };
            let t2 = if b.len() < full_len { b.len() as int } else { full_len };
            assert(t1 * 100 <= t2 * 100) by (nonlinear_arith)
                requires t1 <= t2;
            vstd::arithmetic::div_mod::lemma_div_is_ordered(t1 * 100, t2 * 100, full_len);
        }
    }
}

/// The index of the last space among the first `k` characters of `t`, or -1.
pub open spec fn last_space_before(t: Seq<char>, k: int) -> int
    decreases k,
{
    if k <= 0 {
        -1
    } else if t[k - 1] == ' ' {
        k - 1
    } else {
        last_space_before(t, k - 1)
    }
}

proof fn lemma_last_space_range(t: Seq<char>, k: int)
    ensures
        -1 <= last_space_before(t, k) < if k < 0 { 0 } else { k },
    decreases k,
{
    if k > 0 && t[k - 1] != ' ' {
        lemma_last_space_range(t, k - 1);
    }
}

/// The part of the target text that is on screen: `[start, end)`.
#[derive(Clone, Copy, Debug, PartialEq, Eq)]
pub struct Window {
    pub start: usize,
    pub end: usize,
}

/// The visible window of the target text. A scrollable text longer than four
/// times the width shows that many characters; once the cursor passes half of
/// them the window starts half a window behind the cursor, moved back to just
/// after the preceding space so that no word is cut (or to the text's start
/// when there is none). Any other text is shown whole.
pub open spec fn window_spec(t: Seq<char>, scrollable: bool, cursor: int, width: int) -> (int, int) {
    let size = 4 * width;
    if scrollable && t.len() > size {
        let start = if cursor > size / 2 {
            let ideal = cursor - size / 2;
            let k = if ideal < t.len() { ideal } else { t.len() as int };
            last_space_before(t, k) + 1
        } else {
            0
        };
        let end = if start + size < t.len() { start + size } else { t.len() as int };
        (start, end)
    } else {
        (0, t.len() as int)
    }
}

/// Computes the visible window of the target text for a text area `width` columns wide.
pub fn visible_window(t: &Vec<char>, scrollable: bool, cursor: usize, width: u16) -> (r: Window)
    ensures
        (r.start as int, r.end as int) == window_spec(t@, scrollable, cursor as int, width as int),
        r.start <= r.end <= t@.len(),
{
    let size: usize = 4 * (width as usize);
    if scrollable && t.len() > size {
        let start: usize = if cursor > size / 2 {
            let ideal = cursor - size / 2;
            let mut k: usize = if ideal < t.len() { ideal } else { t.len() };
            proof {
                lemma_last_space_range(t@, k as int);
            }
            let ghost target = last_space_before(t@, k as int);
            while k > 0 && t[k - 1] != ' '
                invariant
                    k <= t@.len(),
                    last_space_before(t@, k as int) == target,
                decreases k,
            {
                k = k - 1;
            }
            k
        } else {
            0
        };
        let end: usize = if size < t.len() - start { start + size } else { t.len() };
        Window { start, end }
    } else {
        Window { start: 0, end: t.len() }
    }
}

/// The character at index `i`.
fn char_at(v: &Vec<char>, i: usize) -> (c: char)
    requires
        i < v@.len(),
    ensures
        c == v@[i as int],
{
    v[i]
}

/// How one character on screen is judged.
#[derive(Clone, Copy, Debug, PartialEq, Eq)]
pub enum Mark {
    Correct,
    Incorrect,
    /// The next character to type.
    Cursor,
    /// An extra character typed past the end of the text, under the cursor.
    IncorrectCursor,
    Pending,
}

/// One character on screen and its judgement.
#[derive(Clone, Copy, Debug, PartialEq, Eq)]
pub struct Cell {
    pub ch: char,
    pub mark: Mark,
}

/// The judgement of target character `i`: typed characters are correct when
/// they equal the target, the first untyped one under the cursor is marked.
pub open spec fn target_mark(full: Seq<char>, typed: Seq<char>, cursor: int, i: int) -> Mark {
    if i < typed.len() {
        if typed[i] == full[i] { Mark::Correct } else { Mark::Incorrect }
    } else if i == cursor {
        Mark::Cursor
    } else {
        Mark::Pending
    }
}

/// The judgement of typed character `i` past the end of the text: always incorrect.
pub open spec fn extra_mark(cursor: int, i: int) -> Mark {
    if i == cursor { Mark::IncorrectCursor } else { Mark::Incorrect }
}

/// The number of characters typed past the end of the text.
pub open spec fn extra_len(full: Seq<char>, typed: Seq<char>) -> int {
    if typed.len() > full.len() { typed.len() - full.len() } else { 0 }
}

/// Whether a cursor cell is drawn after the text: the cursor stands past
/// both the text and what was typed.
pub open spec fn has_end_cursor(full: Seq<char>, typed: Seq<char>, cursor: int) -> bool {
    cursor >= typed.len() && cursor >= full.len()
}

/// Whether `r` holds the cells of the typing view: the window of the
/// target, then every extra typed character, then a blank cursor cell when
/// the cursor is past the end.
pub open spec fn cells_spec(full: Seq<char>, typed: Seq<char>, cursor: int, w: Window, r: Seq<Cell>) -> bool {
    let n1 = w.end - w.start;
    let n2 = extra_len(full, typed);
    &&& r.len() == n1 + n2 + if has_end_cursor(full, typed, cursor) { 1int } else { 0 }
    &&& forall|k: int| 0 <= k < n1 ==> #[trigger] r[k] == (Cell {
        ch: full[w.start + k],
        mark: target_mark(full, typed, cursor, w.start + k),
    })
    &&& forall|k: int| 0 <= k < n2 ==> #[trigger] r[n1 + k] == (Cell {
        ch: typed[full.len() + k],
        mark: extra_mark(cursor, full.len() + k),
    })
    &&& has_end_cursor(full, typed, cursor) ==> r[n1 + n2] == (Cell { ch: ' ', mark: Mark::Cursor })
}

/// The cells of the typing view.
pub fn typing_cells(full: &Vec<char>, typed: &Vec<char>, cursor: usize, w: Window) -> (r: Vec<Cell>)
    requires
        w.start <= w.end <= full@.len(),
    ensures
        cells_spec(full@, typed@, cursor as int, w, r@),
{
    let mut cells: Vec<Cell> = Vec::new();
    let mut i: usize = w.start;
    while i < w.end
        invariant
            w.start <= i <= w.end <= full@.len(),
            cells@.len() == i - w.start,
            forall|k: int| 0 <= k < i - w.start ==> #[trigger] cells@[k] == (Cell {
                ch: full@[w.start + k],
                mark: target_mark(full@, typed@, cursor as int, w.start + k),
            }),
        decreases w.end - i,
    {
        let m = if i < typed.len() {
            if typed[i] == full[i] { Mark::Correct } else { Mark::Incorrect }
        } else if i == cursor {
            Mark::Cursor
        } else {
            Mark::Pending
        };
        let ghost prev = cells@;
        let g = Cell { ch: char_at(full, i), mark: m };
        cells.push(g);
        assert forall|k: int| 0 <= k < i + 1 - w.start implies #[trigger] cells@[k] == (Cell {
            ch: full@[w.start + k],
            mark: target_mark(full@, typed@, cursor as int, w.start + k),
        }) by {
            if k < i - w.start {
                assert(cells@[k] == prev[k]);
            }
        }
        i = i + 1;
    }
    let n1: usize = w.end - w.start;
    if typed.len() > full.len() {
        let mut j: usize = full.len();
        while j < typed.len()
            invariant
                full@.len() <= j <= typed@.len(),
                cells@.len() == n1 + (j - full@.len()),
                n1 == w.end - w.start,
                w.start <= w.end <= full@.len(),
                forall|k: int| 0 <= k < n1 ==> #[trigger] cells@[k] == (Cell {
                    ch: full@[w.start + k],
                    mark: target_mark(full@, typed@, cursor as int, w.start + k),
                }),
                forall|k: int| 0 <= k < j - full@.len() ==> #[trigger] cells@[n1 + k] == (Cell {
                    ch: typed@[full@.len() + k],
                    mark: extra_mark(cursor as int, full@.len() + k),
                }),
            decreases typed@.len() - j,
        {
            let m = if j == cursor { Mark::IncorrectCursor } else { Mark::Incorrect };
            let ghost prev = cells@;
            let g = Cell { ch: char_at(typed, j), mark: m };
            cells.push(g);
            assert forall|k: int| 0 <= k < n1 implies #[trigger] cells@[k] == (Cell {
                ch: full@[w.start + k],
                mark: target_mark(full@, typed@, cursor as int, w.start + k),
            }) by {
                assert(cells@[k] == prev[k]);
            }
            assert forall|k: int| 0 <= k < j + 1 - full@.len() implies #[trigger] cells@[n1 + k] == (Cell {
                ch: typed@[full@.len() + k],
                mark: extra_mark(cursor as int, full@.len() + k),
            }) by {
                if k < j - full@.len() {
                    assert(cells@[n1 + k] == prev[n1 + k]);
                }
            }
            j = j + 1;
        }
    }
    let ghost before_end = cells@;
    if cursor >= typed.len() && cursor >= full.len() {
        cells.push(Cell { ch: ' ', mark: Mark::Cursor });
        assert forall|k: int| 0 <= k < before_end.len() implies cells@[k] == before_end[k] by {}
    }
    cells
}

} // verus!
