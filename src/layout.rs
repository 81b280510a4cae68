use vstd::prelude::*;

verus! {

/// A rectangle of terminal cells.
#[derive(Clone, Copy, Debug, PartialEq, Eq)]
pub struct Rect {
    pub x: u16,
    pub y: u16,
    pub width: u16,
    pub height: u16,
}

pub open spec fn sat_sub(a: int, b: int) -> int {
    if a > b { a - b } else { 0 }
}

pub open spec fn min(a: int, b: int) -> int {
    if a < b { a } else { b }
}

pub open spec fn max(a: int, b: int) -> int {
    if a > b { a } else { b }
}

/// `a + b`, or the largest `u16` when that does not fit.
pub open spec fn sat_add16(a: int, b: int) -> int {
    min(a + b, u16::MAX as int)
}

/// The area inside a border on all four sides.
pub open spec fn inner_spec(r: Rect) -> Rect {
    let right = sat_add16(r.x as int, r.width as int);
    let bottom = sat_add16(r.y as int, r.height as int);
    Rect {
        x: min(sat_add16(r.x as int, 1), right) as u16,
        y: min(sat_add16(r.y as int, 1), bottom) as u16,
        width: sat_sub(r.width as int, 2) as u16,
        height: sat_sub(r.height as int, 2) as u16,
    }
}

/// The area inside a border on all four sides.
pub fn inner(r: Rect) -> (i: Rect)
    ensures
        i == inner_spec(r),
{
    let right = r.x.saturating_add(r.width);
    let bottom = r.y.saturating_add(r.height);
    let x1 = r.x.saturating_add(1);
    let y1 = r.y.saturating_add(1);
    Rect {
        x: if x1 < right { x1 } else { right },
        y: if y1 < bottom { y1 } else { bottom },
        width: r.width.saturating_sub(2),
        height: r.height.saturating_sub(2),
    }
}

/// A `width` by `height` rectangle centred in `area`.
pub open spec fn centered_spec(area: Rect, width: int, height: int) -> Rect {
    Rect {
        x: (area.x + sat_sub(area.width as int, width) / 2) as u16,
        y: (area.y + sat_sub(area.height as int, height) / 2) as u16,
        width: width as u16,
        height: height as u16,
    }
}

pub fn centered(area: Rect, width: u16, height: u16) -> (r: Rect)
    requires
        area.x + area.width <= u16::MAX,
        area.y + area.height <= u16::MAX,
    ensures
        r == centered_spec(area, width as int, height as int),
{
    Rect {
        x: area.x + area.width.saturating_sub(width) / 2,
        y: area.y + area.height.saturating_sub(height) / 2,
        width,
        height,
    }
}

/// The smallest terminal that the full interface is drawn in.
pub const MIN_WIDTH: u16 = 82;
pub const MIN_HEIGHT: u16 = 22;

/// The height of the statistics region at the bottom.
pub open spec fn stats_height_spec(height: int) -> int {
    if height < 15 { 3 } else { 6 }
}

/// How a whole frame is divided.
#[derive(Clone, Copy, Debug, PartialEq, Eq)]
pub enum Screen {
    /// The terminal is below the minimum size: only a notice is drawn.
    TooSmall,
    /// A main region on top and a statistics region of fixed height below.
    Split { main: Rect, stats: Rect },
}

pub open spec fn screen_spec(width: int, height: int) -> Screen {
    if width < MIN_WIDTH || height < MIN_HEIGHT {
        Screen::TooSmall
    } else {
        let s = stats_height_spec(height);
        Screen::Split {
            main: Rect { x: 0, y: 0, width: width as u16, height: (height - s) as u16 },
            stats: Rect { x: 0, y: (height - s) as u16, width: width as u16, height: s as u16 },
        }
    }
}

/// Divides a terminal of the given size.
pub fn screen(width: u16, height: u16) -> (r: Screen)
    ensures
        r == screen_spec(width as int, height as int),
{
    if width < MIN_WIDTH || height < MIN_HEIGHT {
        Screen::TooSmall
    } else {
        let s: u16 = if height < 15 { 3 } else { 6 };
        Screen::Split {
            main: Rect { x: 0, y: 0, width, height: height - s },
            stats: Rect { x: 0, y: height - s, width, height: s },
        }
    }
}

/// What the statistics region shows; it degrades as the region shrinks.
#[derive(Clone, Copy, Debug, PartialEq, Eq)]
pub enum StatsView {
    Nothing,
    /// One line of figures.
    Compact,
    /// A single accuracy gauge.
    AccuracyGauge,
    /// The accuracy and progress gauges.
    Gauges,
    /// The gauges in a column of this area, the chart in this other one.
    GaugesAndChart { gauges: Rect, chart: Rect },
}

/// The width of the gauge column beside the chart.
pub const GAUGE_COLUMN: u16 = 25;

pub open spec fn stats_view_spec(a: Rect) -> StatsView {
    if a.width < 8 || a.height < 2 {
        StatsView::Nothing
    } else if a.width < 30 || a.height < 3 {
        StatsView::Compact
    } else if a.width < 40 || a.height < 5 {
        StatsView::AccuracyGauge
    } else if a.width < 60 || a.height < 6 {
        StatsView::Gauges
    } else {
        StatsView::GaugesAndChart {
            gauges: Rect { x: a.x, y: a.y, width: GAUGE_COLUMN, height: a.height },
            chart: Rect {
                x: (a.x + GAUGE_COLUMN) as u16,
                y: a.y,
                width: (a.width - GAUGE_COLUMN) as u16,
                height: a.height,
            },
        }
    }
}

pub fn stats_view(a: Rect) -> (r: StatsView)
    requires
        a.x + a.width <= u16::MAX,
    ensures
        r == stats_view_spec(a),
{
    if a.width < 8 || a.height < 2 {
        StatsView::Nothing
    } else if a.width < 30 || a.height < 3 {
        StatsView::Compact
    } else if a.width < 40 || a.height < 5 {
        StatsView::AccuracyGauge
    } else if a.width < 60 || a.height < 6 {
        StatsView::Gauges
    } else {
        StatsView::GaugesAndChart {
            gauges: Rect { x: a.x, y: a.y, width: GAUGE_COLUMN, height: a.height },
            chart: Rect { x: a.x + GAUGE_COLUMN, y: a.y, width: a.width - GAUGE_COLUMN, height: a.height },
        }
    }
}

/// How the gauge column is filled.
#[derive(Clone, Copy, Debug, PartialEq, Eq)]
pub enum GaugeView {
    Nothing,
    /// Accuracy alone, over the whole area.
    Accuracy,
    /// Accuracy in the first three rows, progress in the next three.
    AccuracyAndProgress { accuracy: Rect, progress: Rect },
}

pub open spec fn gauge_view_spec(a: Rect) -> GaugeView {
    if a.width < 10 || a.height < 3 {
        GaugeView::Nothing
    } else if a.height < 5 {
        GaugeView::Accuracy
    } else {
        GaugeView::AccuracyAndProgress {
            accuracy: Rect { x: a.x, y: a.y, width: a.width, height: 3 },
            progress: Rect { x: a.x, y: (a.y + 3) as u16, width: a.width, height: min(3, a.height - 3) as u16 },
        }
    }
}

pub fn gauge_view(a: Rect) -> (r: GaugeView)
    requires
        a.y + a.height <= u16::MAX,
    ensures
        r == gauge_view_spec(a),
{
    if a.width < 10 || a.height < 3 {
        GaugeView::Nothing
    } else if a.height < 5 {
        GaugeView::Accuracy
    } else {
        let h = a.height - 3;
        GaugeView::AccuracyAndProgress {
            accuracy: Rect { x: a.x, y: a.y, width: a.width, height: 3 },
            progress: Rect { x: a.x, y: a.y + 3, width: a.width, height: if h < 3 { h } else { 3 } },
        }
    }
}

/// Whether the chart has room to be drawn; otherwise the latest speed stands
/// in a box, when there is one.
pub open spec fn chart_fits_spec(a: Rect) -> bool {
    a.width >= 20 && a.height >= 4
}

pub fn chart_fits(a: Rect) -> (r: bool)
    ensures
        r == chart_fits_spec(a),
{
    a.width >= 20 && a.height >= 4
}

/// The typing view's geometry below its border.
#[derive(Clone, Copy, Debug, PartialEq, Eq)]
pub struct TypingGeometry {
    /// Whether the second header line is drawn inside the border.
    pub second_line: bool,
    /// Whether the live figures get a line of their own below it.
    pub stats_line: bool,
    /// Where the text goes.
    pub text_area: Rect,
}

/// The typing view's geometry in `area`, given whether its header fits on
/// one line.
pub open spec fn typing_geometry_spec(area: Rect, single: bool) -> TypingGeometry {
    let i = inner_spec(area);
    if single || i.height <= 1 {
        TypingGeometry { second_line: false, stats_line: false, text_area: i }
    } else if area.width < 80 && i.height > 2 && area.width >= 50 {
        TypingGeometry {
            second_line: true,
            stats_line: true,
            text_area: Rect { x: i.x, y: (i.y + 2) as u16, width: i.width, height: (i.height - 2) as u16 },
        }
    } else {
        TypingGeometry {
            second_line: true,
            stats_line: false,
            text_area: Rect { x: i.x, y: (i.y + 1) as u16, width: i.width, height: (i.height - 1) as u16 },
        }
    }
}

pub fn typing_geometry(area: Rect, single: bool) -> (r: TypingGeometry)
    requires
        area.y + area.height <= u16::MAX,
    ensures
        r == typing_geometry_spec(area, single),
{
    let i = inner(area);
    if single || i.height <= 1 {
        TypingGeometry { second_line: false, stats_line: false, text_area: i }
    } else if area.width < 80 && i.height > 2 && area.width >= 50 {
        TypingGeometry {
            second_line: true,
            stats_line: true,
            text_area: Rect { x: i.x, y: i.y + 2, width: i.width, height: i.height - 2 },
        }
    } else {
        TypingGeometry {
            second_line: true,
            stats_line: false,
            text_area: Rect { x: i.x, y: i.y + 1, width: i.width, height: i.height - 1 },
        }
    }
}

/// Whether the typing view has room: below this a notice is drawn instead.
pub open spec fn typing_fits_spec(area: Rect) -> bool {
    area.width >= 30 && area.height >= 5
}

/// The completion view's form.
#[derive(Clone, Copy, Debug, PartialEq, Eq)]
pub enum CompletionView {
    /// Two lines of text, no border.
    Minimal,
    /// The figures in a border over the whole area.
    Compact,
    /// A centred popup.
    Popup(CompletionPopup),
}

/// The centred completion popup.
#[derive(Clone, Copy, Debug, PartialEq, Eq)]
pub struct CompletionPopup {
    pub area: Rect,
    /// Results on the left, settings on the right.
    pub two_columns: bool,
    /// Whether the results take their detailed form of six lines.
    pub detailed: bool,
    /// Blank rows above the content.
    pub padding_top: u16,
    /// Whether the restart note is drawn near the bottom.
    pub restart_note: bool,
}

/// Lines of the results column: six in detail, one otherwise, and two more
/// for an end reason.
pub open spec fn results_len(detailed: bool, has_reason: bool) -> int {
    (if detailed { 6int } else { 1int }) + if has_reason { 2int } else { 0int }
}

/// Lines of the settings column.
pub const SETTINGS_LINES: u16 = 7;

pub open spec fn completion_spec(area: Rect, has_reason: bool) -> CompletionView {
    let width = min(max(min(sat_sub(area.width as int, 10), 60), 20), area.width as int);
    let height = min(max(min(sat_sub(area.height as int, 2), 15), 3), area.height as int);
    if width < 15 || height < 3 {
        CompletionView::Minimal
    } else if height < 5 || width < 25 {
        CompletionView::Compact
    } else {
        let popup = centered_spec(area, width, height);
        let i = inner_spec(popup);
        let two = i.width >= 40 && i.height >= 8;
        let total = i.height as int;
        let detailed = total >= 8;
        let content = if two {
            max(results_len(detailed, has_reason), SETTINGS_LINES as int)
        } else if !detailed {
            2 + if has_reason { 1int } else { 0int }
        } else {
            results_len(detailed, has_reason) + 2 + SETTINGS_LINES
        };
        let pad = if total > content { (total - content) / 2 } else { 0 };
        let note = if two {
            total > content + pad + 2
        } else {
            total >= 8 && sat_sub(i.y + total, 2) > i.y
        };
        CompletionView::Popup(CompletionPopup {
            area: popup,
            two_columns: two,
            detailed,
            padding_top: pad as u16,
            restart_note: note,
        })
    }
}

/// Lays out the completion view in `area`.
pub fn completion(area: Rect, has_reason: bool) -> (r: CompletionView)
    requires
        area.x + area.width <= u16::MAX,
        area.y + area.height <= u16::MAX,
    ensures
        r == completion_spec(area, has_reason),
{
    let w0 = area.width.saturating_sub(10);
    let w1 = if w0 < 60 { w0 } else { 60 };
    let w2 = if w1 > 20 { w1 } else { 20 };
    let width = if w2 < area.width { w2 } else { area.width };
    let h0 = area.height.saturating_sub(2);
    let h1 = if h0 < 15 { h0 } else { 15 };
    let h2 = if h1 > 3 { h1 } else { 3 };
    let height = if h2 < area.height { h2 } else { area.height };
    if width < 15 || height < 3 {
        return CompletionView::Minimal;
    }
    if height < 5 || width < 25 {
        return CompletionView::Compact;
    }
    let popup = centered(area, width, height);
    let i = inner(popup);
    let two = i.width >= 40 && i.height >= 8;
    let total = i.height;
    let detailed = total >= 8;
    let results: u16 = (if detailed { 6 } else { 1 }) + if has_reason { 2 } else { 0 };
    let content: u16 = if two {
        if results > SETTINGS_LINES { results } else { SETTINGS_LINES }
    } else if !detailed {
        2 + if has_reason { 1 } else { 0 }
    } else {
        results + 2 + SETTINGS_LINES
    };
    let pad: u16 = if total > content { (total - content) / 2 } else { 0 };
    let note = if two {
        total as u32 > content as u32 + pad as u32 + 2
    } else {
        total >= 8 && (i.y as u32 + total as u32 >= 2 && i.y as u32 + total as u32 - 2 > i.y as u32)
    };
    CompletionView::Popup(CompletionPopup { area: popup, two_columns: two, detailed, padding_top: pad, restart_note: note })
}

/// A popup that falls back to plain text when there is not enough room.
#[derive(Clone, Copy, Debug, PartialEq, Eq)]
pub enum Popup {
    Fallback,
    At(Rect),
}

/// The menu view's popup: the area less two columns on each side and a row
/// above and below, and at least 30 by 10.
pub open spec fn menu_popup_spec(area: Rect) -> Popup {
    let width = sat_sub(area.width as int, 4);
    let height = sat_sub(area.height as int, 2);
    if width < 30 || height < 10 {
        Popup::Fallback
    } else {
        Popup::At(centered_spec(area, width, height))
    }
}

pub fn menu_popup(area: Rect) -> (r: Popup)
    requires
        area.x + area.width <= u16::MAX,
        area.y + area.height <= u16::MAX,
    ensures
        r == menu_popup_spec(area),
{
    let width = area.width.saturating_sub(4);
    let height = area.height.saturating_sub(2);
    if width < 30 || height < 10 {
        Popup::Fallback
    } else {
        Popup::At(centered(area, width, height))
    }
}

/// The warning's popup: up to 80 columns and 10 rows, and at least 30 by 5.
pub open spec fn warning_popup_spec(area: Rect) -> Popup {
    let width = min(max(min(sat_sub(area.width as int, 10), 80), 30), area.width as int);
    let height = min(10, sat_sub(area.height as int, 4));
    if width < 30 || height < 5 {
        Popup::Fallback
    } else {
        Popup::At(centered_spec(area, width, height))
    }
}

pub fn warning_popup(area: Rect) -> (r: Popup)
    requires
        area.x + area.width <= u16::MAX,
        area.y + area.height <= u16::MAX,
    ensures
        r == warning_popup_spec(area),
{
    let w0 = area.width.saturating_sub(10);
    let w1 = if w0 < 80 { w0 } else { 80 };
    let w2 = if w1 > 30 { w1 } else { 30 };
    let width = if w2 < area.width { w2 } else { area.width };
    let h0 = area.height.saturating_sub(4);
    let height = if h0 < 10 { h0 } else { 10 };
    if width < 30 || height < 5 {
        Popup::Fallback
    } else {
        Popup::At(centered(area, width, height))
    }
}

/// Whether the warning shows its detailed message: eight rows inside its border.
pub open spec fn warning_detailed_spec(popup: Rect) -> bool {
    inner_spec(popup).height >= 8
}

pub fn warning_detailed(popup: Rect) -> (r: bool)
    ensures
        r == warning_detailed_spec(popup),
{
    inner(popup).height >= 8
}

} // verus!
