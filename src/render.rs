use vstd::prelude::*;

use crate::config::TestMode;
use crate::layout::{
    chart_fits, chart_fits_spec, completion, completion_spec, gauge_view, gauge_view_spec,
    menu_popup, menu_popup_spec, screen, screen_spec, stats_view, stats_view_spec, typing_geometry,
    typing_fits_spec, typing_geometry_spec, warning_popup, warning_popup_spec, CompletionView, GaugeView, Popup,
    Rect, Screen, StatsView, TypingGeometry,
};
use crate::session::{MenuState, Session, WarningState};
use crate::stats::{chart_bounds, chart_top, ChartBounds, Ratio};
use crate::title::{fields_spec, header, header_fields, header_spec, Header};
use crate::typing::{cells_spec, progress, progress_spec, typing_cells, visible_window, window_spec, Cell, Window};

verus! {

/// The typing view: a notice when the area is too small, else a header,
/// its geometry and the visible characters.
#[derive(Debug)]
pub enum TypingView {
    TooSmall,
    Text { header: Header, geometry: TypingGeometry, window: Window, cells: Vec<Cell> },
}

/// What the main region shows, by priority: a warning, the test summary,
/// a menu, or the typing view.
#[derive(Debug)]
pub enum MainView {
    Warning(Popup),
    Complete(CompletionView),
    Menu(Popup),
    Typing(TypingView),
}

/// What the statistics region shows.
#[derive(Debug)]
pub struct StatsFrame {
    pub view: StatsView,
    /// How the gauge area is filled, where gauges are shown.
    pub gauges: GaugeView,
    /// Accuracy in whole percent for the gauge, at most one hundred.
    pub accuracy_percent: u64,
    /// Progress through the text in percent.
    pub progress_percent: u64,
    pub chart: ChartBounds,
    /// Whether the chart has room; otherwise the latest speed stands alone.
    pub chart_fits: bool,
}

/// One frame of the interface.
#[derive(Debug)]
pub enum FrameView {
    /// Below the minimum terminal size: a notice with the sizes.
    TooSmall { width: u16, height: u16 },
    Normal { main_area: Rect, main: MainView, stats_area: Rect, stats: StatsFrame },
}

/// The main view's kind: 0 warning, 1 summary, 2 menu, 3 typing.
pub open spec fn main_kind_spec(s: &Session) -> int {
    if !(s.warning_state is Inactive) {
        0
    } else if s.menu_state is TestComplete {
        1
    } else if !(s.menu_state is Typing) {
        2
    } else {
        3
    }
}

/// Accuracy in whole percent, rounded down, at most one hundred.
pub open spec fn accuracy_percent_spec(a: Ratio) -> int {
    let p = a.num as int / a.den as int;
    if p > 100 { 100 } else { p }
}

/// The area in which a gauge column is laid out, where gauges are shown.
pub open spec fn gauge_area_spec(stats: Rect) -> Option<Rect> {
    match stats_view_spec(stats) {
        StatsView::Gauges => Some(stats),
        StatsView::GaugesAndChart { gauges, .. } => Some(gauges),
        _ => None,
    }
}

pub open spec fn typing_view_ok(s: &Session, area: Rect, v: &TypingView) -> bool {
    match v {
        TypingView::TooSmall => !typing_fits_spec(area),
        TypingView::Text { header, geometry, window, cells } => {
            let f = fields_spec(
                s.config,
                s.time_remaining,
                s.stats.wpm.tenths_spec() as nat,
                s.stats.raw_wpm.tenths_spec() as nat,
                s.stats.accuracy.tenths_spec() as nat,
            );
            let h = header_spec(area.width as int, f, s.stats.wpm.tenths_spec() as nat, s.stats.raw_wpm.tenths_spec() as nat);
            &&& typing_fits_spec(area)
            &&& header.lines() == h
            &&& *geometry == typing_geometry_spec(area, h.0)
            &&& (window.start as int, window.end as int) == window_spec(
                s.text_source.full_text@,
                s.config.test_mode is Quote,
                s.cursor_pos as int,
                geometry.text_area.width as int,
            )
            &&& window.start <= window.end <= s.text_source.full_text@.len()
            &&& cells_spec(s.text_source.full_text@, s.typed_text@, s.cursor_pos as int, *window, cells@)
        },
    }
}

/// The typing view in `area`.
pub fn typing_view(s: &Session, area: Rect) -> (r: TypingView)
    requires
        s.wf(),
        area.y + area.height <= u16::MAX,
    ensures
        typing_view_ok(s, area, &r),
{
    if area.width < 30 || area.height < 5 {
        return TypingView::TooSmall;
    }
    proof {
        crate::stats::lemma_small_is_wf(s.stats.wpm);
        crate::stats::lemma_small_is_wf(s.stats.raw_wpm);
    }
    let wpm = s.stats.wpm.tenths();
    let raw = s.stats.raw_wpm.tenths();
    let acc = s.stats.accuracy.tenths();
    let f = header_fields(&s.config, s.time_remaining, wpm, raw, acc);
    let h = header(area.width, &f, wpm, raw);
    let single = match h {
        Header::Single(_) => true,
        Header::Stacked(_, _) => false,
    };
    let geometry = typing_geometry(area, single);
    let quote = match s.config.test_mode {
        TestMode::Quote => true,
        _ => false,
    };
    let window = visible_window(&s.text_source.full_text, quote, s.cursor_pos, geometry.text_area.width);
    let cells = typing_cells(&s.text_source.full_text, &s.typed_text, s.cursor_pos, window);
    TypingView::Text { header: h, geometry, window, cells }
}

/// Whether `f` is the statistics region of `s` in `area`.
pub open spec fn stats_frame_ok(s: &Session, area: Rect, f: &StatsFrame) -> bool {
    &&& f.view == stats_view_spec(area)
    &&& match gauge_area_spec(area) {
        Some(g) => f.gauges == gauge_view_spec(g),
        None => f.gauges == GaugeView::Nothing,
    }
    &&& f.accuracy_percent == accuracy_percent_spec(s.stats.accuracy)
    &&& f.progress_percent == progress_spec(s.text_source, s.typed_text@)
    &&& f.chart.x_max == if s.stats.wpm_samples@.len() == 0 { 1 } else { s.stats.wpm_samples@.len() }
    &&& f.chart.y_max == chart_top(s.stats.wpm_samples@, s.stats.raw_wpm_samples@)
    &&& match stats_view_spec(area) {
        StatsView::GaugesAndChart { chart, .. } => f.chart_fits == chart_fits_spec(chart),
        _ => !f.chart_fits,
    }
}

/// The statistics region.
pub fn stats_frame(s: &Session, area: Rect) -> (r: StatsFrame)
    requires
        s.wf(),
        area.x + area.width <= u16::MAX,
        area.y + area.height <= u16::MAX,
    ensures
        stats_frame_ok(s, area, &r),
{
    let view = stats_view(area);
    let gauges = match view {
        StatsView::Gauges => gauge_view(area),
        StatsView::GaugesAndChart { gauges, chart: _ } => gauge_view(gauges),
        _ => GaugeView::Nothing,
    };
    let fits = match view {
        StatsView::GaugesAndChart { gauges: _, chart } => chart_fits(chart),
        _ => false,
    };
    let a = s.stats.accuracy;
    let p = a.num / a.den;
    let accuracy_percent = if p > 100 { 100 } else { p };
    StatsFrame {
        view,
        gauges,
        accuracy_percent,
        progress_percent: progress(&s.text_source, &s.typed_text),
        chart: chart_bounds(&s.stats.wpm_samples, &s.stats.raw_wpm_samples),
        chart_fits: fits,
    }
}

/// Lays out one frame of the interface for a terminal of the given size.
/// Below 82 by 22 only a notice is drawn. Otherwise the main region shows,
/// by priority, a warning, the test summary, a menu or the typing view, and
/// the statistics region below degrades with its size.
pub fn render(s: &Session, width: u16, height: u16) -> (r: FrameView)
    requires
        s.wf(),
    ensures
        (r is TooSmall) <==> (width < 82 || height < 22),
        match r {
            FrameView::TooSmall { width: w, height: h } => w == width && h == height,
            FrameView::Normal { main_area, main, stats_area, stats } => {
                &&& screen_spec(width as int, height as int) == (Screen::Split { main: main_area, stats: stats_area })
                &&& stats_frame_ok(s, stats_area, &stats)
                &&& match main {
                    MainView::Warning(p) => main_kind_spec(s) == 0 && p == warning_popup_spec(main_area),
                    MainView::Complete(c) => main_kind_spec(s) == 1
                        && c == completion_spec(main_area, s.test_end_reason is Some),
                    MainView::Menu(p) => main_kind_spec(s) == 2 && p == menu_popup_spec(main_area),
                    MainView::Typing(v) => main_kind_spec(s) == 3 && typing_view_ok(s, main_area, &v),
                }
            },
        },
{
    match screen(width, height) {
        Screen::TooSmall => FrameView::TooSmall { width, height },
        Screen::Split { main: main_area, stats: stats_area } => {
            let warning = match s.warning_state {
                WarningState::Inactive => false,
                _ => true,
            };
            let main = if warning {
                MainView::Warning(warning_popup(main_area))
            } else {
                match s.menu_state {
                    MenuState::TestComplete => {
                        let has_reason = s.test_end_reason.is_some();
                        MainView::Complete(completion(main_area, has_reason))
                    },
                    MenuState::Typing => MainView::Typing(typing_view(s, main_area)),
                    _ => MainView::Menu(menu_popup(main_area)),
                }
            };
            let stats = stats_frame(s, stats_area);
            FrameView::Normal { main_area, main, stats_area, stats }
        },
    }
}

} // verus!
