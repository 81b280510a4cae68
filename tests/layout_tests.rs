use tuitype::config::{Config, Difficulty, TestMode};
use tuitype::layout::{
    completion, inner, menu_popup, screen, stats_view, typing_geometry, warning_popup,
    CompletionView, Popup, Rect, Screen, StatsView,
};
use tuitype::render::{render, FrameView, MainView, TypingView};
use tuitype::session::Session;
use tuitype::title::{header, header_fields, Header};
use tuitype::typing::TextSource;

fn text(s: &str) -> String {
    s.to_string()
}

fn line(v: &[char]) -> String {
    v.iter().collect()
}

fn config(mode: TestMode) -> Config {
    Config { test_mode: mode, difficulty: Difficulty::Medium, repeat_test: false, end_on_first_error: false }
}

fn session(mode: TestMode, target: &str) -> Session {
    Session::new(config(mode), TextSource::new(target.chars().collect(), false))
}

#[test]
fn width_81_is_too_small() {
    let s = session(TestMode::Words(10), "hello world");
    for h in [10u16, 22, 40, 200] {
        assert!(matches!(render(&s, 81, h), FrameView::TooSmall { width: 81, .. }));
    }
    assert!(matches!(render(&s, 100, 21), FrameView::TooSmall { .. }));
}

#[test]
fn minimum_size_gets_normal_layout() {
    let s = session(TestMode::Words(10), "hello world");
    match render(&s, 82, 22) {
        FrameView::Normal { main_area, stats_area, main, .. } => {
            assert_eq!(main_area, Rect { x: 0, y: 0, width: 82, height: 16 });
            assert_eq!(stats_area, Rect { x: 0, y: 16, width: 82, height: 6 });
            assert!(matches!(main, MainView::Menu(Popup::At(_))));
        }
        FrameView::TooSmall { .. } => panic!("expected the normal layout"),
    }
}

#[test]
fn screen_split_keeps_stats_height() {
    assert_eq!(screen(80, 30), Screen::TooSmall);
    assert_eq!(
        screen(100, 30),
        Screen::Split {
            main: Rect { x: 0, y: 0, width: 100, height: 24 },
            stats: Rect { x: 0, y: 24, width: 100, height: 6 },
        }
    );
}

#[test]
fn stats_region_degrades_with_size() {
    let r = |w: u16, h: u16| Rect { x: 0, y: 0, width: w, height: h };
    assert_eq!(stats_view(r(7, 6)), StatsView::Nothing);
    assert_eq!(stats_view(r(100, 1)), StatsView::Nothing);
    assert_eq!(stats_view(r(29, 6)), StatsView::Compact);
    assert_eq!(stats_view(r(39, 6)), StatsView::AccuracyGauge);
    assert_eq!(stats_view(r(59, 6)), StatsView::Gauges);
    assert_eq!(
        stats_view(r(100, 6)),
        StatsView::GaugesAndChart {
            gauges: Rect { x: 0, y: 0, width: 25, height: 6 },
            chart: Rect { x: 25, y: 0, width: 75, height: 6 },
        }
    );
}

#[test]
fn inner_drops_the_border() {
    assert_eq!(inner(Rect { x: 2, y: 3, width: 10, height: 5 }), Rect { x: 3, y: 4, width: 8, height: 3 });
    assert_eq!(inner(Rect { x: 0, y: 0, width: 1, height: 0 }), Rect { x: 1, y: 0, width: 0, height: 0 });
}

#[test]
fn header_single_line_when_it_fits() {
    let c = config(TestMode::Words(10));
    let f = header_fields(&c, None, 123, 150, 985);
    match header(200, &f, 123, 150) {
        Header::Single(l) => assert_eq!(
            line(&l),
            text("TuiType | Mode: Words 10 | Difficulty: Medium | Repeat: OFF | End on Error: No | WPM: 12.3 | Raw WPM: 15.0 | Acc: 98.5% | Press ESC for menu")
        ),
        Header::Stacked(_, _) => panic!("expected one line"),
    }
}

#[test]
fn header_single_line_with_time() {
    let c = config(TestMode::Timed(30));
    let f = header_fields(&c, Some(12), 0, 0, 0);
    match header(250, &f, 0, 0) {
        Header::Single(l) => assert!(line(&l).ends_with("| Time: 12s | Press ESC for menu")),
        Header::Stacked(_, _) => panic!("expected one line"),
    }
}

#[test]
fn header_narrow_tiers() {
    let c = config(TestMode::Timed(30));
    let f = header_fields(&c, None, 123, 150, 985);
    match header(35, &f, 123, 150) {
        Header::Stacked(a, b) => {
            assert_eq!(line(&a), text("TuiType | Time: 30s"));
            assert_eq!(line(&b), text("WPM: 12.3 | ESC:Menu"));
        }
        Header::Single(_) => panic!("expected two lines"),
    }
    let q = config(TestMode::Quote);
    let g = header_fields(&q, None, 123, 150, 985);
    match header(50, &g, 123, 150) {
        Header::Stacked(a, b) => {
            assert_eq!(line(&a), text("TuiType | Mode: Quote"));
            assert_eq!(line(&b), text("WPM: 12.3 | Raw: 15.0 | Press ESC for menu"));
        }
        Header::Single(_) => panic!("expected two lines"),
    }
}

#[test]
fn header_wide_tiers() {
    let c = config(TestMode::Words(25));
    let f = header_fields(&c, None, 5, 7, 1000);
    match header(85, &f, 5, 7) {
        Header::Stacked(a, b) => {
            assert_eq!(line(&a), text("TuiType | Mode: Words 25 | WPM: 0.5 | Raw WPM: 0.7 | Acc: 100.0%"));
            assert_eq!(line(&b), text("Difficulty: Medium | Repeat: OFF | End on Error: No | Press ESC for menu"));
        }
        Header::Single(_) => panic!("expected two lines"),
    }
    match header(120, &f, 5, 7) {
        Header::Stacked(a, b) => {
            assert_eq!(
                line(&a),
                text("TuiType | Mode: Words 25 | Difficulty: Medium | Repeat: OFF | End on Error: No")
            );
            assert_eq!(line(&b), text("WPM: 0.5 | Raw WPM: 0.7 | Acc: 100.0% | Press ESC for menu"));
        }
        Header::Single(_) => panic!("expected two lines"),
    }
}

#[test]
fn typing_geometry_with_stats_line() {
    let g = typing_geometry(Rect { x: 0, y: 0, width: 70, height: 10 }, false);
    assert!(g.second_line && g.stats_line);
    assert_eq!(g.text_area, Rect { x: 1, y: 3, width: 68, height: 6 });
    let g2 = typing_geometry(Rect { x: 0, y: 0, width: 100, height: 10 }, false);
    assert!(g2.second_line && !g2.stats_line);
    assert_eq!(g2.text_area, Rect { x: 1, y: 2, width: 98, height: 7 });
    let g3 = typing_geometry(Rect { x: 0, y: 0, width: 100, height: 10 }, true);
    assert!(!g3.second_line);
    assert_eq!(g3.text_area, Rect { x: 1, y: 1, width: 98, height: 8 });
}

#[test]
fn typing_view_in_normal_frame() {
    let mut s = session(TestMode::Words(10), "hello world");
    s.restart(TextSource::new("hello world".chars().collect(), false));
    match render(&s, 120, 30) {
        FrameView::Normal { main: MainView::Typing(TypingView::Text { cells, window, .. }), .. } => {
            assert_eq!(window.start, 0);
            assert_eq!(window.end, 11);
            assert_eq!(cells.len(), 11);
        }
        _ => panic!("expected the typing view"),
    }
}

#[test]
fn completion_layouts() {
    assert_eq!(completion(Rect { x: 0, y: 0, width: 14, height: 20 }, false), CompletionView::Minimal);
    assert_eq!(completion(Rect { x: 0, y: 0, width: 80, height: 6 }, false), CompletionView::Compact);
    match completion(Rect { x: 0, y: 0, width: 100, height: 24 }, true) {
        CompletionView::Popup(p) => {
            assert_eq!(p.area, Rect { x: 20, y: 4, width: 60, height: 15 });
            assert!(p.two_columns);
            assert!(p.detailed);
            assert_eq!(p.padding_top, 2);
            assert!(p.restart_note);
        }
        _ => panic!("expected a popup"),
    }
    match completion(Rect { x: 0, y: 0, width: 40, height: 24 }, false) {
        CompletionView::Popup(p) => {
            assert_eq!(p.area, Rect { x: 5, y: 4, width: 30, height: 15 });
            assert!(!p.two_columns);
            assert_eq!(p.padding_top, 0);
        }
        _ => panic!("expected a popup"),
    }
}

#[test]
fn menu_popup_and_fallback() {
    assert_eq!(menu_popup(Rect { x: 0, y: 0, width: 33, height: 20 }), Popup::Fallback);
    assert_eq!(menu_popup(Rect { x: 0, y: 0, width: 80, height: 11 }), Popup::Fallback);
    assert_eq!(
        menu_popup(Rect { x: 0, y: 0, width: 82, height: 16 }),
        Popup::At(Rect { x: 2, y: 1, width: 78, height: 14 })
    );
}

#[test]
fn warning_popup_and_fallback() {
    assert_eq!(warning_popup(Rect { x: 0, y: 0, width: 100, height: 8 }), Popup::Fallback);
    assert_eq!(
        warning_popup(Rect { x: 0, y: 0, width: 100, height: 24 }),
        Popup::At(Rect { x: 10, y: 7, width: 80, height: 10 })
    );
}
