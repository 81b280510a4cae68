use tuitype::stats::{accuracy, chart_bounds, speed, Ratio, Stats};

#[test]
fn accuracy_is_zero_without_typing() {
    assert_eq!(accuracy(0, 0), Ratio { num: 0, den: 1 });
}

#[test]
fn accuracy_of_three_in_four() {
    let a = accuracy(3, 4);
    assert_eq!(a, Ratio { num: 300, den: 4 });
    assert_eq!(a.tenths(), 750);
}

#[test]
fn accuracy_stays_within_hundred() {
    let a = accuracy(7, 7);
    assert_eq!(a.tenths(), 1000);
    let b = accuracy(1, 3);
    assert!(b.num > 0);
    assert_eq!(b.tenths(), 333);
}

#[test]
fn accuracy_zero_when_nothing_correct() {
    assert_eq!(accuracy(0, 5).num, 0);
}

#[test]
fn speed_of_fifty_chars_in_a_minute() {
    let s = speed(50, 60000);
    assert_eq!(s.tenths(), 100);
}

#[test]
fn speed_is_zero_before_time_passes() {
    assert_eq!(speed(50, 0), Ratio { num: 0, den: 1 });
}

#[test]
fn raw_speed_equals_speed_without_errors() {
    assert_eq!(speed(40, 30000), speed(40, 30000));
    assert_eq!(speed(40, 30000).tenths(), 160);
}

#[test]
fn raw_speed_exceeds_speed_with_errors() {
    let w = speed(40, 30000);
    let r = speed(45, 30000);
    assert!(w.less_than(&r));
    assert!(!r.less_than(&w));
}

#[test]
fn tenths_round_half_up() {
    assert_eq!(Ratio { num: 1, den: 20 }.tenths(), 1);
    assert_eq!(Ratio { num: 1, den: 21 }.tenths(), 0);
}

#[test]
fn chart_bounds_without_samples() {
    let b = chart_bounds(&vec![], &vec![]);
    assert_eq!(b.x_max, 1);
    assert_eq!(b.y_max, Ratio { num: 220, den: 10 });
}

#[test]
fn chart_bounds_follow_the_fastest_sample() {
    let wpm = vec![Ratio { num: 30, den: 1 }, Ratio { num: 10, den: 1 }];
    let raw = vec![Ratio { num: 35, den: 1 }, Ratio { num: 12, den: 1 }];
    let b = chart_bounds(&wpm, &raw);
    assert_eq!(b.x_max, 2);
    assert_eq!(b.y_max, Ratio { num: 385, den: 10 });
}

#[test]
fn samples_stop_after_finish() {
    let mut s = Stats::new();
    s.update(10, 12, 6000);
    s.record_sample();
    assert_eq!(s.wpm_samples.len(), 1);
    assert_eq!(s.raw_wpm_samples.len(), 1);
    assert_eq!(s.wpm_samples[0].tenths(), 200);
    s.finish();
    s.record_sample();
    s.update(20, 20, 9000);
    assert_eq!(s.wpm_samples.len(), 1);
    assert_eq!(s.wpm.tenths(), 200);
}
