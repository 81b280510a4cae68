use vstd::prelude::*;

verus! {

/// Milliseconds per minute (60000) divided by characters per word (5): a
/// speed in words per minute is `SPEED_FACTOR * chars / elapsed_ms`.
pub const SPEED_FACTOR: u64 = 12000;

/// A non-negative rational number `num / den`.
#[derive(Clone, Copy, Debug, PartialEq, Eq)]
pub struct Ratio {
    pub num: u64,
    pub den: u64,
}

/// The largest numerator that the statistics produce.
pub const MAX_NUM: u64 = 0x0100_0000_0000_0000;

/// The largest denominator that the statistics produce.
pub const MAX_DEN: u64 = 0x0000_0100_0000_0000;

impl Ratio {
    /// A well-formed ratio has a positive denominator and stays in the range
    /// that every comparison and rendering here handles without overflow.
    pub open spec fn wf(self) -> bool {
        &&& 0 < self.den <= MAX_DEN
        &&& self.num <= MAX_NUM
    }

    /// The tighter range of a speed: room is left to scale it by a small factor.
    pub open spec fn small(self) -> bool {
        &&& 0 < self.den <= 0x10_0000_0000
        &&& self.num <= 0x4_0000_0000_0000
    }

    pub open spec fn is_zero(self) -> bool {
        self.num == 0
    }

    /// `self < other` as rational numbers.
    pub open spec fn lt(self, other: Ratio) -> bool {
        (self.num as int) * (other.den as int) < (other.num as int) * (self.den as int)
    }

    /// The value rounded to the nearest tenth (halves round up), in tenths.
    pub open spec fn tenths_spec(self) -> int {
        (20 * self.num + self.den) as int / (2 * self.den) as int
    }

    pub open spec fn zero_spec() -> Ratio {
        Ratio { num: 0, den: 1 }
    }

    pub fn zero() -> (r: Ratio)
        ensures
            r == Ratio::zero_spec(),
            r.wf(),
            r.small(),
    {
        Ratio { num: 0, den: 1 }
    }

    /// Compares two ratios by value.
    pub fn less_than(&self, other: &Ratio) -> (r: bool)
        requires
            self.wf(),
            other.wf(),
        ensures
            r == self.lt(*other),
    {
        proof {
            lemma_cross_fits(self.num, other.den);
            lemma_cross_fits(other.num, self.den);
        }
        (self.num as u128) * (other.den as u128) < (other.num as u128) * (self.den as u128)
    }

    /// The value in tenths, rounded to the nearest tenth.
    pub fn tenths(&self) -> (r: u64)
        requires
            self.wf(),
        ensures
            r as int == self.tenths_spec(),
    {
        (20 * self.num + self.den) / (2 * self.den)
    }
}

/// A speed is in the general range too.
pub proof fn lemma_small_is_wf(r: Ratio)
    requires
        r.small(),
    ensures
        r.wf(),
{
}

proof fn lemma_cross_fits(a: u64, b: u64)
    requires
        a <= MAX_NUM,
        b <= MAX_DEN,
    ensures
        (a as int) * (b as int) <= u128::MAX,
{
    assert((a as int) * (b as int) <= (MAX_NUM as int) * (MAX_DEN as int)) by (nonlinear_arith)
        requires
            a <= MAX_NUM,
            b <= MAX_DEN,
    ;
}

/// Accuracy in percent: `100 * correct / total`, or zero when nothing was typed.
pub open spec fn accuracy_spec(correct: u32, total: u32) -> Ratio {
    if total == 0 {
        Ratio { num: 0, den: 1 }
    } else {
        Ratio { num: (100 * correct) as u64, den: total as u64 }
    }
}

/// Words per minute for `chars` characters in `elapsed_ms` milliseconds:
/// `(chars / 5) / (elapsed_ms / 60000)`, or zero before any time has passed.
pub open spec fn speed_spec(chars: u32, elapsed_ms: u32) -> Ratio {
    if elapsed_ms == 0 {
        Ratio { num: 0, den: 1 }
    } else {
        Ratio { num: (chars * SPEED_FACTOR) as u64, den: elapsed_ms as u64 }
    }
}

/// Accuracy of a run with `correct` correct characters out of `total` typed.
pub fn accuracy(correct: u32, total: u32) -> (r: Ratio)
    requires
        correct <= total,
    ensures
        r == accuracy_spec(correct, total),
        r.wf(),
{
    if total == 0 {
        Ratio::zero()
    } else {
        Ratio { num: 100 * (correct as u64), den: total as u64 }
    }
}

/// Typing speed in words per minute; the words are counted as `chars / 5`.
pub fn speed(chars: u32, elapsed_ms: u32) -> (r: Ratio)
    ensures
        r == speed_spec(chars, elapsed_ms),
        r.wf(),
        r.small(),
{
    if elapsed_ms == 0 {
        Ratio::zero()
    } else {
        proof {
            assert((chars as int) * 12000 <= (u32::MAX as int) * 12000) by (nonlinear_arith)
                requires
                    chars <= u32::MAX,
            ;
        }
        Ratio { num: (chars as u64) * SPEED_FACTOR, den: elapsed_ms as u64 }
    }
}

/// Accuracy lies between zero and one hundred percent, and is zero when
/// nothing was typed.
pub proof fn law_accuracy_range(correct: u32, total: u32)
    requires
        correct <= total,
    ensures
        total == 0 ==> accuracy_spec(correct, total).is_zero(),
        accuracy_spec(correct, total).num <= 100 * accuracy_spec(correct, total).den,
{
}

/// Once something typed is correct, accuracy is above zero: it is zero
/// exactly when nothing was typed.
pub proof fn law_accuracy_zero_iff_nothing_typed(correct: u32, total: u32)
    requires
        correct <= total,
        total > 0 ==> correct > 0,
    ensures
        accuracy_spec(correct, total).is_zero() <==> total == 0,
{
}

/// Raw speed equals speed when every typed character is correct, and exceeds
/// it when at least one is incorrect.
pub proof fn law_raw_speed_versus_speed(correct: u32, typed: u32, elapsed_ms: u32)
    requires
        correct <= typed,
        elapsed_ms > 0,
    ensures
        correct == typed ==> speed_spec(typed, elapsed_ms) == speed_spec(correct, elapsed_ms),
        correct < typed ==> speed_spec(correct, elapsed_ms).lt(speed_spec(typed, elapsed_ms)),
{
    let w = speed_spec(correct, elapsed_ms);
    let r = speed_spec(typed, elapsed_ms);
    if correct < typed {
        assert((correct as int) * 12000 < (typed as int) * 12000) by (nonlinear_arith)
            requires
                correct < typed,
        ;
        assert((w.num as int) * (elapsed_ms as int) < (r.num as int) * (elapsed_ms as int))
            by (nonlinear_arith)
            requires
                w.num < r.num,
                elapsed_ms > 0,
        ;
    }
}

/// The larger of two ratios by value (the first on a tie).
pub open spec fn max_ratio(a: Ratio, b: Ratio) -> Ratio {
    if a.lt(b) { b } else { a }
}

/// The largest of `init` and the first `n` elements of `s`.
pub open spec fn max_prefix(s: Seq<Ratio>, n: int, init: Ratio) -> Ratio
    decreases n,
{
    if n <= 0 {
        init
    } else {
        max_ratio(max_prefix(s, n - 1, init), s[n - 1])
    }
}

/// The largest of `init` and every element of `s`.
pub open spec fn max_of(s: Seq<Ratio>, init: Ratio) -> Ratio {
    max_prefix(s, s.len() as int, init)
}

/// The lowest top of the speed axis, in words per minute.
pub const CHART_FLOOR: u64 = 20;

/// The axis ranges of the speed-over-time chart.
#[derive(Clone, Copy, Debug, PartialEq, Eq)]
pub struct ChartBounds {
    /// The right end of the time axis: the number of samples, at least one.
    pub x_max: u64,
    /// The top of the speed axis.
    pub y_max: Ratio,
}

/// The chart's top: the largest speed seen, and at least `CHART_FLOOR`,
/// with a tenth added as headroom.
pub open spec fn chart_top(wpm: Seq<Ratio>, raw: Seq<Ratio>) -> Ratio {
    let m = max_of(raw, max_of(wpm, Ratio { num: CHART_FLOOR, den: 1 }));
    Ratio { num: (11 * m.num) as u64, den: (10 * m.den) as u64 }
}

/// The largest element of `s`, or `init` if that is larger.
pub fn largest(s: &Vec<Ratio>, init: Ratio) -> (r: Ratio)
    requires
        init.small(),
        forall|i: int| 0 <= i < s@.len() ==> (#[trigger] s@[i]).small(),
    ensures
        r == max_of(s@, init),
        r.small(),
{
    let mut m = init;
    let mut i: usize = 0;
    while i < s.len()
        invariant
            i <= s@.len(),
            m == max_prefix(s@, i as int, init),
            m.small(),
            init.small(),
            forall|k: int| 0 <= k < s@.len() ==> (#[trigger] s@[k]).small(),
        decreases s@.len() - i,
    {
        let x = s[i];
        if m.less_than(&x) {
            m = x;
        }
        i = i + 1;
    }
    m
}

/// The axis ranges for the two speed series; an empty series counts as a
/// single zero sample.
pub fn chart_bounds(wpm: &Vec<Ratio>, raw: &Vec<Ratio>) -> (r: ChartBounds)
    requires
        forall|i: int| 0 <= i < wpm@.len() ==> (#[trigger] wpm@[i]).small(),
        forall|i: int| 0 <= i < raw@.len() ==> (#[trigger] raw@[i]).small(),
    ensures
        r.x_max == if wpm@.len() == 0 { 1 } else { wpm@.len() },
        r.y_max == chart_top(wpm@, raw@),
        r.y_max.wf(),
{
    let floor = Ratio { num: CHART_FLOOR, den: 1 };
    let m1 = largest(wpm, floor);
    let m = largest(raw, m1);
    let x_max: u64 = if wpm.len() == 0 { 1 } else { wpm.len() as u64 };
    ChartBounds { x_max, y_max: Ratio { num: 11 * m.num, den: 10 * m.den } }
}

/// The live statistics of one test.
pub struct Stats {
    pub wpm: Ratio,
    pub raw_wpm: Ratio,
    pub accuracy: Ratio,
    /// Speed sampled at a fixed cadence, oldest first.
    pub wpm_samples: Vec<Ratio>,
    /// Raw speed sampled alongside `wpm_samples`.
    pub raw_wpm_samples: Vec<Ratio>,
    /// Set when the test is over: the values are then frozen.
    pub finished: bool,
}

impl Stats {
    pub open spec fn wf(&self) -> bool {
        &&& self.wpm.small()
        &&& self.raw_wpm.small()
        &&& self.accuracy.wf()
        &&& self.wpm_samples@.len() == self.raw_wpm_samples@.len()
        &&& forall|i: int| 0 <= i < self.wpm_samples@.len() ==> (#[trigger] self.wpm_samples@[i]).small()
        &&& forall|i: int| 0 <= i < self.raw_wpm_samples@.len() ==> (#[trigger] self.raw_wpm_samples@[i]).small()
    }

    /// Statistics before anything is typed.
    pub fn new() -> (r: Stats)
        ensures
            r.wf(),
            r.wpm == Ratio::zero_spec(),
            r.raw_wpm == Ratio::zero_spec(),
            r.accuracy == Ratio::zero_spec(),
            r.wpm_samples@.len() == 0,
            r.raw_wpm_samples@.len() == 0,
            !r.finished,
    {
        Stats {
            wpm: Ratio::zero(),
            raw_wpm: Ratio::zero(),
            accuracy: Ratio::zero(),
            wpm_samples: Vec::new(),
            raw_wpm_samples: Vec::new(),
            finished: false,
        }
    }

    /// Recomputes the live values from the counts so far; does nothing once
    /// the test is over.
    pub fn update(&mut self, correct: u32, typed: u32, elapsed_ms: u32)
        requires
            old(self).wf(),
            correct <= typed,
        ensures
            final(self).wf(),
            final(self).finished == old(self).finished,
            final(self).wpm_samples@ == old(self).wpm_samples@,
            final(self).raw_wpm_samples@ == old(self).raw_wpm_samples@,
            old(self).finished ==> (
                final(self).wpm == old(self).wpm
                && final(self).raw_wpm == old(self).raw_wpm
                && final(self).accuracy == old(self).accuracy),
            !old(self).finished ==> (
                final(self).wpm == speed_spec(correct, elapsed_ms)
                && final(self).raw_wpm == speed_spec(typed, elapsed_ms)
                && final(self).accuracy == accuracy_spec(correct, typed)),
    {
        if !self.finished {
            self.wpm = speed(correct, elapsed_ms);
            self.raw_wpm = speed(typed, elapsed_ms);
            self.accuracy = accuracy(correct, typed);
        }
    }

    /// Appends the current speeds to the two series; does nothing once the
    /// test is over.
    pub fn record_sample(&mut self)
        requires
            old(self).wf(),
        ensures
            final(self).wf(),
            final(self).finished == old(self).finished,
            final(self).wpm == old(self).wpm,
            final(self).raw_wpm == old(self).raw_wpm,
            final(self).accuracy == old(self).accuracy,
            old(self).finished ==> final(self).wpm_samples@ == old(self).wpm_samples@,
            old(self).finished ==> final(self).raw_wpm_samples@ == old(self).raw_wpm_samples@,
            !old(self).finished ==> final(self).wpm_samples@ == old(self).wpm_samples@.push(old(self).wpm),
            !old(self).finished ==> final(self).raw_wpm_samples@ == old(self).raw_wpm_samples@.push(old(self).raw_wpm),
    {
        if !self.finished {
            let w = self.wpm;
            let r = self.raw_wpm;
            self.wpm_samples.push(w);
            self.raw_wpm_samples.push(r);
        }
    }

    /// Freezes the values: no later update or sample changes them.
    pub fn finish(&mut self)
        requires
            old(self).wf(),
        ensures
            final(self).wf(),
            final(self).finished,
            final(self).wpm == old(self).wpm,
            final(self).raw_wpm == old(self).raw_wpm,
            final(self).accuracy == old(self).accuracy,
            final(self).wpm_samples@ == old(self).wpm_samples@,
            final(self).raw_wpm_samples@ == old(self).raw_wpm_samples@,
    {
        self.finished = true;
    }
}

} // verus!
