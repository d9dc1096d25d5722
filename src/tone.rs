use vstd::prelude::*;
use vstd::arithmetic::div_mod::lemma_fundamental_div_mod;
use crate::output::Output;

verus! {

/// Largest value a period register can be set to, plus one (12-bit register).
pub const TONE_PERIOD_LIMIT: u16 = 4096;

/// Bound on the scaled period of a tone divider and on its accumulator.
pub const TONE_SOURCE_BOUND: u64 = 0x8000_0000_0000;

/// Smallest tone period the divider runs at, for the given clock and sample rates.
pub open spec fn tone_period_min(clock_rate: int, sample_rate: int) -> int {
    clock_rate / (sample_rate * 8 * 2) + 1
}

/// The scaled period of a tone divider running at `period`.
pub open spec fn tone_source(sample_rate: int, period: int) -> int {
    sample_rate * 8 * period
}

/// Abstract state of a tone divider.
pub struct ToneModel {
    /// The error accumulator.
    pub error: int,
    /// The period the divider runs at (already raised to the minimum).
    pub period: int,
    /// The tone flag.
    pub high: bool,
}

impl ToneModel {
    /// A divider just built: the accumulator holds the clock rate, the period is the minimum.
    pub open spec fn initial(clock_rate: int, sample_rate: int) -> ToneModel {
        ToneModel { error: clock_rate, period: tone_period_min(clock_rate, sample_rate), high: false }
    }

    /// The divider after `period` was written: periods under the minimum are raised to it.
    pub open spec fn with_period(self, clock_rate: int, sample_rate: int, period: int) -> ToneModel {
        let p = if period < tone_period_min(clock_rate, sample_rate) {
            tone_period_min(clock_rate, sample_rate)
        } else {
            period
        };
        ToneModel { period: p, ..self }
    }

    /// The accumulator after one clock-rate step, saturating at the lowest `i64`.
    pub open spec fn stepped_error(self, clock_rate: int) -> int {
        if self.error - clock_rate < i64::MIN {
            i64::MIN as int
        } else {
            self.error - clock_rate
        }
    }

    /// The divider after one sample: the flag flips when the accumulator goes below zero,
    /// and the scaled period is then added back.
    pub open spec fn advance(self, clock_rate: int, sample_rate: int) -> ToneModel {
        let e = self.stepped_error(clock_rate);
        if e < 0 {
            ToneModel { error: e + tone_source(sample_rate, self.period), period: self.period, high: !self.high }
        } else {
            ToneModel { error: e, ..self }
        }
    }

    /// The divider after `n` samples.
    pub open spec fn advance_n(self, clock_rate: int, sample_rate: int, n: nat) -> ToneModel
        decreases n,
    {
        if n == 0 {
            self
        } else {
            self.advance_n(clock_rate, sample_rate, (n - 1) as nat).advance(clock_rate, sample_rate)
        }
    }

    /// How many times the flag flips over the next `n` samples.
    pub open spec fn flips_n(self, clock_rate: int, sample_rate: int, n: nat) -> int
        decreases n,
    {
        if n == 0 {
            0
        } else {
            let before = self.advance_n(clock_rate, sample_rate, (n - 1) as nat);
            self.flips_n(clock_rate, sample_rate, (n - 1) as nat)
                + if before.advance(clock_rate, sample_rate).high != before.high { 1int } else { 0int }
        }
    }
}

/// Square-wave divider: flips a flag at a rate set by a 12-bit period.
#[derive(Clone, Copy)]
pub struct ToneGenerator {
    pub clock_rate: u32,
    pub sample_rate_x8: u64,
    pub error: i64,
    pub period_min: u32,
    pub period: u32,
    pub source: u64,
    pub high: bool,
}

impl View for ToneGenerator {
    type V = ToneModel;

    open spec fn view(&self) -> ToneModel {
        ToneModel { error: self.error as int, period: self.period as int, high: self.high }
    }
}

proof fn lemma_source_bounds(clock_rate: int, sample_rate: int, period: int)
    requires
        0 <= clock_rate <= u32::MAX,
        0 < sample_rate <= u32::MAX,
        tone_period_min(clock_rate, sample_rate) <= period,
        period < TONE_PERIOD_LIMIT || period == tone_period_min(clock_rate, sample_rate),
    ensures
        tone_source(sample_rate, period) <= TONE_SOURCE_BOUND,
        tone_period_min(clock_rate, sample_rate) <= u32::MAX,
{
    let d = sample_rate * 8 * 2;
    let q = clock_rate / d;
    lemma_fundamental_div_mod(clock_rate, d);
    assert(0 <= q) by (nonlinear_arith)
        requires q == clock_rate / d, clock_rate >= 0, d > 0;
    assert(q * d <= clock_rate);
    if period < TONE_PERIOD_LIMIT {
        assert(sample_rate * 8 * period <= TONE_SOURCE_BOUND) by (nonlinear_arith)
            requires 0 < sample_rate <= u32::MAX, 0 < period < 4096;
    } else {
        assert(sample_rate * 8 * (q + 1) <= TONE_SOURCE_BOUND) by (nonlinear_arith)
            requires q * d <= clock_rate, d == sample_rate * 8 * 2, clock_rate <= u32::MAX,
                0 < sample_rate <= u32::MAX, q >= 0;
    }
    assert(q * 16 <= clock_rate) by (nonlinear_arith)
        requires q * d <= clock_rate, d >= 16, q >= 0;
}

impl ToneGenerator {
    /// The clock rate the divider was built with.
    pub open spec fn clock(&self) -> int {
        self.clock_rate as int
    }

    /// The sample rate the divider was built with.
    pub open spec fn sample(&self) -> int {
        self.sample_rate_x8 as int / 8
    }

    /// The fields agree with the clock and sample rates and stay within their bounds.
    pub open spec fn wf(&self, clock_rate: int, sample_rate: int) -> bool {
        &&& self.clock_rate == clock_rate
        &&& self.sample_rate_x8 == sample_rate * 8
        &&& 0 < sample_rate <= u32::MAX
        &&& self.period_min == tone_period_min(clock_rate, sample_rate)
        &&& self.period_min <= self.period
        &&& (self.period < TONE_PERIOD_LIMIT || self.period == self.period_min)
        &&& self.source == tone_source(sample_rate, self.period as int)
        &&& self.source <= TONE_SOURCE_BOUND
        &&& self.error <= TONE_SOURCE_BOUND
    }

    /// A divider at the minimum period, with the accumulator holding the clock rate.
    pub fn new(clock_rate: u32, sample_rate: u32) -> (r: ToneGenerator)
        requires
            sample_rate > 0,
        ensures
            r.wf(clock_rate as int, sample_rate as int),
            r@ == ToneModel::initial(clock_rate as int, sample_rate as int),
    {
        proof {
            lemma_source_bounds(clock_rate as int, sample_rate as int, tone_period_min(clock_rate as int, sample_rate as int));
        }
        let sample_rate_x8: u64 = sample_rate as u64 * 8;
        let period: u32 = (clock_rate as u64 / (sample_rate_x8 * 2) + 1) as u32;
        proof {
            assert(period as u64 * sample_rate_x8 == tone_source(sample_rate as int, period as int)) by (nonlinear_arith)
                requires sample_rate_x8 == sample_rate * 8;
        }
        let source: u64 = period as u64 * sample_rate_x8;
        ToneGenerator {
            clock_rate,
            sample_rate_x8,
            error: clock_rate as i64,
            period_min: period,
            period,
            source,
            high: false,
        }
    }

    /// Writes the 12-bit period register; values under the minimum are raised to it.
    pub fn set_period(&mut self, period: u16)
        requires
            old(self).wf(old(self).clock(), old(self).sample()),
            period < TONE_PERIOD_LIMIT,
        ensures
            final(self).wf(old(self).clock(), old(self).sample()),
            final(self).clock_rate == old(self).clock_rate,
            final(self).sample_rate_x8 == old(self).sample_rate_x8,
            final(self)@ == old(self)@.with_period(old(self).clock(), old(self).sample(), period as int),
    {
        let period: u32 = if (period as u32) < self.period_min { self.period_min } else { period as u32 };
        proof {
            lemma_source_bounds(self.clock(), self.sample(), period as int);
        }
        self.period = period;
        proof {
            assert(self.sample_rate_x8 * period as u64 == tone_source(self.sample(), period as int)) by (nonlinear_arith)
                requires self.sample_rate_x8 == self.sample() * 8;
        }
        self.source = self.sample_rate_x8 * period as u64;
    }

    /// Advances one sample and returns `TONE` while the flag is set, else `NONE`.
    pub fn update(&mut self) -> (r: Output)
        requires
            old(self).wf(old(self).clock(), old(self).sample()),
        ensures
            final(self).wf(old(self).clock(), old(self).sample()),
            final(self).clock_rate == old(self).clock_rate,
            final(self).sample_rate_x8 == old(self).sample_rate_x8,
            final(self)@ == old(self)@.advance(old(self).clock(), old(self).sample()),
            r == Output::spec_from_flags(final(self)@.high, false),
    {
        let clock: i64 = self.clock_rate as i64;
        if self.error < i64::MIN + clock {
            self.error = i64::MIN;
        } else {
            self.error = self.error - clock;
        }
        if self.error < 0 {
            self.error = self.error + self.source as i64;
            self.high = !self.high;
        }
        if self.high {
            Output::TONE
        } else {
            Output::NONE
        }
    }
}

} // verus!
