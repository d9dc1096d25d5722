use vstd::prelude::*;
use vstd::arithmetic::div_mod::{lemma_fundamental_div_mod, lemma_mod_pos_bound};
use crate::output::Output;

verus! {

/// Largest value the noise period register can be set to, plus one (5-bit register).
pub const NOISE_PERIOD_LIMIT: u8 = 32;

/// Bound on the scaled period of the noise divider and on its accumulator.
pub const NOISE_SOURCE_BOUND: u64 = 0x200_0000_0000;

/// Smallest noise period the divider runs at, for the given clock and sample rates.
pub open spec fn noise_period_min(clock_rate: int, sample_rate: int) -> int {
    clock_rate / (sample_rate * 16)
}

/// The scaled period of the noise divider running at `period`.
pub open spec fn noise_source(sample_rate: int, period: int) -> int {
    (period + 1) * (sample_rate * 16)
}

/// One step of the 16-bit shift register: bit 0 of `r ^ (r >> 3)` is fed in at bit 15.
pub open spec fn lfsr_next(r: u16) -> u16 {
    (r >> 1u16) | (((r ^ (r >> 3u16)) & 1u16) << 15u16)
}

/// The noise signal read from the shift register: its bit 0.
pub open spec fn noise_bit(r: u16) -> bool {
    r & 1u16 == 1u16
}

/// Abstract state of the noise divider.
pub struct NoiseModel {
    /// The error accumulator.
    pub error: int,
    /// The period the divider runs at (already raised to the minimum).
    pub period: int,
    /// The shift register.
    pub shift: u16,
}

impl NoiseModel {
    /// A divider just built: the accumulator holds the clock rate, the register holds 1.
    pub open spec fn initial(clock_rate: int, sample_rate: int) -> NoiseModel {
        NoiseModel { error: clock_rate, period: noise_period_min(clock_rate, sample_rate), shift: 1 }
    }

    /// The divider after `period` was written: periods under the minimum are raised to it.
    pub open spec fn with_period(self, clock_rate: int, sample_rate: int, period: int) -> NoiseModel {
        let p = if period < noise_period_min(clock_rate, sample_rate) {
            noise_period_min(clock_rate, sample_rate)
        } else {
            period
        };
        NoiseModel { period: p, ..self }
    }

    /// The divider after one sample: the register steps when the accumulator goes below
    /// zero, and the scaled period is then added back.
    pub open spec fn advance(self, clock_rate: int, sample_rate: int) -> NoiseModel {
        let e = self.error - clock_rate;
        if e < 0 {
            NoiseModel { error: e + noise_source(sample_rate, self.period), period: self.period, shift: lfsr_next(self.shift) }
        } else {
            NoiseModel { error: e, ..self }
        }
    }
}

/// Pseudo-random bit source shared by all channels.
pub struct NoiseGenerator {
    pub clock_rate: u32,
    pub sample_rate_x16: u64,
    pub error: i64,
    pub period_min: u32,
    pub period: u32,
    pub source: u64,
    pub shift: u16,
}

impl View for NoiseGenerator {
    type V = NoiseModel;

    open spec fn view(&self) -> NoiseModel {
        NoiseModel { error: self.error as int, period: self.period as int, shift: self.shift }
    }
}

proof fn lemma_noise_source_bounds(clock_rate: int, sample_rate: int, period: int)
    requires
        0 <= clock_rate <= u32::MAX,
        0 < sample_rate <= u32::MAX,
        noise_period_min(clock_rate, sample_rate) <= period,
        period < NOISE_PERIOD_LIMIT || period == noise_period_min(clock_rate, sample_rate),
    ensures
        clock_rate < noise_source(sample_rate, period) <= NOISE_SOURCE_BOUND,
        noise_period_min(clock_rate, sample_rate) < u32::MAX,
{
    let d = sample_rate * 16;
    let q = clock_rate / d;
    lemma_fundamental_div_mod(clock_rate, d);
    assert(0 <= q) by (nonlinear_arith)
        requires q == clock_rate / d, clock_rate >= 0, d > 0;
    lemma_mod_pos_bound(clock_rate, d);
    assert(clock_rate < (q + 1) * d) by (nonlinear_arith)
        requires clock_rate == d * q + clock_rate % d, clock_rate % d < d;
    assert((q + 1) * d <= (period + 1) * d) by (nonlinear_arith)
        requires q <= period, d > 0;
    if period < NOISE_PERIOD_LIMIT {
        assert((period + 1) * d <= NOISE_SOURCE_BOUND) by (nonlinear_arith)
            requires 0 < sample_rate <= u32::MAX, 0 <= period < 32, d == sample_rate * 16;
    } else {
        assert((q + 1) * d <= NOISE_SOURCE_BOUND) by (nonlinear_arith)
            requires q * d <= clock_rate, clock_rate <= u32::MAX, d == sample_rate * 16,
                0 < sample_rate <= u32::MAX;
    }
    assert(q * 16 <= clock_rate) by (nonlinear_arith)
        requires q * d <= clock_rate, d >= 16, q >= 0;
}

impl NoiseGenerator {
    /// The clock rate the divider was built with.
    pub open spec fn clock(&self) -> int {
        self.clock_rate as int
    }

    /// The sample rate the divider was built with.
    pub open spec fn sample(&self) -> int {
        self.sample_rate_x16 as int / 16
    }

    /// The fields agree with the clock and sample rates and stay within their bounds.
    pub open spec fn wf(&self, clock_rate: int, sample_rate: int) -> bool {
        &&& self.clock_rate == clock_rate
        &&& self.sample_rate_x16 == sample_rate * 16
        &&& 0 < sample_rate <= u32::MAX
        &&& self.period_min == noise_period_min(clock_rate, sample_rate)
        &&& self.period_min <= self.period
        &&& (self.period < NOISE_PERIOD_LIMIT || self.period == self.period_min)
        &&& self.source == noise_source(sample_rate, self.period as int)
        &&& self.clock_rate < self.source <= NOISE_SOURCE_BOUND
        &&& 0 <= self.error <= NOISE_SOURCE_BOUND
    }

    /// A divider at the minimum period, with the register seeded to 1.
    pub fn new(clock_rate: u32, sample_rate: u32) -> (r: NoiseGenerator)
        requires
            sample_rate > 0,
        ensures
            r.wf(clock_rate as int, sample_rate as int),
            r@ == NoiseModel::initial(clock_rate as int, sample_rate as int),
    {
        proof {
            lemma_noise_source_bounds(clock_rate as int, sample_rate as int, noise_period_min(clock_rate as int, sample_rate as int));
        }
        let sample_rate_x16: u64 = sample_rate as u64 * 16;
        let period_min: u32 = (clock_rate as u64 / sample_rate_x16) as u32;
        let source: u64 = (period_min as u64 + 1) * sample_rate_x16;
        NoiseGenerator {
            clock_rate,
            sample_rate_x16,
            error: clock_rate as i64,
            period_min,
            period: period_min,
            source,
            shift: 1,
        }
    }

    /// Writes the 5-bit period register; values under the minimum are raised to it.
    pub fn set_period(&mut self, period: u8)
        requires
            old(self).wf(old(self).clock(), old(self).sample()),
            period < NOISE_PERIOD_LIMIT,
        ensures
            final(self).wf(old(self).clock(), old(self).sample()),
            final(self).clock_rate == old(self).clock_rate,
            final(self).sample_rate_x16 == old(self).sample_rate_x16,
            final(self)@ == old(self)@.with_period(old(self).clock(), old(self).sample(), period as int),
    {
        let period: u32 = if self.period_min < period as u32 { period as u32 } else { self.period_min };
        proof {
            lemma_noise_source_bounds(self.clock(), self.sample(), period as int);
        }
        self.period = period;
        self.source = (period as u64 + 1) * self.sample_rate_x16;
    }

    /// Advances one sample and returns `NOISE` while bit 0 of the register is set, else `NONE`.
    pub fn update(&mut self) -> (r: Output)
        requires
            old(self).wf(old(self).clock(), old(self).sample()),
        ensures
            final(self).wf(old(self).clock(), old(self).sample()),
            final(self).clock_rate == old(self).clock_rate,
            final(self).sample_rate_x16 == old(self).sample_rate_x16,
            final(self)@ == old(self)@.advance(old(self).clock(), old(self).sample()),
            r == Output::spec_from_flags(false, noise_bit(final(self)@.shift)),
    {
        self.error = self.error - self.clock_rate as i64;
        if self.error < 0 {
            self.error = self.error + self.source as i64;
            self.shift = (self.shift >> 1u16) | (((self.shift ^ (self.shift >> 3u16)) & 1u16) << 15u16);
        }
        if self.shift & 1u16 == 1u16 {
            Output::NOISE
        } else {
            Output::NONE
        }
    }
}

} // verus!
