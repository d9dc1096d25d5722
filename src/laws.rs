use vstd::prelude::*;
use vstd::arithmetic::div_mod::{lemma_fundamental_div_mod, lemma_mod_pos_bound};
use crate::channel::{level_of, VOLUME_LIMIT};
use crate::generator::{I16_DIVISOR, mix_i16, volume_i16, volume_table, GeneratorModel, CHANNELS};
use crate::noise::{noise_period_min, noise_source};
use crate::output::Output;
use crate::tone::{tone_period_min, tone_source, ToneModel};

verus! {

/// Every level of the next sample is a 4-bit volume level.
pub proof fn lemma_levels_in_range(g: GeneratorModel)
    requires
        g.wf(),
    ensures
        g.levels().len() == CHANNELS,
        forall|i: int| 0 <= i < CHANNELS ==> 0 <= #[trigger] g.levels()[i] < VOLUME_LIMIT,
{
    assert forall|i: int| 0 <= i < CHANNELS implies 0 <= #[trigger] g.levels()[i] < VOLUME_LIMIT by {
        assert(0 <= g.channels[i].volume < VOLUME_LIMIT);
    }
}

/// The signed 16-bit contribution of every volume level lies in `0..=10922`.
pub proof fn lemma_volume_i16_bounds(level: int)
    requires
        0 <= level < VOLUME_LIMIT,
    ensures
        0 <= volume_i16(level) <= 10922,
{
    assert(volume_table()[level] <= 21845);
}

/// Whatever the volumes, modes, tone and noise states, three channels mixed into a
/// signed 16-bit sample stay within `0..=i16::MAX`: at full volume each adds 21845 / 2.
pub proof fn lemma_mix_fits_i16(g: GeneratorModel)
    requires
        g.wf(),
    ensures
        0 <= mix_i16(g.levels()) <= i16::MAX,
        3 * (21845int / I16_DIVISOR as int) <= i16::MAX,
{
    lemma_levels_in_range(g);
    lemma_volume_i16_bounds(g.levels()[0]);
    lemma_volume_i16_bounds(g.levels()[1]);
    lemma_volume_i16_bounds(g.levels()[2]);
}

/// A channel whose mode is `NONE` contributes 0 to the next sample, whatever its volume,
/// its tone state and the noise state.
pub proof fn lemma_none_is_silent(g: GeneratorModel, ch: int)
    requires
        g.wf(),
        0 <= ch < CHANNELS,
        g.channels[ch].mode == Output::NONE,
    ensures
        g.levels()[ch] == 0,
{
}

/// The gating of a channel at volume `v`: `NONE` never sounds, `TONE` sounds while the tone
/// flag is low, `NOISE` while the noise flag is low, and both together unless both flags
/// are high.
pub proof fn lemma_gate_truth_table(v: int, tone: bool, noise: bool)
    ensures
        level_of(Output::NONE, v, tone, noise) == 0,
        level_of(Output::TONE, v, tone, noise) == (if tone { 0 } else { v }),
        level_of(Output::NOISE, v, tone, noise) == (if noise { 0 } else { v }),
        level_of(Output::TONE_NOISE, v, tone, noise) == (if tone && noise { 0 } else { v }),
{
}

/// A tone divider whose scaled period equals the clock rate and whose accumulator is 0
/// flips its flag on every sample and keeps its accumulator at 0, so its channel
/// alternates between silence and its volume.
pub proof fn lemma_full_rate_alternates(t: ToneModel, clock_rate: int, sample_rate: int)
    requires
        0 < clock_rate <= u32::MAX,
        tone_source(sample_rate, t.period) == clock_rate,
        t.error == 0,
    ensures
        t.advance(clock_rate, sample_rate).error == 0,
        t.advance(clock_rate, sample_rate).period == t.period,
        t.advance(clock_rate, sample_rate).high == !t.high,
{
}

/// Writing period 0 runs a tone divider at its minimum period, which is at least 1, and
/// runs the noise divider at its minimum period, whose scaled period exceeds the clock rate.
pub proof fn lemma_period_zero_clamps(g: GeneratorModel, ch: int)
    requires
        g.wf(),
        0 <= ch < CHANNELS,
    ensures
        g.with_period(ch, 0).channels[ch].tone.period == tone_period_min(g.clock_rate, g.sample_rate),
        tone_period_min(g.clock_rate, g.sample_rate) >= 1,
        g.with_noise_period(0).noise.period == noise_period_min(g.clock_rate, g.sample_rate),
        noise_source(g.sample_rate, g.with_noise_period(0).noise.period) > g.clock_rate,
{
    let d = g.sample_rate * 16;
    let q = g.clock_rate / d;
    lemma_fundamental_div_mod(g.clock_rate, d);
    lemma_mod_pos_bound(g.clock_rate, d);
    assert(0 <= q) by (nonlinear_arith)
        requires q == g.clock_rate / d, g.clock_rate >= 0, d > 0;
    assert(g.clock_rate < (q + 1) * d) by (nonlinear_arith)
        requires g.clock_rate == d * q + g.clock_rate % d, g.clock_rate % d < d;
}

/// The minimum tone period is the smallest one whose scaled period exceeds half the
/// clock rate: no settable period makes the divider owe two flips in one sample.
pub proof fn lemma_tone_period_floor(clock_rate: int, sample_rate: int, period: int)
    requires
        0 <= clock_rate <= u32::MAX,
        0 < sample_rate <= u32::MAX,
        period >= tone_period_min(clock_rate, sample_rate),
    ensures
        2 * tone_source(sample_rate, period) > clock_rate,
        2 * tone_source(sample_rate, tone_period_min(clock_rate, sample_rate) - 1) <= clock_rate,
{
    let d = sample_rate * 8 * 2;
    let q = clock_rate / d;
    lemma_fundamental_div_mod(clock_rate, d);
    lemma_mod_pos_bound(clock_rate, d);
    assert(clock_rate < (q + 1) * d) by (nonlinear_arith)
        requires clock_rate == d * q + clock_rate % d, clock_rate % d < d;
    assert(q * d <= clock_rate) by (nonlinear_arith)
        requires clock_rate == d * q + clock_rate % d, 0 <= clock_rate % d;
    assert(2 * tone_source(sample_rate, period) > clock_rate) by (nonlinear_arith)
        requires clock_rate < (q + 1) * d, period >= q + 1, d == sample_rate * 8 * 2, sample_rate > 0;
    assert(2 * tone_source(sample_rate, q) <= clock_rate) by (nonlinear_arith)
        requires q * d <= clock_rate, d == sample_rate * 8 * 2;
}

/// A tone divider whose scaled period `S` is at least the clock rate `c` keeps its
/// accumulator in `0..=max(e, S)` and flips its flag `k` times over `n` samples with
/// `n * c - e <= k * S <= n * c + S`, `e` being the accumulator it started from: it flips
/// at the rate `c / S` per sample (a tone of `c / (2 * S)` cycles per sample) with a drift
/// bounded by one period, whatever `n`.
pub proof fn lemma_tone_rate(t: ToneModel, clock_rate: int, sample_rate: int, n: nat)
    requires
        0 < clock_rate <= u32::MAX,
        tone_source(sample_rate, t.period) >= clock_rate,
        t.error >= 0,
    ensures
        t.advance_n(clock_rate, sample_rate, n).period == t.period,
        0 <= t.advance_n(clock_rate, sample_rate, n).error,
        t.advance_n(clock_rate, sample_rate, n).error <= t.error
            || t.advance_n(clock_rate, sample_rate, n).error < tone_source(sample_rate, t.period),
        t.advance_n(clock_rate, sample_rate, n).error
            == t.error - n * clock_rate + t.flips_n(clock_rate, sample_rate, n) * tone_source(sample_rate, t.period),
        n * clock_rate - t.error <= t.flips_n(clock_rate, sample_rate, n) * tone_source(sample_rate, t.period),
        t.flips_n(clock_rate, sample_rate, n) * tone_source(sample_rate, t.period)
            <= n * clock_rate + tone_source(sample_rate, t.period),
    decreases n,
{
    let src = tone_source(sample_rate, t.period);
    if n > 0 {
        let m = (n - 1) as nat;
        lemma_tone_rate(t, clock_rate, sample_rate, m);
        let k = t.flips_n(clock_rate, sample_rate, m);
        assert(k * src + src == (k + 1) * src) by (nonlinear_arith);
        assert(m * clock_rate + clock_rate == n * clock_rate) by (nonlinear_arith)
            requires n == m + 1;
    }
    let k = t.flips_n(clock_rate, sample_rate, n);
    let e = t.advance_n(clock_rate, sample_rate, n).error;
    assert(k * src == e - t.error + n * clock_rate);
}

} // verus!
