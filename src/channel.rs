use vstd::prelude::*;
use crate::output::Output;
use crate::tone::{ToneGenerator, ToneModel, TONE_PERIOD_LIMIT};

verus! {

/// Largest volume level, plus one (4-bit register).
pub const VOLUME_LIMIT: u8 = 16;

/// What a channel gated by `mode` contributes when `signal` holds the raised signals:
/// silence when `signal` has every flag of `mode` (always, for `NONE`), else `volume`.
pub open spec fn gate(mode: Output, volume: int, signal: Output) -> int {
    if signal.spec_contains(mode) {
        0
    } else {
        volume
    }
}

/// The contribution of a channel for the given tone and noise flags.
pub open spec fn level_of(mode: Output, volume: int, tone: bool, noise: bool) -> int {
    gate(mode, volume, Output::spec_from_flags(tone, noise))
}

/// Abstract state of a channel.
pub struct ChannelModel {
    /// Its tone divider.
    pub tone: ToneModel,
    /// Its volume level.
    pub volume: int,
    /// The signals that gate it.
    pub mode: Output,
}

impl ChannelModel {
    /// A channel just built: silent, at volume 0 with mode `NONE`.
    pub open spec fn initial(clock_rate: int, sample_rate: int) -> ChannelModel {
        ChannelModel { tone: ToneModel::initial(clock_rate, sample_rate), volume: 0, mode: Output::NONE }
    }

    /// The channel after one sample.
    pub open spec fn advance(self, clock_rate: int, sample_rate: int) -> ChannelModel {
        ChannelModel { tone: self.tone.advance(clock_rate, sample_rate), ..self }
    }

    /// What the channel contributes on its next sample, given the noise flag of that sample.
    pub open spec fn next_level(self, clock_rate: int, sample_rate: int, noise: bool) -> int {
        level_of(self.mode, self.volume, self.tone.advance(clock_rate, sample_rate).high, noise)
    }
}

/// The level a channel gated by `mode` at `volume` contributes, given the tone and noise
/// signals of the current sample: 0 when their union holds every flag of `mode`, else `volume`.
pub fn channel_level(mode: Output, volume: u8, tone: Output, noise: Output) -> (r: u8)
    ensures
        r == gate(mode, volume as int, Output::spec_from_flags(
            tone.has_tone() || noise.has_tone(),
            tone.has_noise() || noise.has_noise(),
        )),
{
    if tone.union(noise).contains(mode) {
        0
    } else {
        volume
    }
}

/// One square-wave channel: a tone divider, a volume and a gating mode.
#[derive(Clone, Copy)]
pub struct Channel {
    pub generator: ToneGenerator,
    pub volume: u8,
    pub mode: Output,
}

impl View for Channel {
    type V = ChannelModel;

    open spec fn view(&self) -> ChannelModel {
        ChannelModel { tone: self.generator@, volume: self.volume as int, mode: self.mode }
    }
}

impl Channel {
    /// The divider agrees with the rates and the volume is a 4-bit level.
    pub open spec fn wf(&self, clock_rate: int, sample_rate: int) -> bool {
        &&& self.generator.wf(clock_rate, sample_rate)
        &&& self.volume < VOLUME_LIMIT
    }

    /// A silent channel at the minimum period.
    pub fn new(clock_rate: u32, sample_rate: u32) -> (r: Channel)
        requires
            sample_rate > 0,
        ensures
            r.wf(clock_rate as int, sample_rate as int),
            r@ == ChannelModel::initial(clock_rate as int, sample_rate as int),
    {
        Channel { generator: ToneGenerator::new(clock_rate, sample_rate), volume: 0, mode: Output::NONE }
    }

    /// Writes the tone period register.
    pub fn set_period(&mut self, period: u16)
        requires
            old(self).wf(old(self).generator.clock(), old(self).generator.sample()),
            period < TONE_PERIOD_LIMIT,
        ensures
            final(self).wf(old(self).generator.clock(), old(self).generator.sample()),
            final(self).generator.clock_rate == old(self).generator.clock_rate,
            final(self).generator.sample_rate_x8 == old(self).generator.sample_rate_x8,
            final(self)@ == (ChannelModel {
                tone: old(self)@.tone.with_period(old(self).generator.clock(), old(self).generator.sample(), period as int),
                ..old(self)@
            }),
    {
        self.generator.set_period(period)
    }

    /// Sets the signals that gate the channel.
    pub fn set_mode(&mut self, mode: Output)
        ensures
            final(self).generator == old(self).generator,
            final(self)@ == (ChannelModel { mode, ..old(self)@ }),
    {
        self.mode = mode
    }

    /// Sets the 4-bit volume level.
    pub fn set_volume(&mut self, volume: u8)
        requires
            volume < VOLUME_LIMIT,
        ensures
            final(self).generator == old(self).generator,
            final(self)@ == (ChannelModel { volume: volume as int, ..old(self)@ }),
    {
        self.volume = volume
    }

    /// Advances the tone divider one sample and returns the channel's level, given the
    /// noise signal of that sample.
    pub fn update(&mut self, noise: Output) -> (r: u8)
        requires
            old(self).wf(old(self).generator.clock(), old(self).generator.sample()),
            !noise.has_tone(),
        ensures
            final(self).wf(old(self).generator.clock(), old(self).generator.sample()),
            final(self).generator.clock_rate == old(self).generator.clock_rate,
            final(self).generator.sample_rate_x8 == old(self).generator.sample_rate_x8,
            final(self)@ == old(self)@.advance(old(self).generator.clock(), old(self).generator.sample()),
            r == old(self)@.next_level(old(self).generator.clock(), old(self).generator.sample(), noise.has_noise()),
            r < VOLUME_LIMIT,
    {
        let tone = self.generator.update();
        channel_level(self.mode, self.volume, tone, noise)
    }
}

} // verus!
