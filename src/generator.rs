use vstd::prelude::*;
use crate::channel::{Channel, ChannelModel, VOLUME_LIMIT};
use crate::noise::{noise_bit, NoiseGenerator, NoiseModel, NOISE_PERIOD_LIMIT};
use crate::output::Output;
use crate::tone::TONE_PERIOD_LIMIT;

verus! {

/// Number of square-wave channels.
pub const CHANNELS: usize = 3;

/// Divisor applied to the volume table for signed 16-bit samples.
pub const I16_DIVISOR: u16 = 2;

/// Contribution of each volume level before the per-format divisor: steps of about
/// a fourth root of four, with three channels at full volume filling the 16-bit range.
pub open spec fn volume_table() -> Seq<int> {
    seq![0, 170, 241, 341, 482, 682, 965, 1365, 1930, 2730, 3861, 5461, 7723, 10922, 15446, 21845]
}

/// The signed 16-bit contribution of a volume level.
pub open spec fn volume_i16(level: int) -> int {
    volume_table()[level] / I16_DIVISOR as int
}

/// The signed 16-bit sample for the levels of the three channels.
pub open spec fn mix_i16(levels: Seq<int>) -> int {
    volume_i16(levels[0]) + volume_i16(levels[1]) + volume_i16(levels[2])
}

/// Abstract state of the whole generator.
pub struct GeneratorModel {
    /// The clock rate in Hz.
    pub clock_rate: int,
    /// The sample rate in Hz.
    pub sample_rate: int,
    /// The three channels, in order.
    pub channels: Seq<ChannelModel>,
    /// The shared noise divider.
    pub noise: NoiseModel,
}

impl GeneratorModel {
    /// Rates in range, three channels, volumes as 4-bit levels.
    pub open spec fn wf(self) -> bool {
        &&& 0 <= self.clock_rate <= u32::MAX
        &&& 0 < self.sample_rate <= u32::MAX
        &&& self.channels.len() == CHANNELS
        &&& forall|i: int| 0 <= i < CHANNELS ==> 0 <= #[trigger] self.channels[i].volume < VOLUME_LIMIT
    }

    /// A generator just built: every channel silent at the minimum period.
    pub open spec fn initial(clock_rate: int, sample_rate: int) -> GeneratorModel {
        GeneratorModel {
            clock_rate,
            sample_rate,
            channels: Seq::new(CHANNELS as nat, |i: int| ChannelModel::initial(clock_rate, sample_rate)),
            noise: NoiseModel::initial(clock_rate, sample_rate),
        }
    }

    /// The generator with channel `ch` replaced.
    pub open spec fn with_channel(self, ch: int, c: ChannelModel) -> GeneratorModel {
        GeneratorModel { channels: self.channels.update(ch, c), ..self }
    }

    /// The generator after the tone period of channel `ch` was written.
    pub open spec fn with_period(self, ch: int, period: int) -> GeneratorModel {
        self.with_channel(ch, ChannelModel {
            tone: self.channels[ch].tone.with_period(self.clock_rate, self.sample_rate, period),
            ..self.channels[ch]
        })
    }

    /// The generator after the volume of channel `ch` was set.
    pub open spec fn with_volume(self, ch: int, volume: int) -> GeneratorModel {
        self.with_channel(ch, ChannelModel { volume, ..self.channels[ch] })
    }

    /// The generator after the mode of channel `ch` was set.
    pub open spec fn with_mode(self, ch: int, mode: Output) -> GeneratorModel {
        self.with_channel(ch, ChannelModel { mode, ..self.channels[ch] })
    }

    /// The generator after the noise period was written.
    pub open spec fn with_noise_period(self, period: int) -> GeneratorModel {
        GeneratorModel { noise: self.noise.with_period(self.clock_rate, self.sample_rate, period), ..self }
    }

    /// The noise flag of the next sample.
    pub open spec fn next_noise(self) -> bool {
        noise_bit(self.noise.advance(self.clock_rate, self.sample_rate).shift)
    }

    /// The level each channel contributes to the next sample.
    pub open spec fn levels(self) -> Seq<int> {
        Seq::new(CHANNELS as nat, |i: int| self.channels[i].next_level(self.clock_rate, self.sample_rate, self.next_noise()))
    }

    /// The generator after one sample: the noise divider and every channel advance once.
    pub open spec fn advance(self) -> GeneratorModel {
        GeneratorModel {
            channels: Seq::new(CHANNELS as nat, |i: int| self.channels[i].advance(self.clock_rate, self.sample_rate)),
            noise: self.noise.advance(self.clock_rate, self.sample_rate),
            ..self
        }
    }
}

/// Generates waveforms for a three-channel tone-and-noise sound chip.
pub struct SoundGenerator {
    clock_rate: u32,
    sample_rate: u32,
    channels: [Channel; CHANNELS],
    noise: NoiseGenerator,
}

impl View for SoundGenerator {
    type V = GeneratorModel;

    closed spec fn view(&self) -> GeneratorModel {
        GeneratorModel {
            clock_rate: self.clock_rate as int,
            sample_rate: self.sample_rate as int,
            channels: self.channels@.map_values(|c: Channel| c@),
            noise: self.noise@,
        }
    }
}

impl SoundGenerator {
    /// Every divider agrees with the generator's rates.
    pub closed spec fn wf(&self) -> bool {
        &&& self.sample_rate > 0
        &&& forall|i: int| 0 <= i < CHANNELS ==> #[trigger] self.channels@[i].wf(self.clock_rate as int, self.sample_rate as int)
        &&& self.noise.wf(self.clock_rate as int, self.sample_rate as int)
    }

    /// Replacing one channel by a well-formed one keeps the generator well formed.
    proof fn lemma_channels_kept(&self, prev: SoundGenerator, ch: int)
        requires
            prev.wf(),
            0 <= ch < CHANNELS,
            self.clock_rate == prev.clock_rate,
            self.sample_rate == prev.sample_rate,
            self.noise == prev.noise,
            self.channels@ == prev.channels@.update(ch, self.channels@[ch]),
            self.channels@[ch].wf(self.clock_rate as int, self.sample_rate as int),
        ensures
            self.wf(),
    {
        assert forall|i: int| 0 <= i < CHANNELS implies #[trigger] self.channels@[i].wf(self.clock_rate as int, self.sample_rate as int) by {
            if i != ch {
                assert(prev.channels@[i].wf(prev.clock_rate as int, prev.sample_rate as int));
            }
        }
    }

    /// Advances channel `channel` one sample and returns its level, given the noise signal.
    fn update_channel(&mut self, channel: usize, noise: Output) -> (r: u8)
        requires
            old(self).wf(),
            channel < CHANNELS,
            !noise.has_tone(),
        ensures
            final(self).wf(),
            final(self).clock_rate == old(self).clock_rate,
            final(self).sample_rate == old(self).sample_rate,
            final(self).noise == old(self).noise,
            final(self)@.channels == old(self)@.channels.update(
                channel as int,
                old(self)@.channels[channel as int].advance(old(self).clock_rate as int, old(self).sample_rate as int),
            ),
            r == old(self)@.channels[channel as int].next_level(old(self).clock_rate as int, old(self).sample_rate as int, noise.has_noise()),
            r < VOLUME_LIMIT,
    {
        proof {
            assert(self.channels@[channel as int].wf(self.clock_rate as int, self.sample_rate as int));
        }
        let mut ch = self.channels[channel];
        let r = ch.update(noise);
        self.channels[channel] = ch;
        proof {
            self.lemma_channels_kept(*old(self), channel as int);
            assert(self@.channels =~= old(self)@.channels.update(
                channel as int,
                old(self)@.channels[channel as int].advance(old(self).clock_rate as int, old(self).sample_rate as int),
            ));
        }
        r
    }

    /// Advances the generator one sample and returns the level (0 to 15) that each channel
    /// contributes to it, in channel order.
    pub fn next_levels(&mut self) -> (r: [u8; CHANNELS])
        requires
            old(self).wf(),
        ensures
            final(self).wf(),
            final(self)@ == old(self)@.advance(),
            forall|i: int| 0 <= i < CHANNELS ==> #[trigger] r@[i] == old(self)@.levels()[i],
            forall|i: int| 0 <= i < CHANNELS ==> #[trigger] r@[i] < VOLUME_LIMIT,
    {
        let noise = self.noise.update();
        let a = self.update_channel(0, noise);
        let b = self.update_channel(1, noise);
        let c = self.update_channel(2, noise);
        proof {
            assert(self@.channels =~= old(self)@.advance().channels);
        }
        let r = [a, b, c];
        assert(r@[0] == a && r@[1] == b && r@[2] == c);
        r
    }

    /// Advances the generator one sample and returns the mixed value in format `T`.
    pub fn next_sample<T: OutputSample<T>>(&mut self) -> (r: T)
        requires
            old(self).wf(),
        ensures
            final(self).wf(),
            final(self)@ == old(self)@.advance(),
            r == T::mix(old(self)@.levels()),
    {
        T::next_sample(self)
    }

    /// A well-formed generator has a well-formed model.
    pub proof fn lemma_wf_model(&self)
        requires
            self.wf(),
        ensures
            self@.wf(),
    {
        assert forall|i: int| 0 <= i < CHANNELS implies 0 <= #[trigger] self@.channels[i].volume < VOLUME_LIMIT by {
            assert(self.channels@[i].wf(self.clock_rate as int, self.sample_rate as int));
        }
    }

    /// Creates a generator for the given clock rate and sample rate, in Hz. All three channels
    /// start silent (volume 0, mode `NONE`) at the minimum period.
    pub fn new(clock_rate: u32, sample_rate: u32) -> (r: SoundGenerator)
        requires
            sample_rate > 0,
        ensures
            r.wf(),
            r@ == GeneratorModel::initial(clock_rate as int, sample_rate as int),
    {
        let r = SoundGenerator {
            clock_rate,
            sample_rate,
            channels: [Channel::new(clock_rate, sample_rate), Channel::new(clock_rate, sample_rate), Channel::new(clock_rate, sample_rate)],
            noise: NoiseGenerator::new(clock_rate, sample_rate),
        };
        assert(r@.channels =~= GeneratorModel::initial(clock_rate as int, sample_rate as int).channels);
        r
    }

    /// The clock rate in Hz.
    pub fn clock_rate(&self) -> (r: u32)
        ensures
            r == self@.clock_rate,
    {
        self.clock_rate
    }

    /// The sample rate in Hz.
    pub fn sample_rate(&self) -> (r: u32)
        ensures
            r == self@.sample_rate,
    {
        self.sample_rate
    }

    /// Sets the tone period of `channel` (0 to 2) to `period` (0 to 4095). A period under the
    /// minimum that the rates allow is raised to that minimum.
    pub fn set_period(&mut self, channel: usize, period: u16)
        requires
            old(self).wf(),
            channel < CHANNELS,
            period < TONE_PERIOD_LIMIT,
        ensures
            final(self).wf(),
            final(self)@ == old(self)@.with_period(channel as int, period as int),
    {
        proof {
            assert(self.channels@[channel as int].wf(self.clock_rate as int, self.sample_rate as int));
        }
        let mut ch = self.channels[channel];
        ch.set_period(period);
        self.channels[channel] = ch;
        proof {
            self.lemma_channels_kept(*old(self), channel as int);
        }
        assert(self@.channels =~= old(self)@.with_period(channel as int, period as int).channels);
    }

    /// Sets the volume of `channel` (0 to 2) to `volume` (0 to 15).
    pub fn set_volume(&mut self, channel: usize, volume: u8)
        requires
            old(self).wf(),
            channel < CHANNELS,
            volume < VOLUME_LIMIT,
        ensures
            final(self).wf(),
            final(self)@ == old(self)@.with_volume(channel as int, volume as int),
    {
        proof {
            assert(self.channels@[channel as int].wf(self.clock_rate as int, self.sample_rate as int));
        }
        let mut ch = self.channels[channel];
        ch.set_volume(volume);
        self.channels[channel] = ch;
        proof {
            self.lemma_channels_kept(*old(self), channel as int);
        }
        assert(self@.channels =~= old(self)@.with_volume(channel as int, volume as int).channels);
    }

    /// Sets the signals that gate `channel` (0 to 2).
    pub fn set_mode(&mut self, channel: usize, mode: Output)
        requires
            old(self).wf(),
            channel < CHANNELS,
        ensures
            final(self).wf(),
            final(self)@ == old(self)@.with_mode(channel as int, mode),
    {
        proof {
            assert(self.channels@[channel as int].wf(self.clock_rate as int, self.sample_rate as int));
        }
        let mut ch = self.channels[channel];
        ch.set_mode(mode);
        self.channels[channel] = ch;
        proof {
            self.lemma_channels_kept(*old(self), channel as int);
        }
        assert(self@.channels =~= old(self)@.with_mode(channel as int, mode).channels);
    }

    /// Sets the noise period to `period` (0 to 31). A period under the minimum that the rates
    /// allow is raised to that minimum.
    pub fn set_noise_period(&mut self, period: u8)
        requires
            old(self).wf(),
            period < NOISE_PERIOD_LIMIT,
        ensures
            final(self).wf(),
            final(self)@ == old(self)@.with_noise_period(period as int),
    {
        self.noise.set_period(period)
    }
}

/// The contribution of a volume level (0 to 15) before the per-format divisor.
pub fn volume_entry(level: u8) -> (r: u16)
    requires
        level < VOLUME_LIMIT,
    ensures
        r == volume_table()[level as int],
{
    match level {
        0 => 0,
        1 => 170,
        2 => 241,
        3 => 341,
        4 => 482,
        5 => 682,
        6 => 965,
        7 => 1365,
        8 => 1930,
        9 => 2730,
        10 => 3861,
        11 => 5461,
        12 => 7723,
        13 => 10922,
        14 => 15446,
        _ => 21845,
    }
}

/// The signed 16-bit contribution of a volume level.
fn volume_entry_i16(level: u8) -> (r: i16)
    requires
        level < VOLUME_LIMIT,
    ensures
        r == volume_i16(level as int),
        0 <= r <= 10922,
{
    (volume_entry(level) / I16_DIVISOR) as i16
}

/// A numeric sample format that a generator can produce.
pub trait OutputSample<T>: Sized {
    /// The sample value for the given levels of the three channels.
    spec fn mix(levels: Seq<int>) -> T;

    /// Advances the generator one sample and returns the three channels mixed.
    fn next_sample(sg: &mut SoundGenerator) -> (r: T)
        requires
            old(sg).wf(),
        ensures
            final(sg).wf(),
            final(sg)@ == old(sg)@.advance(),
            r == Self::mix(old(sg)@.levels()),
    ;
}

impl OutputSample<i16> for i16 {
    open spec fn mix(levels: Seq<int>) -> i16 {
        mix_i16(levels) as i16
    }

    fn next_sample(sg: &mut SoundGenerator) -> (r: i16) {
        let levels = sg.next_levels();
        volume_entry_i16(levels[0]) + volume_entry_i16(levels[1]) + volume_entry_i16(levels[2])
    }
}

} // verus!
