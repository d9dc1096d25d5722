//! Per-sample PCM synthesis in the manner of a three-channel square-wave sound chip
//! with one shared noise source.
//!
//! A [`SoundGenerator`] holds three channels and one noise divider. Each channel has a
//! tone divider driven by a 12-bit period, a 4-bit volume and a mode ([`Output`]) that
//! says which of the tone and noise signals gate it. Every call of
//! [`SoundGenerator::next_sample`] advances the noise divider once, then each channel
//! once, and sums the channels' levels through a volume table into one sample.

mod output;
mod tone;
mod noise;
mod channel;
mod generator;
mod laws;

pub use output::Output;
pub use tone::{tone_period_min, tone_source, ToneModel, TONE_PERIOD_LIMIT};
pub use noise::{lfsr_next, noise_bit, noise_period_min, noise_source, NoiseModel, NOISE_PERIOD_LIMIT};
pub use channel::{channel_level, gate, level_of, ChannelModel, VOLUME_LIMIT};
pub use generator::{
    mix_i16, volume_entry, volume_i16, volume_table, GeneratorModel, OutputSample, SoundGenerator, CHANNELS,
    I16_DIVISOR,
};
pub use laws::{
    lemma_full_rate_alternates, lemma_gate_truth_table, lemma_levels_in_range, lemma_mix_fits_i16,
    lemma_none_is_silent, lemma_period_zero_clamps, lemma_tone_period_floor, lemma_tone_rate,
    lemma_volume_i16_bounds,
};
