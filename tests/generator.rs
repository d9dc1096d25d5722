use psg_lite::{channel_level, volume_entry, Output, SoundGenerator};

fn samples(generator: &mut SoundGenerator, n: usize) -> Vec<i16> {
    let mut out = Vec::new();
    for _ in 0..n {
        out.push(generator.next_sample::<i16>());
    }
    out
}

fn levels_to_bits(samples: &[i16]) -> String {
    samples.iter().map(|&v| if v != 0 { '1' } else { '0' }).collect()
}

#[test]
fn test() {
    const CLOCK_RATE: u32 = 2_000_0000;
    const SAMPLE_RATE: u32 = CLOCK_RATE / 8;
    let mut generator = SoundGenerator::new(CLOCK_RATE, SAMPLE_RATE);

    generator.set_mode(0, Output::TONE);
    generator.set_volume(0, 15);
    generator.set_period(0, 1);

    // dummy
    generator.next_sample::<i16>();

    let mut zero = 0_usize;
    let mut non_zero = 0_usize;

    (0..SAMPLE_RATE).for_each(|_| {
        let v: i16 = generator.next_sample();
        if v != 0 {
            non_zero += 1;
        } else {
            zero += 1;
        }
    });
    assert_eq!(zero, non_zero);
}

#[test]
fn accessors_return_construction_rates() {
    let generator = SoundGenerator::new(2_000_000, 48_000);
    assert_eq!(generator.clock_rate(), 2_000_000);
    assert_eq!(generator.sample_rate(), 48_000);
}

#[test]
fn new_generator_is_silent() {
    let mut generator = SoundGenerator::new(2_000_000, 48_000);
    assert!(samples(&mut generator, 256).iter().all(|&v| v == 0));
}

#[test]
fn three_channels_at_full_volume_fit_i16() {
    let mut generator = SoundGenerator::new(2_000_000, 48_000);
    for ch in 0..3 {
        generator.set_mode(ch, Output::TONE_NOISE);
        generator.set_volume(ch, 15);
    }
    let out = samples(&mut generator, 12);
    assert_eq!(out, vec![32766; 12]);
    assert!(3 * (21845 / 2) <= i16::MAX as i32);
}

#[test]
fn volume_table_values_per_level() {
    let expected = [0, 170, 241, 341, 482, 682, 965, 1365, 1930, 2730, 3861, 5461, 7723, 10922, 15446, 21845];
    for level in 0..16u8 {
        let mut generator = SoundGenerator::new(2_000_000, 250_000);
        generator.set_mode(2, Output::TONE);
        generator.set_volume(2, level);
        // The first sample never flips the tone flag, so the channel sounds.
        let v: i16 = generator.next_sample();
        assert_eq!(v as i32, expected[level as usize] / 2);
    }
}

#[test]
fn mode_none_is_silent_at_any_volume() {
    let mut generator = SoundGenerator::new(1_789_772, 44_100);
    generator.set_mode(1, Output::NONE);
    generator.set_volume(1, 15);
    generator.set_period(1, 100);
    generator.set_noise_period(5);
    assert!(samples(&mut generator, 1000).iter().all(|&v| v == 0));
}

#[test]
fn pure_tone_has_half_duty_cycle() {
    let mut generator = SoundGenerator::new(2_000_000, 250_000);
    generator.set_mode(0, Output::TONE);
    generator.set_volume(0, 15);
    generator.set_period(0, 50);
    let out = samples(&mut generator, 250_000);
    let non_zero = out.iter().filter(|&&v| v != 0).count();
    assert!((non_zero as i64 - 125_000).abs() <= 1);
}

#[test]
fn tone_period_zero_runs_at_minimum() {
    // At these rates the minimum tone period is 1.
    let run = |period: u16| {
        let mut generator = SoundGenerator::new(2_000_000, 250_000);
        generator.set_mode(0, Output::TONE);
        generator.set_volume(0, 15);
        generator.set_period(0, period);
        samples(&mut generator, 64)
    };
    assert_eq!(run(0), run(1));
    assert_ne!(run(1), run(2));
    assert_eq!(&run(0)[..4], &[10922, 0, 10922, 0]);
    assert_eq!(&run(2)[..8], &[10922, 0, 0, 10922, 10922, 0, 0, 10922]);
}

#[test]
fn noise_period_zero_runs_at_minimum() {
    // At these rates the minimum noise period is 2.
    let run = |period: u8| {
        let mut generator = SoundGenerator::new(2_000_000, 48_000);
        generator.set_mode(1, Output::NOISE);
        generator.set_volume(1, 15);
        generator.set_noise_period(period);
        samples(&mut generator, 24)
    };
    assert_eq!(run(0), run(2));
    assert_eq!(run(1), run(2));
    assert_ne!(run(2), run(3));
    assert_eq!(run(0)[18], 0);
    assert_eq!(run(3)[18], 10922);
}

#[test]
fn minimum_period_at_ntsc_clock_toggles_once_per_sample() {
    // clock 1,789,772 Hz and 44,100 Hz give a minimum tone period of 3; at that period
    // the divider flips on every sample and never more often.
    let mut generator = SoundGenerator::new(1_789_772, 44_100);
    generator.set_mode(0, Output::TONE);
    generator.set_volume(0, 15);
    generator.set_period(0, 0);
    let out = samples(&mut generator, 400);
    for (i, v) in out.iter().enumerate() {
        assert_eq!(*v, if i % 2 == 0 { 10922 } else { 0 });
    }
}

#[test]
fn combined_mode_truth_table() {
    let tone = [Output::NONE, Output::TONE, Output::NONE, Output::TONE];
    let noise = [Output::NONE, Output::NONE, Output::NOISE, Output::NOISE];
    let got: Vec<u8> = (0..4).map(|i| channel_level(Output::TONE_NOISE, 15, tone[i], noise[i])).collect();
    assert_eq!(got, vec![15, 15, 15, 0]);
}

#[test]
fn single_mode_truth_table() {
    for (t, n) in [(false, false), (true, false), (false, true), (true, true)] {
        let tone = Output::from_flags(t, false);
        let noise = Output::from_flags(false, n);
        assert_eq!(channel_level(Output::NONE, 9, tone, noise), 0);
        assert_eq!(channel_level(Output::TONE, 9, tone, noise), if t { 0 } else { 9 });
        assert_eq!(channel_level(Output::NOISE, 9, tone, noise), if n { 0 } else { 9 });
    }
}

#[test]
fn noise_golden_vector() {
    let mut generator = SoundGenerator::new(1_789_772, 44_100);
    generator.set_mode(0, Output::NOISE);
    generator.set_volume(0, 15);
    let out = samples(&mut generator, 64);
    assert_eq!(
        levels_to_bits(&out),
        "0111111111111111110111111111111111011011111111111011111101111111"
    );
    let mut again = SoundGenerator::new(1_789_772, 44_100);
    again.set_mode(0, Output::NOISE);
    again.set_volume(0, 15);
    assert_eq!(samples(&mut again, 64), out);
}

#[test]
fn output_flag_operations() {
    assert_eq!(Output::NONE.bits(), 0);
    assert_eq!(Output::TONE.bits(), 1);
    assert_eq!(Output::NOISE.bits(), 2);
    assert_eq!(Output::TONE.union(Output::NOISE), Output::TONE_NOISE);
    assert_eq!(Output::TONE.union(Output::NONE), Output::TONE);
    assert!(Output::TONE_NOISE.contains(Output::TONE));
    assert!(Output::NONE.contains(Output::NONE));
    assert!(!Output::TONE.contains(Output::NOISE));
    assert_eq!(Output::from_flags(true, true), Output::TONE_NOISE);
}

#[test]
fn next_levels_reports_each_channel() {
    let mut generator = SoundGenerator::new(2_000_000, 250_000);
    generator.set_mode(0, Output::TONE);
    generator.set_volume(0, 15);
    generator.set_mode(1, Output::NONE);
    generator.set_volume(1, 7);
    generator.set_mode(2, Output::TONE);
    generator.set_volume(2, 4);
    assert_eq!(generator.next_levels(), [15, 0, 4]);
    assert_eq!(generator.next_levels(), [0, 0, 0]);
}

#[test]
fn volume_entry_raw_values() {
    assert_eq!(volume_entry(0), 0);
    assert_eq!(volume_entry(1), 170);
    assert_eq!(volume_entry(8), 1930);
    assert_eq!(volume_entry(15), 21845);
}
