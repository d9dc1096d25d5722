use vstd::prelude::*;

verus! {

/// The signals that gate a channel: a set over the two flags `TONE` and `NOISE`.
///
/// `NONE` is the empty set and `TONE_NOISE` holds both flags.
#[allow(non_camel_case_types)]
#[derive(Clone, Copy, Debug, PartialEq, Eq, Structural)]
pub enum Output {
    /// No flag set.
    NONE,
    /// The tone flag.
    TONE,
    /// The noise flag.
    NOISE,
    /// Both the tone and the noise flag.
    TONE_NOISE,
}

impl Output {
    /// Whether the tone flag is in the set.
    pub open spec fn has_tone(self) -> bool {
        self == Output::TONE || self == Output::TONE_NOISE
    }

    /// Whether the noise flag is in the set.
    pub open spec fn has_noise(self) -> bool {
        self == Output::NOISE || self == Output::TONE_NOISE
    }

    /// The set holding exactly the given flags.
    pub open spec fn spec_from_flags(tone: bool, noise: bool) -> Output {
        if tone && noise {
            Output::TONE_NOISE
        } else if tone {
            Output::TONE
        } else if noise {
            Output::NOISE
        } else {
            Output::NONE
        }
    }

    /// The register value of the set: bit 0 is tone, bit 1 is noise.
    pub open spec fn spec_bits(self) -> u8 {
        match self {
            Output::NONE => 0,
            Output::TONE => 1,
            Output::NOISE => 2,
            Output::TONE_NOISE => 3,
        }
    }

    /// Every flag of `other` is in `self`.
    pub open spec fn spec_contains(self, other: Output) -> bool {
        (other.has_tone() ==> self.has_tone()) && (other.has_noise() ==> self.has_noise())
    }

    /// Builds the set holding exactly the given flags.
    pub fn from_flags(tone: bool, noise: bool) -> (r: Output)
        ensures
            r == Output::spec_from_flags(tone, noise),
            r.has_tone() == tone,
            r.has_noise() == noise,
    {
        if tone && noise {
            Output::TONE_NOISE
        } else if tone {
            Output::TONE
        } else if noise {
            Output::NOISE
        } else {
            Output::NONE
        }
    }

    /// The register value of the set: bit 0 is tone, bit 1 is noise.
    pub fn bits(self) -> (r: u8)
        ensures
            r == self.spec_bits(),
            r < 4,
    {
        match self {
            Output::NONE => 0,
            Output::TONE => 1,
            Output::NOISE => 2,
            Output::TONE_NOISE => 3,
        }
    }

    /// The union of two sets.
    pub fn union(self, other: Output) -> (r: Output)
        ensures
            r.has_tone() == (self.has_tone() || other.has_tone()),
            r.has_noise() == (self.has_noise() || other.has_noise()),
    {
        let tone = matches!(self, Output::TONE | Output::TONE_NOISE) || matches!(other, Output::TONE | Output::TONE_NOISE);
        let noise = matches!(self, Output::NOISE | Output::TONE_NOISE) || matches!(other, Output::NOISE | Output::TONE_NOISE);
        Output::from_flags(tone, noise)
    }

    /// Whether every flag of `other` is also in `self` (always true when `other` is `NONE`).
    pub fn contains(self, other: Output) -> (r: bool)
        ensures
            r == self.spec_contains(other),
    {
        let tone_ok = !matches!(other, Output::TONE | Output::TONE_NOISE) || matches!(self, Output::TONE | Output::TONE_NOISE);
        let noise_ok = !matches!(other, Output::NOISE | Output::TONE_NOISE) || matches!(self, Output::NOISE | Output::TONE_NOISE);
        tone_ok && noise_ok
    }
}

} // verus!
