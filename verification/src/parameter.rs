//! Voice parameters, each confined to the closed range 0..=100, and the
//! named presets that fix all five at once.
//!
//! The five kinds share one representation and one range, yet each is a type
//! of its own: a speed cannot be handed in where a volume is expected.

use vstd::prelude::*;

verus! {

/// Highest level any voice parameter can take.
pub const MAX_LEVEL: u8 = 100;

/// Whether `raw` lies in the range every voice parameter is confined to.
pub open spec fn level_in_range(raw: int) -> bool {
    0 <= raw <= 100
}

/// Whether the level `raw`, as the host reports levels, lies in the range
/// every voice parameter is confined to.
pub fn is_level(raw: u32) -> (valid: bool)
    ensures
        valid == level_in_range(raw as int),
{
    raw <= 100
}

/// Loudness of the voice.
#[derive(Clone, Copy, Debug, PartialEq, Eq, Structural, PartialOrd, Ord, Hash)]
pub struct Volume {
    level: u8,
}

impl View for Volume {
    type V = nat;

    closed spec fn view(&self) -> nat {
        self.level as nat
    }
}

impl Volume {
    #[verifier::type_invariant]
    spec fn in_range(self) -> bool {
        self.level <= MAX_LEVEL
    }

    /// A volume of `raw`, or nothing when `raw` exceeds 100.
    pub fn new(raw: u8) -> (made: Option<Self>)
        ensures
            made is Some <==> level_in_range(raw as int),
            made matches Some(v) ==> v@ == raw,
    {
        if raw <= MAX_LEVEL {
            Some(Volume { level: raw })
        } else {
            None
        }
    }

    /// The level this volume was made from.
    pub fn get(self) -> (raw: u8)
        ensures
            raw == self@,
            level_in_range(raw as int),
    {
        proof {
            use_type_invariant(&self);
        }
        self.level
    }

    /// Two values of the same level are the same value.
    pub proof fn lemma_same_level(a: Self, b: Self)
        requires
            a@ == b@,
        ensures
            a == b,
    {
    }
}

/// Speaking rate.
#[derive(Clone, Copy, Debug, PartialEq, Eq, Structural, PartialOrd, Ord, Hash)]
pub struct Speed {
    level: u8,
}

impl View for Speed {
    type V = nat;

    closed spec fn view(&self) -> nat {
        self.level as nat
    }
}

impl Speed {
    #[verifier::type_invariant]
    spec fn in_range(self) -> bool {
        self.level <= MAX_LEVEL
    }

    /// A speed of `raw`, or nothing when `raw` exceeds 100.
    pub fn new(raw: u8) -> (made: Option<Self>)
        ensures
            made is Some <==> level_in_range(raw as int),
            made matches Some(v) ==> v@ == raw,
    {
        if raw <= MAX_LEVEL {
            Some(Speed { level: raw })
        } else {
            None
        }
    }

    /// The level this speed was made from.
    pub fn get(self) -> (raw: u8)
        ensures
            raw == self@,
            level_in_range(raw as int),
    {
        proof {
            use_type_invariant(&self);
        }
        self.level
    }

    /// Two values of the same level are the same value.
    pub proof fn lemma_same_level(a: Self, b: Self)
        requires
            a@ == b@,
        ensures
            a == b,
    {
    }
}

/// Pitch of the voice.
#[derive(Clone, Copy, Debug, PartialEq, Eq, Structural, PartialOrd, Ord, Hash)]
pub struct Tone {
    level: u8,
}

impl View for Tone {
    type V = nat;

    closed spec fn view(&self) -> nat {
        self.level as nat
    }
}

impl Tone {
    #[verifier::type_invariant]
    spec fn in_range(self) -> bool {
        self.level <= MAX_LEVEL
    }

    /// A tone of `raw`, or nothing when `raw` exceeds 100.
    pub fn new(raw: u8) -> (made: Option<Self>)
        ensures
            made is Some <==> level_in_range(raw as int),
            made matches Some(v) ==> v@ == raw,
    {
        if raw <= MAX_LEVEL {
            Some(Tone { level: raw })
        } else {
            None
        }
    }

    /// The level this tone was made from.
    pub fn get(self) -> (raw: u8)
        ensures
            raw == self@,
            level_in_range(raw as int),
    {
        proof {
            use_type_invariant(&self);
        }
        self.level
    }

    /// Two values of the same level are the same value.
    pub proof fn lemma_same_level(a: Self, b: Self)
        requires
            a@ == b@,
        ensures
            a == b,
    {
    }
}

/// Intonation, the width of the pitch movement.
#[derive(Clone, Copy, Debug, PartialEq, Eq, Structural, PartialOrd, Ord, Hash)]
pub struct ToneScale {
    level: u8,
}

impl View for ToneScale {
    type V = nat;

    closed spec fn view(&self) -> nat {
        self.level as nat
    }
}

impl ToneScale {
    #[verifier::type_invariant]
    spec fn in_range(self) -> bool {
        self.level <= MAX_LEVEL
    }

    /// A tone scale of `raw`, or nothing when `raw` exceeds 100.
    pub fn new(raw: u8) -> (made: Option<Self>)
        ensures
            made is Some <==> level_in_range(raw as int),
            made matches Some(v) ==> v@ == raw,
    {
        if raw <= MAX_LEVEL {
            Some(ToneScale { level: raw })
        } else {
            None
        }
    }

    /// The level this tone scale was made from.
    pub fn get(self) -> (raw: u8)
        ensures
            raw == self@,
            level_in_range(raw as int),
    {
        proof {
            use_type_invariant(&self);
        }
        self.level
    }

    /// Two values of the same level are the same value.
    pub proof fn lemma_same_level(a: Self, b: Self)
        requires
            a@ == b@,
        ensures
            a == b,
    {
    }
}

/// Voice quality.
#[derive(Clone, Copy, Debug, PartialEq, Eq, Structural, PartialOrd, Ord, Hash)]
pub struct Alpha {
    level: u8,
}

impl View for Alpha {
    type V = nat;

    closed spec fn view(&self) -> nat {
        self.level as nat
    }
}

impl Alpha {
    #[verifier::type_invariant]
    spec fn in_range(self) -> bool {
        self.level <= MAX_LEVEL
    }

    /// An alpha of `raw`, or nothing when `raw` exceeds 100.
    pub fn new(raw: u8) -> (made: Option<Self>)
        ensures
            made is Some <==> level_in_range(raw as int),
            made matches Some(v) ==> v@ == raw,
    {
        if raw <= MAX_LEVEL {
            Some(Alpha { level: raw })
        } else {
            None
        }
    }

    /// The level this alpha was made from.
    pub fn get(self) -> (raw: u8)
        ensures
            raw == self@,
            level_in_range(raw as int),
    {
        proof {
            use_type_invariant(&self);
        }
        self.level
    }

    /// Two values of the same level are the same value.
    pub proof fn lemma_same_level(a: Self, b: Self)
        requires
            a@ == b@,
        ensures
            a == b,
    {
    }
}

/// A named choice of all five voice parameters.
#[derive(Clone, Copy, Debug, PartialEq, Eq, Structural)]
pub enum VoicePreset {
    /// Every parameter at the middle of its range.
    Normal,
    /// Faster speech.
    Fast,
    /// Slower speech.
    Slow,
    /// Higher pitch.
    HighPitch,
    /// Lower pitch.
    LowPitch,
    /// Louder, faster, higher and livelier than `Normal`.
    Energetic,
    /// Quieter, slower, lower and flatter than `Normal`.
    Calm,
}

impl VoicePreset {
    /// The levels of volume, speed, tone, tone scale and alpha, in that
    /// order, that the preset stands for.
    pub open spec fn levels(self) -> (nat, nat, nat, nat, nat) {
        match self {
            VoicePreset::Normal => (50, 50, 50, 50, 50),
            VoicePreset::Fast => (50, 75, 50, 50, 50),
            VoicePreset::Slow => (50, 25, 50, 50, 50),
            VoicePreset::HighPitch => (50, 50, 75, 50, 50),
            VoicePreset::LowPitch => (50, 50, 25, 50, 50),
            VoicePreset::Energetic => (70, 60, 60, 60, 50),
            VoicePreset::Calm => (40, 40, 40, 40, 50),
        }
    }

    /// The five parameters of the preset.
    #[must_use]
    pub fn to_parameters(self) -> (p: (Volume, Speed, Tone, ToneScale, Alpha))
        ensures
            (p.0@, p.1@, p.2@, p.3@, p.4@) == self.levels(),
    {
        match self {
            VoicePreset::Normal => (
                Volume::new(50).unwrap(),
                Speed::new(50).unwrap(),
                Tone::new(50).unwrap(),
                ToneScale::new(50).unwrap(),
                Alpha::new(50).unwrap(),
            ),
            VoicePreset::Fast => (
                Volume::new(50).unwrap(),
                Speed::new(75).unwrap(),
                Tone::new(50).unwrap(),
                ToneScale::new(50).unwrap(),
                Alpha::new(50).unwrap(),
            ),
            VoicePreset::Slow => (
                Volume::new(50).unwrap(),
                Speed::new(25).unwrap(),
                Tone::new(50).unwrap(),
                ToneScale::new(50).unwrap(),
                Alpha::new(50).unwrap(),
            ),
            VoicePreset::HighPitch => (
                Volume::new(50).unwrap(),
                Speed::new(50).unwrap(),
                Tone::new(75).unwrap(),
                ToneScale::new(50).unwrap(),
                Alpha::new(50).unwrap(),
            ),
            VoicePreset::LowPitch => (
                Volume::new(50).unwrap(),
                Speed::new(50).unwrap(),
                Tone::new(25).unwrap(),
                ToneScale::new(50).unwrap(),
                Alpha::new(50).unwrap(),
            ),
            VoicePreset::Energetic => (
                Volume::new(70).unwrap(),
                Speed::new(60).unwrap(),
                Tone::new(60).unwrap(),
                ToneScale::new(60).unwrap(),
                Alpha::new(50).unwrap(),
            ),
            VoicePreset::Calm => (
                Volume::new(40).unwrap(),
                Speed::new(40).unwrap(),
                Tone::new(40).unwrap(),
                ToneScale::new(40).unwrap(),
                Alpha::new(50).unwrap(),
            ),
        }
    }

    /// Every level a preset names is one a voice parameter can take.
    pub proof fn lemma_levels_in_range(self)
        ensures
            level_in_range(self.levels().0 as int),
            level_in_range(self.levels().1 as int),
            level_in_range(self.levels().2 as int),
            level_in_range(self.levels().3 as int),
            level_in_range(self.levels().4 as int),
    {
    }
}

} // verus!
