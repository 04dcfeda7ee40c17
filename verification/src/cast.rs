//! Cast configurations: a voice and the levels of its five parameters, each
//! of them optional, and the builder that puts one together.

use vstd::prelude::*;
use crate::error::CastBuilderError;
use crate::parameter::{Alpha, Speed, Tone, ToneScale, VoicePreset, Volume};

verus! {

/// What a cast configuration says: the name of the voice and the level of
/// each parameter, where it names one.
pub struct CastView {
    pub cast: Option<Seq<char>>,
    pub volume: Option<nat>,
    pub speed: Option<nat>,
    pub tone: Option<nat>,
    pub tone_scale: Option<nat>,
    pub alpha: Option<nat>,
}

impl CastView {
    /// The configuration that says nothing.
    pub open spec fn empty() -> CastView {
        CastView {
            cast: None,
            volume: None,
            speed: None,
            tone: None,
            tone_scale: None,
            alpha: None,
        }
    }

    /// This configuration with all five levels set as given.
    pub open spec fn with_levels(self, levels: (nat, nat, nat, nat, nat)) -> CastView {
        CastView {
            cast: self.cast,
            volume: Some(levels.0),
            speed: Some(levels.1),
            tone: Some(levels.2),
            tone_scale: Some(levels.3),
            alpha: Some(levels.4),
        }
    }
}

/// The level of an optional parameter.
pub open spec fn level_of<P: View<V = nat>>(parameter: Option<P>) -> Option<nat> {
    match parameter {
        Some(p) => Some(p@),
        None => None,
    }
}

/// The characters of an optional name.
pub open spec fn name_of(name: Option<String>) -> Option<Seq<char>> {
    match name {
        Some(n) => Some(n@),
        None => None,
    }
}

/// A voice and the levels of its parameters. A field left empty stands for
/// "leave as it is".
#[derive(Clone, Debug, PartialEq, Eq)]
pub struct Cast {
    /// Name of the voice.
    pub cast: Option<String>,
    /// Loudness.
    pub volume: Option<Volume>,
    /// Speaking rate.
    pub speed: Option<Speed>,
    /// Pitch.
    pub tone: Option<Tone>,
    /// Intonation.
    pub tone_scale: Option<ToneScale>,
    /// Voice quality.
    pub alpha: Option<Alpha>,
}

impl View for Cast {
    type V = CastView;

    open spec fn view(&self) -> CastView {
        CastView {
            cast: name_of(self.cast),
            volume: level_of(self.volume),
            speed: level_of(self.speed),
            tone: level_of(self.tone),
            tone_scale: level_of(self.tone_scale),
            alpha: level_of(self.alpha),
        }
    }
}

impl Default for Cast {
    /// The configuration that says nothing.
    fn default() -> (cast: Self)
        ensures
            cast@ == CastView::empty(),
    {
        Cast { cast: None, volume: None, speed: None, tone: None, tone_scale: None, alpha: None }
    }
}

/// Collects the fields of a cast configuration one by one. A field set twice
/// keeps the later value; a field never set stays empty.
#[derive(Clone, Debug)]
pub struct CastBuilder {
    cast: Option<String>,
    volume: Option<Volume>,
    speed: Option<Speed>,
    tone: Option<Tone>,
    tone_scale: Option<ToneScale>,
    alpha: Option<Alpha>,
}

impl View for CastBuilder {
    type V = CastView;

    closed spec fn view(&self) -> CastView {
        CastView {
            cast: name_of(self.cast),
            volume: level_of(self.volume),
            speed: level_of(self.speed),
            tone: level_of(self.tone),
            tone_scale: level_of(self.tone_scale),
            alpha: level_of(self.alpha),
        }
    }
}

impl Default for CastBuilder {
    /// A builder with no field set.
    fn default() -> (builder: Self)
        ensures
            builder@ == CastView::empty(),
    {
        CastBuilder {
            cast: None,
            volume: None,
            speed: None,
            tone: None,
            tone_scale: None,
            alpha: None,
        }
    }
}

impl CastBuilder {
    /// Sets the name of the voice.
    pub fn cast(&mut self, value: &str) -> (builder: &mut Self)
        ensures
            builder@ == (CastView { cast: Some(value@), ..old(self)@ }),
            *final(self) == *final(builder),
    {
        self.cast = Some(value.to_owned());
        self
    }

    /// Sets the volume.
    pub fn volume(&mut self, value: Volume) -> (builder: &mut Self)
        ensures
            builder@ == (CastView { volume: Some(value@), ..old(self)@ }),
            *final(self) == *final(builder),
    {
        self.volume = Some(value);
        self
    }

    /// Sets the speed.
    pub fn speed(&mut self, value: Speed) -> (builder: &mut Self)
        ensures
            builder@ == (CastView { speed: Some(value@), ..old(self)@ }),
            *final(self) == *final(builder),
    {
        self.speed = Some(value);
        self
    }

    /// Sets the tone.
    pub fn tone(&mut self, value: Tone) -> (builder: &mut Self)
        ensures
            builder@ == (CastView { tone: Some(value@), ..old(self)@ }),
            *final(self) == *final(builder),
    {
        self.tone = Some(value);
        self
    }

    /// Sets the tone scale.
    pub fn tone_scale(&mut self, value: ToneScale) -> (builder: &mut Self)
        ensures
            builder@ == (CastView { tone_scale: Some(value@), ..old(self)@ }),
            *final(self) == *final(builder),
    {
        self.tone_scale = Some(value);
        self
    }

    /// Sets the alpha.
    pub fn alpha(&mut self, value: Alpha) -> (builder: &mut Self)
        ensures
            builder@ == (CastView { alpha: Some(value@), ..old(self)@ }),
            *final(self) == *final(builder),
    {
        self.alpha = Some(value);
        self
    }

    /// Sets all five parameters to the middle of their range and leaves the
    /// voice as it is.
    pub fn with_defaults(&mut self) -> (builder: &mut Self)
        ensures
            builder@ == old(self)@.with_levels(VoicePreset::Normal.levels()),
            *final(self) == *final(builder),
    {
        self.volume(Volume::new(50).unwrap()).speed(Speed::new(50).unwrap()).tone(
            Tone::new(50).unwrap(),
        ).tone_scale(ToneScale::new(50).unwrap()).alpha(Alpha::new(50).unwrap())
    }

    /// Sets all five parameters as `preset` names them and leaves the voice
    /// as it is.
    pub fn from_preset(&mut self, preset: VoicePreset) -> (builder: &mut Self)
        ensures
            builder@ == old(self)@.with_levels(preset.levels()),
            *final(self) == *final(builder),
    {
        let (volume, speed, tone, tone_scale, alpha) = preset.to_parameters();
        self.volume(volume).speed(speed).tone(tone).tone_scale(tone_scale).alpha(alpha)
    }

    /// The configuration collected so far. It is always there: no field has
    /// to be set, and a configuration without a voice is a valid one.
    pub fn build(&self) -> (built: Result<Cast, CastBuilderError>)
        ensures
            built matches Ok(cast) && cast@ == self@,
    {
        let cast = match &self.cast {
            Some(name) => Some(name.clone()),
            None => None,
        };
        Ok(
            Cast {
                cast,
                volume: self.volume,
                speed: self.speed,
                tone: self.tone,
                tone_scale: self.tone_scale,
                alpha: self.alpha,
            },
        )
    }
}

} // verus!
