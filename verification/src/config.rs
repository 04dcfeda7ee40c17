//! What a session does once, while it is brought up: whether it starts the
//! host, and which voice and levels it sets first.

use std::time::Duration;
use vstd::prelude::*;
use crate::cast::{level_of, name_of, CastView};
use crate::error::CevioConfigBuilderError;
use crate::parameter::{Alpha, Speed, Tone, ToneScale, Volume};

verus! {

/// What a session configuration says.
pub struct CevioConfigView {
    /// Whether the host is started while the session is brought up.
    pub start_host: bool,
    /// Whether that start returns before the host can be reached.
    pub no_wait: bool,
    /// The voice and levels set first.
    pub initial: CastView,
    /// How long an operation may take.
    pub operation_timeout: Option<Duration>,
}

impl CevioConfigView {
    /// The configuration that asks for nothing.
    pub open spec fn empty() -> CevioConfigView {
        CevioConfigView {
            start_host: false,
            no_wait: false,
            initial: CastView::empty(),
            operation_timeout: None,
        }
    }
}

/// How a session is brought up.
#[derive(Clone, Debug)]
pub struct CevioConfig {
    /// Start the host if it is not running.
    pub start_host: bool,
    /// With `start_host`: return once the host is launched, without waiting
    /// until it can be reached.
    pub no_wait: bool,
    /// Voice to select first.
    pub initial_cast: Option<String>,
    /// Volume to set first.
    pub initial_volume: Option<Volume>,
    /// Speed to set first.
    pub initial_speed: Option<Speed>,
    /// Tone to set first.
    pub initial_tone: Option<Tone>,
    /// Tone scale to set first.
    pub initial_tone_scale: Option<ToneScale>,
    /// Alpha to set first.
    pub initial_alpha: Option<Alpha>,
    /// How long an operation may take. Carried along for the caller; no
    /// decision of this crate depends on it.
    pub operation_timeout: Option<Duration>,
}

impl View for CevioConfig {
    type V = CevioConfigView;

    open spec fn view(&self) -> CevioConfigView {
        CevioConfigView {
            start_host: self.start_host,
            no_wait: self.no_wait,
            initial: CastView {
                cast: name_of(self.initial_cast),
                volume: level_of(self.initial_volume),
                speed: level_of(self.initial_speed),
                tone: level_of(self.initial_tone),
                tone_scale: level_of(self.initial_tone_scale),
                alpha: level_of(self.initial_alpha),
            },
            operation_timeout: self.operation_timeout,
        }
    }
}

impl Default for CevioConfig {
    /// The configuration that asks for nothing.
    fn default() -> (config: Self)
        ensures
            config@ == CevioConfigView::empty(),
    {
        CevioConfig {
            start_host: false,
            no_wait: false,
            initial_cast: None,
            initial_volume: None,
            initial_speed: None,
            initial_tone: None,
            initial_tone_scale: None,
            initial_alpha: None,
            operation_timeout: None,
        }
    }
}

/// Collects the fields of a session configuration one by one. A field set
/// twice keeps the later value; a field never set stays as in
/// `CevioConfig::default()`.
#[derive(Clone, Debug)]
pub struct CevioConfigBuilder {
    config: CevioConfig,
}

impl View for CevioConfigBuilder {
    type V = CevioConfigView;

    closed spec fn view(&self) -> CevioConfigView {
        self.config@
    }
}

impl Default for CevioConfigBuilder {
    /// A builder with no field set.
    fn default() -> (builder: Self)
        ensures
            builder@ == CevioConfigView::empty(),
    {
        CevioConfigBuilder { config: CevioConfig::default() }
    }
}

impl CevioConfigBuilder {
    /// Sets whether the host is started.
    pub fn start_host(&mut self, value: bool) -> (builder: &mut Self)
        ensures
            builder@ == (CevioConfigView { start_host: value, ..old(self)@ }),
            *final(self) == *final(builder),
    {
        self.config.start_host = value;
        self
    }

    /// Sets whether the start returns without waiting for the host.
    pub fn no_wait(&mut self, value: bool) -> (builder: &mut Self)
        ensures
            builder@ == (CevioConfigView { no_wait: value, ..old(self)@ }),
            *final(self) == *final(builder),
    {
        self.config.no_wait = value;
        self
    }

    /// Sets the voice to select first.
    pub fn initial_cast(&mut self, value: &str) -> (builder: &mut Self)
        ensures
            builder@ == (CevioConfigView {
                initial: CastView { cast: Some(value@), ..old(self)@.initial },
                ..old(self)@
            }),
            *final(self) == *final(builder),
    {
        self.config.initial_cast = Some(value.to_owned());
        self
    }

    /// Sets the volume to set first.
    pub fn initial_volume(&mut self, value: Volume) -> (builder: &mut Self)
        ensures
            builder@ == (CevioConfigView {
                initial: CastView { volume: Some(value@), ..old(self)@.initial },
                ..old(self)@
            }),
            *final(self) == *final(builder),
    {
        self.config.initial_volume = Some(value);
        self
    }

    /// Sets the speed to set first.
    pub fn initial_speed(&mut self, value: Speed) -> (builder: &mut Self)
        ensures
            builder@ == (CevioConfigView {
                initial: CastView { speed: Some(value@), ..old(self)@.initial },
                ..old(self)@
            }),
            *final(self) == *final(builder),
    {
        self.config.initial_speed = Some(value);
        self
    }

    /// Sets the tone to set first.
    pub fn initial_tone(&mut self, value: Tone) -> (builder: &mut Self)
        ensures
            builder@ == (CevioConfigView {
                initial: CastView { tone: Some(value@), ..old(self)@.initial },
                ..old(self)@
            }),
            *final(self) == *final(builder),
    {
        self.config.initial_tone = Some(value);
        self
    }

    /// Sets the tone scale to set first.
    pub fn initial_tone_scale(&mut self, value: ToneScale) -> (builder: &mut Self)
        ensures
            builder@ == (CevioConfigView {
                initial: CastView { tone_scale: Some(value@), ..old(self)@.initial },
                ..old(self)@
            }),
            *final(self) == *final(builder),
    {
        self.config.initial_tone_scale = Some(value);
        self
    }

    /// Sets the alpha to set first.
    pub fn initial_alpha(&mut self, value: Alpha) -> (builder: &mut Self)
        ensures
            builder@ == (CevioConfigView {
                initial: CastView { alpha: Some(value@), ..old(self)@.initial },
                ..old(self)@
            }),
            *final(self) == *final(builder),
    {
        self.config.initial_alpha = Some(value);
        self
    }

    /// Sets how long an operation may take.
    pub fn operation_timeout(&mut self, value: Duration) -> (builder: &mut Self)
        ensures
            builder@ == (CevioConfigView { operation_timeout: Some(value), ..old(self)@ }),
            *final(self) == *final(builder),
    {
        self.config.operation_timeout = Some(value);
        self
    }

    /// The configuration collected so far. It is always there: no field has
    /// to be set.
    pub fn build(&self) -> (built: Result<CevioConfig, CevioConfigBuilderError>)
        ensures
            built matches Ok(config) && config@ == self@,
    {
        let initial_cast = match &self.config.initial_cast {
            Some(name) => Some(name.clone()),
            None => None,
        };
        Ok(
            CevioConfig {
                start_host: self.config.start_host,
                no_wait: self.config.no_wait,
                initial_cast,
                initial_volume: self.config.initial_volume,
                initial_speed: self.config.initial_speed,
                initial_tone: self.config.initial_tone,
                initial_tone_scale: self.config.initial_tone_scale,
                initial_alpha: self.config.initial_alpha,
                operation_timeout: self.config.operation_timeout,
            },
        )
    }
}

} // verus!
