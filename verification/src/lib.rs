//! Decision core of a typed control surface for the CeVIO AI speech host.
//!
//! The crate holds everything the session layer decides: which values a voice
//! parameter may take, which native calls a cast or a start-up configuration
//! stands for and in which order, how the answers of the host are read, and
//! how the process-wide runtime reference count moves. It performs no native
//! call itself. The caller issues each call the core names and reports the
//! outcome back.

pub mod cast;
pub mod cevio;
pub mod com_manager;
pub mod component;
pub mod config;
pub mod enumeration;
pub mod error;
pub mod host;
pub mod parameter;
pub mod sequence;

pub use cevio::{Cevio, CevioView};
pub use cast::{Cast, CastBuilder, CastView};
pub use com_manager::{ComGuard, ComManager};
pub use component::Component;
pub use config::{CevioConfig, CevioConfigBuilder, CevioConfigView};
pub use enumeration::Enumeration;
pub use error::{CastBuilderError, CevioConfigBuilderError, CevioError, NativeError};
pub use host::{CloseMode, HostStartResult, NativeCall, NativeCallView};
pub use parameter::{is_level, Alpha, Speed, Tone, ToneScale, VoicePreset, Volume};
pub use sequence::{CallOutcome, CallSequence, CallSequenceView};
