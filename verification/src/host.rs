//! What is said to the native layer and how its answers are read: the calls
//! a session can ask for, the ways to close the host, and the meaning of the
//! code the host returns when it is started.

use vstd::prelude::*;
use crate::error::CevioError;
use crate::parameter::{Alpha, Speed, Tone, ToneScale, Volume};

verus! {

/// How the host is asked to terminate.
#[derive(Clone, Copy, Debug, PartialEq, Eq, Structural)]
pub enum CloseMode {
    /// The host may ask the user to save or to cancel.
    Interactive,
    /// The host discards what is unsaved and terminates.
    Force,
}

impl CloseMode {
    /// The number the host knows the mode by.
    pub open spec fn spec_code(self) -> i32 {
        match self {
            CloseMode::Interactive => 0,
            CloseMode::Force => 1,
        }
    }

    /// The number the host knows the mode by.
    pub fn code(self) -> (code: i32)
        ensures
            code == self.spec_code(),
    {
        match self {
            CloseMode::Interactive => 0,
            CloseMode::Force => 1,
        }
    }
}

/// What the host reports when it is asked to start.
#[derive(Clone, Copy, Debug, PartialEq, Eq, Structural)]
pub enum HostStartResult {
    /// The host runs; it may have been running before.
    Succeeded,
    /// The host cannot tell whether it is installed.
    NotRegistered,
    /// The host's executable was not found.
    FileNotFound,
    /// The host's process could not be started.
    StartingFailed,
    /// The host started and then terminated on an error.
    HostError,
}

impl HostStartResult {
    /// The meaning of the code `value`: 0, 1, 2 and 3 have one of their
    /// own, every other code means that the host terminated after its start.
    pub open spec fn of_code(value: i32) -> HostStartResult {
        if value == 0 {
            HostStartResult::Succeeded
        } else if value == 1 {
            HostStartResult::NotRegistered
        } else if value == 2 {
            HostStartResult::FileNotFound
        } else if value == 3 {
            HostStartResult::StartingFailed
        } else {
            HostStartResult::HostError
        }
    }

    /// What the start comes to: success, or the failure that stands for the
    /// report.
    pub open spec fn outcome(self) -> Result<(), CevioError> {
        match self {
            HostStartResult::Succeeded => Ok(()),
            HostStartResult::NotRegistered => Err(CevioError::InstallUnknown),
            HostStartResult::FileNotFound => Err(CevioError::ExecutableNotFound),
            HostStartResult::StartingFailed => Err(CevioError::ProcessStartFailed),
            HostStartResult::HostError => Err(CevioError::AppTerminated),
        }
    }

    /// Reads the code the host returned.
    pub fn from_i32(value: i32) -> (report: Self)
        ensures
            report == Self::of_code(value),
    {
        match value {
            0 => HostStartResult::Succeeded,
            1 => HostStartResult::NotRegistered,
            2 => HostStartResult::FileNotFound,
            3 => HostStartResult::StartingFailed,
            _ => HostStartResult::HostError,
        }
    }

    /// Success, or the failure that stands for the report.
    pub fn into_result(self) -> (outcome: Result<(), CevioError>)
        ensures
            outcome == self.outcome(),
    {
        match self {
            HostStartResult::Succeeded => Ok(()),
            HostStartResult::NotRegistered => Err(CevioError::InstallUnknown),
            HostStartResult::FileNotFound => Err(CevioError::ExecutableNotFound),
            HostStartResult::StartingFailed => Err(CevioError::ProcessStartFailed),
            HostStartResult::HostError => Err(CevioError::AppTerminated),
        }
    }
}

/// What a call into the native layer says.
pub enum NativeCallView {
    AcquireRuntime,
    CreateService,
    CreateTalker,
    ReleaseRuntime,
    StartHost { no_wait: bool },
    SetCast(Seq<char>),
    SetVolume(nat),
    SetSpeed(nat),
    SetTone(nat),
    SetToneScale(nat),
    SetAlpha(nat),
}

/// One call into the native layer that a session asks its caller to make.
#[derive(Clone, Debug, PartialEq, Eq)]
pub enum NativeCall {
    /// Take a hold on the native runtime.
    AcquireRuntime,
    /// Create the handle that starts and closes the host.
    CreateService,
    /// Create the handle that talks.
    CreateTalker,
    /// Give the hold on the native runtime back.
    ReleaseRuntime,
    /// Start the host; with `no_wait`, return before it can be reached.
    StartHost { no_wait: bool },
    /// Select the voice of this name.
    SetCast(String),
    /// Set the volume.
    SetVolume(Volume),
    /// Set the speed.
    SetSpeed(Speed),
    /// Set the tone.
    SetTone(Tone),
    /// Set the tone scale.
    SetToneScale(ToneScale),
    /// Set the alpha.
    SetAlpha(Alpha),
}

impl View for NativeCall {
    type V = NativeCallView;

    open spec fn view(&self) -> NativeCallView {
        match *self {
            NativeCall::AcquireRuntime => NativeCallView::AcquireRuntime,
            NativeCall::CreateService => NativeCallView::CreateService,
            NativeCall::CreateTalker => NativeCallView::CreateTalker,
            NativeCall::ReleaseRuntime => NativeCallView::ReleaseRuntime,
            NativeCall::StartHost { no_wait } => NativeCallView::StartHost { no_wait },
            NativeCall::SetCast(name) => NativeCallView::SetCast(name@),
            NativeCall::SetVolume(level) => NativeCallView::SetVolume(level@),
            NativeCall::SetSpeed(level) => NativeCallView::SetSpeed(level@),
            NativeCall::SetTone(level) => NativeCallView::SetTone(level@),
            NativeCall::SetToneScale(level) => NativeCallView::SetToneScale(level@),
            NativeCall::SetAlpha(level) => NativeCallView::SetAlpha(level@),
        }
    }
}

/// What each call of a list says, in the order of the list.
pub open spec fn calls_view(calls: Seq<NativeCall>) -> Seq<NativeCallView> {
    calls.map_values(|call: NativeCall| call@)
}

} // verus!
