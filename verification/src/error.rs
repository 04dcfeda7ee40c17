//! The ways an operation of this crate can fail.

use vstd::prelude::*;

verus! {

/// A failure reported by the native layer: its status code and the text the
/// native layer gave for it, empty where it gave none.
#[derive(Clone, Debug, PartialEq, Eq)]
pub struct NativeError {
    pub code: i32,
    pub message: String,
}

/// Why a cast configuration could not be built.
#[derive(Clone, Debug, PartialEq, Eq)]
pub enum CastBuilderError {
    /// A field that must be set was left unset; holds the field's name.
    UninitializedField(String),
    /// The fields were set but do not go together; holds the reason.
    ValidationError(String),
}

/// Why a session configuration could not be built.
#[derive(Clone, Debug, PartialEq, Eq)]
pub enum CevioConfigBuilderError {
    /// A field that must be set was left unset; holds the field's name.
    UninitializedField(String),
    /// The fields were set but do not go together; holds the reason.
    ValidationError(String),
}

/// Every failure this crate reports.
#[derive(Clone, Debug, PartialEq, Eq)]
pub enum CevioError {
    /// The native layer failed a call.
    Windows(NativeError),
    /// A cast configuration could not be built.
    BuilderError(CastBuilderError),
    /// A session configuration could not be built.
    ConfigBuilderError(CevioConfigBuilderError),
    /// The host cannot tell whether it is installed.
    InstallUnknown,
    /// The host's executable was not found.
    ExecutableNotFound,
    /// The host's process could not be started.
    ProcessStartFailed,
    /// The host started and then terminated on an error.
    AppTerminated,
    /// A value handed to this crate is outside what it accepts; holds the reason.
    InvalidParameter(String),
}

impl CastBuilderError {
    /// The text of the failure.
    pub open spec fn text(&self) -> Seq<char> {
        match self {
            CastBuilderError::UninitializedField(field) => "`"@ + field@
                + "` must be initialized"@,
            CastBuilderError::ValidationError(reason) => reason@,
        }
    }

    /// The text of the failure.
    pub fn message(&self) -> (text: String)
        ensures
            text@ == self.text(),
    {
        match self {
            CastBuilderError::UninitializedField(field) => String::from_str("`").concat(
                field.as_str(),
            ).concat("` must be initialized"),
            CastBuilderError::ValidationError(reason) => reason.clone(),
        }
    }
}

impl CevioConfigBuilderError {
    /// The text of the failure.
    pub open spec fn text(&self) -> Seq<char> {
        match self {
            CevioConfigBuilderError::UninitializedField(field) => "`"@ + field@
                + "` must be initialized"@,
            CevioConfigBuilderError::ValidationError(reason) => reason@,
        }
    }

    /// The text of the failure.
    pub fn message(&self) -> (text: String)
        ensures
            text@ == self.text(),
    {
        match self {
            CevioConfigBuilderError::UninitializedField(field) => String::from_str("`").concat(
                field.as_str(),
            ).concat("` must be initialized"),
            CevioConfigBuilderError::ValidationError(reason) => reason.clone(),
        }
    }
}

impl CevioError {
    /// The text of the failure.
    pub open spec fn text(&self) -> Seq<char> {
        match self {
            CevioError::Windows(native) => "Windows API error: "@ + native.message@,
            CevioError::BuilderError(inner) => "BuilderError error: "@ + inner.text(),
            CevioError::ConfigBuilderError(inner) => "ConfigBuilderError error: "@ + inner.text(),
            CevioError::InstallUnknown => "Installation state is unknown"@,
            CevioError::ExecutableNotFound => "Executable not found"@,
            CevioError::ProcessStartFailed => "Failed to start process"@,
            CevioError::AppTerminated => "Application terminated due to error after startup"@,
            CevioError::InvalidParameter(reason) => "Invalid parameter: "@ + reason@,
        }
    }

    /// The text of the failure.
    pub fn message(&self) -> (text: String)
        ensures
            text@ == self.text(),
    {
        match self {
            CevioError::Windows(native) => String::from_str("Windows API error: ").concat(
                native.message.as_str(),
            ),
            CevioError::BuilderError(inner) => {
                let detail = inner.message();
                String::from_str("BuilderError error: ").concat(detail.as_str())
            },
            CevioError::ConfigBuilderError(inner) => {
                let detail = inner.message();
                String::from_str("ConfigBuilderError error: ").concat(detail.as_str())
            },
            CevioError::InstallUnknown => String::from_str("Installation state is unknown"),
            CevioError::ExecutableNotFound => String::from_str("Executable not found"),
            CevioError::ProcessStartFailed => String::from_str("Failed to start process"),
            CevioError::AppTerminated => String::from_str(
                "Application terminated due to error after startup",
            ),
            CevioError::InvalidParameter(reason) => String::from_str("Invalid parameter: ").concat(
                reason.as_str(),
            ),
        }
    }
}

impl From<NativeError> for CevioError {
    fn from(native: NativeError) -> (error: Self) {
        CevioError::Windows(native)
    }
}

impl vstd::std_specs::convert::FromSpecImpl<NativeError> for CevioError {
    open spec fn obeys_from_spec() -> bool {
        true
    }

    open spec fn from_spec(native: NativeError) -> Self {
        CevioError::Windows(native)
    }
}

impl From<CastBuilderError> for CevioError {
    fn from(inner: CastBuilderError) -> (error: Self) {
        CevioError::BuilderError(inner)
    }
}

impl vstd::std_specs::convert::FromSpecImpl<CastBuilderError> for CevioError {
    open spec fn obeys_from_spec() -> bool {
        true
    }

    open spec fn from_spec(inner: CastBuilderError) -> Self {
        CevioError::BuilderError(inner)
    }
}

impl From<CevioConfigBuilderError> for CevioError {
    fn from(inner: CevioConfigBuilderError) -> (error: Self) {
        CevioError::ConfigBuilderError(inner)
    }
}

impl vstd::std_specs::convert::FromSpecImpl<CevioConfigBuilderError> for CevioError {
    open spec fn obeys_from_spec() -> bool {
        true
    }

    open spec fn from_spec(inner: CevioConfigBuilderError) -> Self {
        CevioError::ConfigBuilderError(inner)
    }
}

} // verus!
