//! The error type shared by every operation of the backend.

use vstd::prelude::*;

verus! {

/// The capture backends an error can be attributed to.
#[derive(Debug, Clone, Copy, PartialEq, Eq, Structural)]
pub enum ApiBackend {
    Auto,
    AVFoundation,
    Video4Linux,
    UniversalVideoClass,
    MediaFoundation,
    OpenCv,
    GStreamer,
    Network,
    Browser,
}

/// Everything that can go wrong while talking to a capture device.
#[derive(Debug, Clone, PartialEq, Eq)]
pub enum NokhwaError {
    /// The capture subsystem could not be started.
    InitializeError { backend: ApiBackend, error: String },
    /// The capture subsystem could not be shut down.
    ShutdownError { backend: ApiBackend, error: String },
    /// A platform object could not be built, or a value had the wrong shape.
    StructureError { structure: String, error: String },
    /// The device named by the first field could not be opened.
    OpenDeviceError(String, String),
    /// A named attribute or control could not be read.
    GetPropertyError { property: String, error: String },
    /// A named attribute or control could not be written.
    SetPropertyError { property: String, value: String, error: String },
    /// The video stream could not be selected.
    OpenStreamError(String),
    /// A frame could not be acquired or its buffer could not be read.
    ReadFrameError(String),
    /// The operation has no implementation on this platform.
    NotImplementedError(String),
}

/// The mathematical content of a [`NokhwaError`]: the same variants, with
/// every text as a sequence of characters.
pub enum ErrorView {
    InitializeError { backend: ApiBackend, error: Seq<char> },
    ShutdownError { backend: ApiBackend, error: Seq<char> },
    StructureError { structure: Seq<char>, error: Seq<char> },
    OpenDeviceError(Seq<char>, Seq<char>),
    GetPropertyError { property: Seq<char>, error: Seq<char> },
    SetPropertyError { property: Seq<char>, value: Seq<char>, error: Seq<char> },
    OpenStreamError(Seq<char>),
    ReadFrameError(Seq<char>),
    NotImplementedError(Seq<char>),
}

impl View for NokhwaError {
    type V = ErrorView;

    open spec fn view(&self) -> ErrorView {
        match *self {
            NokhwaError::InitializeError { backend, error } => ErrorView::InitializeError {
                backend,
                error: error@,
            },
            NokhwaError::ShutdownError { backend, error } => ErrorView::ShutdownError {
                backend,
                error: error@,
            },
            NokhwaError::StructureError { structure, error } => ErrorView::StructureError {
                structure: structure@,
                error: error@,
            },
            NokhwaError::OpenDeviceError(device, error) => ErrorView::OpenDeviceError(
                device@,
                error@,
            ),
            NokhwaError::GetPropertyError { property, error } => ErrorView::GetPropertyError {
                property: property@,
                error: error@,
            },
            NokhwaError::SetPropertyError { property, value, error } => ErrorView::SetPropertyError {
                property: property@,
                value: value@,
                error: error@,
            },
            NokhwaError::OpenStreamError(error) => ErrorView::OpenStreamError(error@),
            NokhwaError::ReadFrameError(error) => ErrorView::ReadFrameError(error@),
            NokhwaError::NotImplementedError(error) => ErrorView::NotImplementedError(error@),
        }
    }
}

/// Builds a [`NokhwaError::GetPropertyError`] for the attribute `property`.
pub fn get_property_error(property: &str, error: String) -> (e: NokhwaError)
    ensures
        e@ == (ErrorView::GetPropertyError { property: property@, error: error@ }),
{
    NokhwaError::GetPropertyError { property: String::from_str(property), error }
}

/// Builds a [`NokhwaError::SetPropertyError`] for writing `value` to `property`.
pub fn set_property_error(property: &str, value: String, error: String) -> (e: NokhwaError)
    ensures
        e@ == (ErrorView::SetPropertyError { property: property@, value: value@, error: error@ }),
{
    NokhwaError::SetPropertyError { property: String::from_str(property), value, error }
}

/// Builds a [`NokhwaError::StructureError`] for the platform object `structure`.
pub fn structure_error(structure: &str, error: String) -> (e: NokhwaError)
    ensures
        e@ == (ErrorView::StructureError { structure: structure@, error: error@ }),
{
    NokhwaError::StructureError { structure: String::from_str(structure), error }
}

} // verus!
