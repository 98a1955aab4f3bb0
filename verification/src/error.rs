//! What can go wrong with a recording.

use vstd::prelude::*;

verus! {

/// An error that a caller of the recorder sees.
#[derive(Debug, PartialEq, Eq)]
pub enum Error {
    /// A recording is already running.
    AlreadyRecording,
    /// No recording is running.
    NotRecording,
    /// There is no input device to record from.
    DeviceNotFound,
    /// The requested channel cannot be recorded.
    InvalidChannel(String),
    /// The requested output path is not acceptable.
    InvalidPath(String),
    /// The device delivers samples in a format that cannot be recorded.
    UnsupportedFormat,
    /// The audio system or the WAV file failed.
    Recording(String),
    /// The file system failed.
    Io(String),
}

/// An [`Error`] with its message as a sequence of characters.
#[verifier::ext_equal]
pub enum ErrorView {
    AlreadyRecording,
    NotRecording,
    DeviceNotFound,
    InvalidChannel(Seq<char>),
    InvalidPath(Seq<char>),
    UnsupportedFormat,
    Recording(Seq<char>),
    Io(Seq<char>),
}

impl View for Error {
    type V = ErrorView;

    open spec fn view(&self) -> ErrorView {
        match *self {
            Error::AlreadyRecording => ErrorView::AlreadyRecording,
            Error::NotRecording => ErrorView::NotRecording,
            Error::DeviceNotFound => ErrorView::DeviceNotFound,
            Error::InvalidChannel(message) => ErrorView::InvalidChannel(message@),
            Error::InvalidPath(message) => ErrorView::InvalidPath(message@),
            Error::UnsupportedFormat => ErrorView::UnsupportedFormat,
            Error::Recording(message) => ErrorView::Recording(message@),
            Error::Io(message) => ErrorView::Io(message@),
        }
    }
}

/// An outcome with its error seen through [`ErrorView`].
pub open spec fn outcome<T>(r: Result<T, Error>) -> Result<T, ErrorView> {
    match r {
        Ok(value) => Ok(value),
        Err(e) => Err(e@),
    }
}

/// A recording error: what was being done, followed by the cause.
pub fn recording_error(what: &str, cause: &str) -> (e: Error)
    ensures
        e@ == ErrorView::Recording(what@ + cause@),
{
    Error::Recording(what.to_owned().concat(cause))
}

} // verus!
