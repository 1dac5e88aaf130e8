//! What can go wrong between reading an image and handing out its address.

use vstd::prelude::*;
use vstd::string::StringExecFns;

verus! {

/// A failure of the pipeline. The text that a variant carries describes the
/// underlying cause.
#[derive(Clone, Debug, PartialEq, Eq)]
pub enum PipelineError {
    /// The input or the file could not be read.
    ReadError(String),
    /// No media type is known for the extension.
    UnknownContentType,
    /// The storage service could not be reached or refused the object.
    StorageError(String),
    /// The clipboard, the notification or the removal of the file failed.
    SinkError(String),
}

/// A `PipelineError` with its texts as sequences of characters.
pub enum ErrorView {
    ReadError(Seq<char>),
    UnknownContentType,
    StorageError(Seq<char>),
    SinkError(Seq<char>),
}

impl View for PipelineError {
    type V = ErrorView;

    open spec fn view(&self) -> ErrorView {
        match self {
            PipelineError::ReadError(cause) => ErrorView::ReadError(cause@),
            PipelineError::UnknownContentType => ErrorView::UnknownContentType,
            PipelineError::StorageError(cause) => ErrorView::StorageError(cause@),
            PipelineError::SinkError(cause) => ErrorView::SinkError(cause@),
        }
    }
}

/// The line that reports `error` to a person.
pub open spec fn diagnostic(error: ErrorView) -> Seq<char> {
    match error {
        ErrorView::ReadError(cause) => "read error: "@ + cause,
        ErrorView::UnknownContentType => "unknown content type"@,
        ErrorView::StorageError(cause) => "storage error: "@ + cause,
        ErrorView::SinkError(cause) => "sink error: "@ + cause,
    }
}

impl PipelineError {
    /// The line that reports this error to a person.
    pub fn message(&self) -> (text: String)
        ensures
            text@ == diagnostic(self@),
    {
        match self {
            PipelineError::ReadError(cause) => String::from_str("read error: ").concat(
                cause.as_str(),
            ),
            PipelineError::UnknownContentType => String::from_str("unknown content type"),
            PipelineError::StorageError(cause) => String::from_str("storage error: ").concat(
                cause.as_str(),
            ),
            PipelineError::SinkError(cause) => String::from_str("sink error: ").concat(
                cause.as_str(),
            ),
        }
    }
}

} // verus!
