//! The pipeline from a source of images to the sinks of their addresses, as
//! a state machine.
//!
//! The program that drives the pipeline performs one effect at a time and
//! hands back what came of it as an event; `step` decides what follows. The
//! pipeline is idle while it waits for the next change in the watched
//! directory and processing from the moment it accepts one until the last
//! sink has run or something has failed. It works on one image at a time.

use crate::config::{Mode, ModeView, WatchKind};
use crate::error::{diagnostic, ErrorView, PipelineError};
use crate::output::{
    format_notification_body,
    format_notification_summary,
    format_output_line,
    notification_body,
    notification_summary,
    output_line,
    EXIT_FAILURE,
};
use crate::upload::{UploadRequest, UploadRequestView};
use vstd::prelude::*;

verus! {

/// A change that the watch facility saw in the watched directory.
#[derive(Clone, Debug, PartialEq, Eq)]
pub struct WatchEvent {
    pub kind: WatchKind,
    pub path: String,
    /// The extension of the file's name, if it has one.
    pub extension: Option<String>,
}

/// A `WatchEvent` with its texts as sequences of characters.
pub struct WatchEventView {
    pub kind: WatchKind,
    pub path: Seq<char>,
    pub extension: Option<Seq<char>>,
}

impl View for WatchEvent {
    type V = WatchEventView;

    open spec fn view(&self) -> WatchEventView {
        WatchEventView {
            kind: self.kind,
            path: self.path@,
            extension: self.extension.deep_view(),
        }
    }
}

/// What the driver hands to the pipeline.
#[derive(Clone, Debug, PartialEq, Eq)]
pub enum Event {
    /// The watch facility saw a change.
    Detected(WatchEvent),
    /// The watch facility reported a fault.
    WatchFailed(String),
    /// The requested read succeeded.
    Bytes(Vec<u8>),
    /// The upload succeeded; the image is served at this address.
    Uploaded(String),
    /// The upload failed.
    Rejected(PipelineError),
    /// The requested sink did its work.
    Done,
    /// The requested read or sink failed, for the given cause.
    Failed(String),
}

/// An `Event` with its texts as sequences of characters.
pub enum EventView {
    Detected(WatchEventView),
    WatchFailed(Seq<char>),
    Bytes(Seq<u8>),
    Uploaded(Seq<char>),
    Rejected(ErrorView),
    Done,
    Failed(Seq<char>),
}

impl View for Event {
    type V = EventView;

    open spec fn view(&self) -> EventView {
        match self {
            Event::Detected(change) => EventView::Detected(change@),
            Event::WatchFailed(cause) => EventView::WatchFailed(cause@),
            Event::Bytes(bytes) => EventView::Bytes(bytes@),
            Event::Uploaded(url) => EventView::Uploaded(url@),
            Event::Rejected(error) => EventView::Rejected(error@),
            Event::Done => EventView::Done,
            Event::Failed(cause) => EventView::Failed(cause@),
        }
    }
}

impl Event {
    /// The event that reports how a read went.
    pub fn from_read(outcome: Result<Vec<u8>, String>) -> (event: Event)
        ensures
            event@ == (match outcome {
                Ok(bytes) => EventView::Bytes(bytes@),
                Err(cause) => EventView::Failed(cause@),
            }),
    {
        match outcome {
            Ok(bytes) => Event::Bytes(bytes),
            Err(cause) => Event::Failed(cause),
        }
    }

    /// The event that reports how an upload went.
    pub fn from_upload(answer: Result<String, PipelineError>) -> (event: Event)
        ensures
            event@ == (match answer {
                Ok(url) => EventView::Uploaded(url@),
                Err(error) => EventView::Rejected(error@),
            }),
    {
        match answer {
            Ok(url) => Event::Uploaded(url),
            Err(error) => Event::Rejected(error),
        }
    }

    /// The event that reports how a sink went.
    pub fn from_sink(outcome: Result<(), String>) -> (event: Event)
        ensures
            event@ == (match outcome {
                Ok(_) => EventView::Done,
                Err(cause) => EventView::Failed(cause@),
            }),
    {
        match outcome {
            Ok(_) => Event::Done,
            Err(cause) => Event::Failed(cause),
        }
    }
}

/// What the pipeline asks its driver to do next.
#[derive(Clone, Debug, PartialEq, Eq)]
pub enum Effect {
    /// Nothing new: hand over the next event when there is one.
    Await,
    /// Tell the user that the watch facility reported a fault, then go on
    /// waiting.
    ReportWatchError(String),
    /// Read standard input to its end.
    ReadInput,
    /// Read the whole file.
    ReadFile { path: String },
    /// Upload the image.
    Upload(UploadRequest),
    /// Put the text on the clipboard.
    CopyToClipboard { text: String },
    /// Show a desktop notification.
    Notify { summary: String, body: String },
    /// Remove the file.
    DeleteFile { path: String },
    /// Processing of the current image failed. The pipeline is idle again;
    /// whether the process goes on is the driver's decision.
    Report(PipelineError),
    /// Write the line to standard output and leave with success.
    Succeed { line: String },
    /// Write the line to standard error and leave with the exit code.
    Fail { diagnostic: String, code: i32 },
}

/// An `Effect` with its texts as sequences of characters.
pub enum EffectView {
    Await,
    ReportWatchError(Seq<char>),
    ReadInput,
    ReadFile { path: Seq<char> },
    Upload(UploadRequestView),
    CopyToClipboard { text: Seq<char> },
    Notify { summary: Seq<char>, body: Seq<char> },
    DeleteFile { path: Seq<char> },
    Report(ErrorView),
    Succeed { line: Seq<char> },
    Fail { diagnostic: Seq<char>, code: i32 },
}

impl View for Effect {
    type V = EffectView;

    open spec fn view(&self) -> EffectView {
        match self {
            Effect::Await => EffectView::Await,
            Effect::ReportWatchError(cause) => EffectView::ReportWatchError(cause@),
            Effect::ReadInput => EffectView::ReadInput,
            Effect::ReadFile { path } => EffectView::ReadFile { path: path@ },
            Effect::Upload(request) => EffectView::Upload(request@),
            Effect::CopyToClipboard { text } => EffectView::CopyToClipboard { text: text@ },
            Effect::Notify { summary, body } => EffectView::Notify {
                summary: summary@,
                body: body@,
            },
            Effect::DeleteFile { path } => EffectView::DeleteFile { path: path@ },
            Effect::Report(error) => EffectView::Report(error@),
            Effect::Succeed { line } => EffectView::Succeed { line: line@ },
            Effect::Fail { diagnostic, code } => EffectView::Fail {
                diagnostic: diagnostic@,
                code: *code,
            },
        }
    }
}

/// Where the pipeline stands. `path` is the file being processed; it is
/// `None` for an image that came from standard input.
#[derive(Clone, Debug, PartialEq, Eq)]
pub enum State {
    /// Waiting for the next change in the watched directory.
    Idle,
    /// Waiting for the bytes of the image.
    Reading { path: Option<String>, extension: Option<String> },
    /// Waiting for the upload to end.
    Uploading { path: Option<String> },
    /// Waiting for the clipboard to take the address.
    Copying { path: Option<String>, url: String },
    /// Waiting for the notification to be shown.
    Notifying { path: Option<String> },
    /// Waiting for the file to be removed.
    Deleting,
    /// The single image of a one-shot run has been dealt with.
    Stopped,
}

/// A `State` with its texts as sequences of characters.
pub enum StateView {
    Idle,
    Reading { path: Option<Seq<char>>, extension: Option<Seq<char>> },
    Uploading { path: Option<Seq<char>> },
    Copying { path: Option<Seq<char>>, url: Seq<char> },
    Notifying { path: Option<Seq<char>> },
    Deleting,
    Stopped,
}

impl View for State {
    type V = StateView;

    open spec fn view(&self) -> StateView {
        match self {
            State::Idle => StateView::Idle,
            State::Reading { path, extension } => StateView::Reading {
                path: path.deep_view(),
                extension: extension.deep_view(),
            },
            State::Uploading { path } => StateView::Uploading { path: path.deep_view() },
            State::Copying { path, url } => StateView::Copying {
                path: path.deep_view(),
                url: url@,
            },
            State::Notifying { path } => StateView::Notifying { path: path.deep_view() },
            State::Deleting => StateView::Deleting,
            State::Stopped => StateView::Stopped,
        }
    }
}

impl StateView {
    /// Whether an image is being processed.
    pub open spec fn is_processing(self) -> bool {
        !(self is Idle) && !(self is Stopped)
    }
}

/// Whether the pipeline reacts to the change: it does while a directory is
/// watched, to the kind of change that the mode names.
pub open spec fn is_relevant(mode: ModeView, change: WatchEventView) -> bool {
    mode matches ModeView::Watch { trigger, .. } && change.kind == trigger
}

/// Whether files are removed once their address has been handed out.
pub open spec fn deletes_after_upload(mode: ModeView) -> bool {
    mode matches ModeView::Watch { delete_after_upload, .. } && delete_after_upload
}

/// Where the pipeline starts, and the first thing to do: a one-shot run
/// reads standard input, a watching run waits for the first change.
pub open spec fn initial(mode: ModeView) -> (StateView, EffectView) {
    match mode {
        ModeView::OneShot { extension } => (
            StateView::Reading { path: None, extension: Some(extension) },
            EffectView::ReadInput,
        ),
        ModeView::Watch { .. } => (StateView::Idle, EffectView::Await),
    }
}

/// What follows a failure: a one-shot run ends with a diagnostic and the
/// failure's exit code; a watching run reports the error and is idle again.
pub open spec fn failure(mode: ModeView, error: ErrorView) -> (StateView, EffectView) {
    match mode {
        ModeView::OneShot { .. } => (
            StateView::Stopped,
            EffectView::Fail { diagnostic: diagnostic(error), code: EXIT_FAILURE },
        ),
        ModeView::Watch { .. } => (StateView::Idle, EffectView::Report(error)),
    }
}

/// The pipeline's transition: the state that follows `state` on `event`, and
/// what the driver is asked to do. An event that does not answer what the
/// pipeline waits for changes nothing.
pub open spec fn transition(mode: ModeView, state: StateView, event: EventView) -> (
    StateView,
    EffectView,
) {
    match state {
        StateView::Idle => match event {
            EventView::Detected(change) => if is_relevant(mode, change) {
                (
                    StateView::Reading { path: Some(change.path), extension: change.extension },
                    EffectView::ReadFile { path: change.path },
                )
            } else {
                (state, EffectView::Await)
            },
            EventView::WatchFailed(cause) => (state, EffectView::ReportWatchError(cause)),
            _ => (state, EffectView::Await),
        },
        StateView::Reading { path, extension } => match event {
            EventView::Bytes(bytes) => match extension {
                Some(extension) => (
                    StateView::Uploading { path },
                    EffectView::Upload(UploadRequestView { bytes, extension }),
                ),
                None => failure(mode, ErrorView::UnknownContentType),
            },
            EventView::Failed(cause) => failure(mode, ErrorView::ReadError(cause)),
            _ => (state, EffectView::Await),
        },
        StateView::Uploading { path } => match event {
            EventView::Uploaded(url) => match mode {
                ModeView::OneShot { .. } => (
                    StateView::Stopped,
                    EffectView::Succeed { line: output_line(url) },
                ),
                ModeView::Watch { .. } => (
                    StateView::Copying { path, url },
                    EffectView::CopyToClipboard { text: url },
                ),
            },
            EventView::Rejected(error) => failure(mode, error),
            _ => (state, EffectView::Await),
        },
        StateView::Copying { path, url } => match event {
            EventView::Done => (
                StateView::Notifying { path },
                EffectView::Notify { summary: notification_summary(), body: notification_body(url) },
            ),
            EventView::Failed(cause) => failure(mode, ErrorView::SinkError(cause)),
            _ => (state, EffectView::Await),
        },
        StateView::Notifying { path } => match event {
            EventView::Done => match path {
                Some(path) if deletes_after_upload(mode) => (
                    StateView::Deleting,
                    EffectView::DeleteFile { path },
                ),
                _ => (StateView::Idle, EffectView::Await),
            },
            EventView::Failed(cause) => failure(mode, ErrorView::SinkError(cause)),
            _ => (state, EffectView::Await),
        },
        StateView::Deleting => match event {
            EventView::Done => (StateView::Idle, EffectView::Await),
            EventView::Failed(cause) => failure(mode, ErrorView::SinkError(cause)),
            _ => (state, EffectView::Await),
        },
        StateView::Stopped => (state, EffectView::Await),
    }
}

/// Where the pipeline starts, and the first thing to do.
pub fn start(mode: &Mode) -> (first: (State, Effect))
    ensures
        (first.0@, first.1@) == initial(mode@),
{
    match mode {
        Mode::OneShot { extension } => (
            State::Reading { path: None, extension: Some(extension.clone()) },
            Effect::ReadInput,
        ),
        Mode::Watch { .. } => (State::Idle, Effect::Await),
    }
}

/// What follows a failure.
fn fail(mode: &Mode, error: PipelineError) -> (next: (State, Effect))
    ensures
        (next.0@, next.1@) == failure(mode@, error@),
{
    match mode {
        Mode::OneShot { .. } => (
            State::Stopped,
            Effect::Fail { diagnostic: error.message(), code: EXIT_FAILURE },
        ),
        Mode::Watch { .. } => (State::Idle, Effect::Report(error)),
    }
}

/// Whether the pipeline reacts to the change.
fn reacts_to(mode: &Mode, change: &WatchEvent) -> (relevant: bool)
    ensures
        relevant == is_relevant(mode@, change@),
{
    match mode {
        Mode::Watch { trigger, .. } => change.kind == *trigger,
        Mode::OneShot { .. } => false,
    }
}

/// Whether files are removed once their address has been handed out.
fn removes_files(mode: &Mode) -> (removes: bool)
    ensures
        removes == deletes_after_upload(mode@),
{
    match mode {
        Mode::Watch { delete_after_upload, .. } => *delete_after_upload,
        Mode::OneShot { .. } => false,
    }
}

/// Takes one event: returns the state that follows and what the driver is
/// asked to do next.
pub fn step(mode: &Mode, state: State, event: Event) -> (next: (State, Effect))
    ensures
        (next.0@, next.1@) == transition(mode@, state@, event@),
{
    match state {
        State::Idle => match event {
            Event::Detected(change) => {
                if reacts_to(mode, &change) {
                    let path = change.path.clone();
                    (
                        State::Reading { path: Some(change.path), extension: change.extension },
                        Effect::ReadFile { path },
                    )
                } else {
                    (State::Idle, Effect::Await)
                }
            },
            Event::WatchFailed(cause) => (State::Idle, Effect::ReportWatchError(cause)),
            _ => (State::Idle, Effect::Await),
        },
        State::Reading { path, extension } => match event {
            Event::Bytes(bytes) => match extension {
                Some(extension) => (
                    State::Uploading { path },
                    Effect::Upload(UploadRequest { bytes, extension }),
                ),
                None => fail(mode, PipelineError::UnknownContentType),
            },
            Event::Failed(cause) => fail(mode, PipelineError::ReadError(cause)),
            _ => (State::Reading { path, extension }, Effect::Await),
        },
        State::Uploading { path } => match event {
            Event::Uploaded(url) => match mode {
                Mode::OneShot { .. } => (
                    State::Stopped,
                    Effect::Succeed { line: format_output_line(url.as_str()) },
                ),
                Mode::Watch { .. } => {
                    let text = url.clone();
                    (State::Copying { path, url }, Effect::CopyToClipboard { text })
                },
            },
            Event::Rejected(error) => fail(mode, error),
            _ => (State::Uploading { path }, Effect::Await),
        },
        State::Copying { path, url } => match event {
            Event::Done => (
                State::Notifying { path },
                Effect::Notify {
                    summary: format_notification_summary(),
                    body: format_notification_body(url.as_str()),
                },
            ),
            Event::Failed(cause) => fail(mode, PipelineError::SinkError(cause)),
            _ => (State::Copying { path, url }, Effect::Await),
        },
        State::Notifying { path } => match event {
            Event::Done => {
                let removes = removes_files(mode);
                match path {
                    Some(path) if removes => (State::Deleting, Effect::DeleteFile { path }),
                    _ => (State::Idle, Effect::Await),
                }
            },
            Event::Failed(cause) => fail(mode, PipelineError::SinkError(cause)),
            _ => (State::Notifying { path }, Effect::Await),
        },
        State::Deleting => match event {
            Event::Done => (State::Idle, Effect::Await),
            Event::Failed(cause) => fail(mode, PipelineError::SinkError(cause)),
            _ => (State::Deleting, Effect::Await),
        },
        State::Stopped => (State::Stopped, Effect::Await),
    }
}

} // verus!
