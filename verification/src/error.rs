//! The error type shared by the whole engine.

use vstd::prelude::*;
use vstd::string::*;

verus! {

/// What can go wrong while a graph is built or driven.
#[derive(Debug, PartialEq, Eq)]
pub enum AppError {
    /// A processing node that the graph needs could not be created.
    GStreamer(String),
    /// Nodes could not be added, linked or moved to another state.
    Pipeline(String),
    /// An output window could not be opened.
    Output(String),
    /// The project is missing or malformed.
    Project(String),
    /// A media file could not be used.
    File(String),
    /// A media item names an output that is not in the output list.
    NotFound(String),
    /// The request makes no sense in the current state.
    InvalidState(String),
    /// The network video SDK refused an operation.
    Ndi(String),
    /// A bounded wait elapsed without acknowledgement.
    Timeout(String),
    /// Reading or writing a file failed.
    Io(String),
    /// A project file could not be parsed or written.
    Json(String),
}

/// Which kind of error a value is, without its text.
#[derive(Debug, Clone, Copy, PartialEq, Eq, Structural)]
pub enum ErrorKind {
    GStreamer,
    Pipeline,
    Output,
    Project,
    File,
    NotFound,
    InvalidState,
    Ndi,
    Timeout,
    Io,
    Json,
}

/// An error as a kind and the characters of its detail text.
pub struct AppErrorView {
    pub kind: ErrorKind,
    pub detail: Seq<char>,
}

impl View for AppError {
    type V = AppErrorView;

    open spec fn view(&self) -> AppErrorView {
        match self {
            AppError::GStreamer(d) => AppErrorView { kind: ErrorKind::GStreamer, detail: d@ },
            AppError::Pipeline(d) => AppErrorView { kind: ErrorKind::Pipeline, detail: d@ },
            AppError::Output(d) => AppErrorView { kind: ErrorKind::Output, detail: d@ },
            AppError::Project(d) => AppErrorView { kind: ErrorKind::Project, detail: d@ },
            AppError::File(d) => AppErrorView { kind: ErrorKind::File, detail: d@ },
            AppError::NotFound(d) => AppErrorView { kind: ErrorKind::NotFound, detail: d@ },
            AppError::InvalidState(d) => AppErrorView {
                kind: ErrorKind::InvalidState,
                detail: d@,
            },
            AppError::Ndi(d) => AppErrorView { kind: ErrorKind::Ndi, detail: d@ },
            AppError::Timeout(d) => AppErrorView { kind: ErrorKind::Timeout, detail: d@ },
            AppError::Io(d) => AppErrorView { kind: ErrorKind::Io, detail: d@ },
            AppError::Json(d) => AppErrorView { kind: ErrorKind::Json, detail: d@ },
        }
    }
}

/// The words that introduce the detail of each kind of error.
pub open spec fn kind_prefix(kind: ErrorKind) -> Seq<char> {
    match kind {
        ErrorKind::GStreamer => "GStreamer error: "@,
        ErrorKind::Pipeline => "Pipeline error: "@,
        ErrorKind::Output => "Output error: "@,
        ErrorKind::Project => "Project error: "@,
        ErrorKind::File => "File error: "@,
        ErrorKind::NotFound => "Not found: "@,
        ErrorKind::InvalidState => "Invalid state: "@,
        ErrorKind::Ndi => "NDI error: "@,
        ErrorKind::Timeout => "Timeout: "@,
        ErrorKind::Io => "IO error: "@,
        ErrorKind::Json => "JSON error: "@,
    }
}

/// The message shown for an error: the words of its kind, then its detail.
pub open spec fn message_of(e: AppErrorView) -> Seq<char> {
    kind_prefix(e.kind) + e.detail
}

impl Clone for AppError {
    fn clone(&self) -> (r: Self)
        ensures
            r == *self,
    {
        match self {
            AppError::GStreamer(d) => AppError::GStreamer(d.clone()),
            AppError::Pipeline(d) => AppError::Pipeline(d.clone()),
            AppError::Output(d) => AppError::Output(d.clone()),
            AppError::Project(d) => AppError::Project(d.clone()),
            AppError::File(d) => AppError::File(d.clone()),
            AppError::NotFound(d) => AppError::NotFound(d.clone()),
            AppError::InvalidState(d) => AppError::InvalidState(d.clone()),
            AppError::Ndi(d) => AppError::Ndi(d.clone()),
            AppError::Timeout(d) => AppError::Timeout(d.clone()),
            AppError::Io(d) => AppError::Io(d.clone()),
            AppError::Json(d) => AppError::Json(d.clone()),
        }
    }
}

impl AppError {
    /// The kind of this error.
    pub fn kind(&self) -> (k: ErrorKind)
        ensures
            k == self@.kind,
    {
        match self {
            AppError::GStreamer(_) => ErrorKind::GStreamer,
            AppError::Pipeline(_) => ErrorKind::Pipeline,
            AppError::Output(_) => ErrorKind::Output,
            AppError::Project(_) => ErrorKind::Project,
            AppError::File(_) => ErrorKind::File,
            AppError::NotFound(_) => ErrorKind::NotFound,
            AppError::InvalidState(_) => ErrorKind::InvalidState,
            AppError::Ndi(_) => ErrorKind::Ndi,
            AppError::Timeout(_) => ErrorKind::Timeout,
            AppError::Io(_) => ErrorKind::Io,
            AppError::Json(_) => ErrorKind::Json,
        }
    }

    /// The detail text of this error.
    pub fn detail(&self) -> (d: &String)
        ensures
            d@ == self@.detail,
    {
        match self {
            AppError::GStreamer(d) => d,
            AppError::Pipeline(d) => d,
            AppError::Output(d) => d,
            AppError::Project(d) => d,
            AppError::File(d) => d,
            AppError::NotFound(d) => d,
            AppError::InvalidState(d) => d,
            AppError::Ndi(d) => d,
            AppError::Timeout(d) => d,
            AppError::Io(d) => d,
            AppError::Json(d) => d,
        }
    }

    /// The message shown to the user for this error.
    pub fn message(&self) -> (m: String)
        ensures
            m@ == message_of(self@),
    {
        let prefix = match self {
            AppError::GStreamer(_) => "GStreamer error: ",
            AppError::Pipeline(_) => "Pipeline error: ",
            AppError::Output(_) => "Output error: ",
            AppError::Project(_) => "Project error: ",
            AppError::File(_) => "File error: ",
            AppError::NotFound(_) => "Not found: ",
            AppError::InvalidState(_) => "Invalid state: ",
            AppError::Ndi(_) => "NDI error: ",
            AppError::Timeout(_) => "Timeout: ",
            AppError::Io(_) => "IO error: ",
            AppError::Json(_) => "JSON error: ",
        };
        crate::text::concat2(prefix, self.detail().as_str())
    }
}

/// The result of an operation of the engine.
pub type AppResult<T> = Result<T, AppError>;

} // verus!
