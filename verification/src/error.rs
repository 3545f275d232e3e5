//! The failures that the tool reports.

use vstd::prelude::*;
use crate::text::followed_by;

verus! {

/// Everything that can stop a run.
#[derive(Debug, PartialEq, Eq)]
pub enum AppError {
    /// Low-level I/O failure, held as the message of the underlying error.
    Io(String),
    /// JSON parsing or serialization failure.
    InvalidJson(String),
    /// Unsupported OS type.
    UnsupportedOs(String),
    /// Missing required environment variable.
    MissingEnv(String),
    /// Chrome is running and the caller did not ask to close it.
    ChromeRunning,
    /// Chrome still has not exited after it was asked to.
    ChromeStillRunning,
    /// Chrome configuration file not found.
    ConfigNotFound(String),
    /// Backup file not found.
    BackupNotFound(String),
    /// A path without a file name.
    InvalidPath(String),
    /// An external command could not do its work.
    CommandFailed { command: String, details: String },
}

/// Application-level result.
pub type AppResult<T> = Result<T, AppError>;

/// An [`AppError`] as a mathematical value.
pub enum ErrorView {
    Io(Seq<char>),
    InvalidJson(Seq<char>),
    UnsupportedOs(Seq<char>),
    MissingEnv(Seq<char>),
    ChromeRunning,
    ChromeStillRunning,
    ConfigNotFound(Seq<char>),
    BackupNotFound(Seq<char>),
    InvalidPath(Seq<char>),
    CommandFailed { command: Seq<char>, details: Seq<char> },
}

impl ErrorView {
    /// The line that a user reads for this failure.
    pub open spec fn message(self) -> Seq<char> {
        match self {
            ErrorView::Io(m) => m,
            ErrorView::InvalidJson(m) => "JSON processing failed: "@ + m,
            ErrorView::UnsupportedOs(m) => "Unsupported operating system: "@ + m,
            ErrorView::MissingEnv(m) => "Missing environment variable: "@ + m,
            ErrorView::ChromeRunning => "Chrome is running, please close it first"@,
            ErrorView::ChromeStillRunning =>
                "Chrome is still running, please confirm it has been fully closed"@,
            ErrorView::ConfigNotFound(p) => "Chrome configuration file not found: "@ + p,
            ErrorView::BackupNotFound(p) => "Backup file not found: "@ + p,
            ErrorView::InvalidPath(p) => "Invalid path: "@ + p,
            ErrorView::CommandFailed { command, details } =>
                "Command execution failed: "@ + command + " ("@ + details + ")"@,
        }
    }
}

impl View for AppError {
    type V = ErrorView;

    open spec fn view(&self) -> ErrorView {
        match self {
            AppError::Io(m) => ErrorView::Io(m@),
            AppError::InvalidJson(m) => ErrorView::InvalidJson(m@),
            AppError::UnsupportedOs(m) => ErrorView::UnsupportedOs(m@),
            AppError::MissingEnv(m) => ErrorView::MissingEnv(m@),
            AppError::ChromeRunning => ErrorView::ChromeRunning,
            AppError::ChromeStillRunning => ErrorView::ChromeStillRunning,
            AppError::ConfigNotFound(p) => ErrorView::ConfigNotFound(p@),
            AppError::BackupNotFound(p) => ErrorView::BackupNotFound(p@),
            AppError::InvalidPath(p) => ErrorView::InvalidPath(p@),
            AppError::CommandFailed { command, details } => ErrorView::CommandFailed {
                command: command@,
                details: details@,
            },
        }
    }
}

impl AppError {
    /// The line that a user reads for this failure.
    pub fn message(&self) -> (r: String)
        ensures
            r@ == self@.message(),
    {
        match self {
            AppError::Io(m) => m.clone(),
            AppError::InvalidJson(m) => followed_by("JSON processing failed: ", m.as_str()),
            AppError::UnsupportedOs(m) => followed_by("Unsupported operating system: ", m.as_str()),
            AppError::MissingEnv(m) => followed_by("Missing environment variable: ", m.as_str()),
            AppError::ChromeRunning => "Chrome is running, please close it first".to_owned(),
            AppError::ChromeStillRunning =>
                "Chrome is still running, please confirm it has been fully closed".to_owned(),
            AppError::ConfigNotFound(p) =>
                followed_by("Chrome configuration file not found: ", p.as_str()),
            AppError::BackupNotFound(p) => followed_by("Backup file not found: ", p.as_str()),
            AppError::InvalidPath(p) => followed_by("Invalid path: ", p.as_str()),
            AppError::CommandFailed { command, details } => {
                let mut r = followed_by("Command execution failed: ", command.as_str());
                r.append(" (");
                r.append(details.as_str());
                r.append(")");
                r
            },
        }
    }
}

} // verus!
