//! Error type shared by every command and parser.
//!
//! Each variant records one failure mode: `git` missing from `PATH`, a
//! non-zero exit, a timeout, a builder left without a required field, a path
//! that is not a repository, output a parser could not decode, and so on.
use vstd::prelude::*;

use crate::command::IntoText;
use crate::text::{debug_quoted, debug_text, text_of};

verus! {

/// `std::io::Error`, carried as the source of [`Error::Io`].
#[verifier::external_type_specification]
#[verifier::external_body]
pub struct ExIoError(std::io::Error);

/// Main error type for all operations of this crate.
#[derive(Debug)]
pub enum Error {
    /// Git binary not found in PATH.
    GitNotFound,
    /// Git version is below the minimum supported.
    UnsupportedVersion {
        /// Version reported by `git --version`.
        found: String,
        /// Minimum required version.
        minimum: String,
    },
    /// A git command exited with a non-zero status.
    CommandFailed {
        /// The full command line that was executed.
        command: String,
        /// Exit code returned by the command.
        exit_code: i32,
        /// Captured stdout.
        stdout: String,
        /// Captured stderr.
        stderr: String,
    },
    /// Failed to parse git output into a typed value.
    ParseError {
        /// Description of the parse failure.
        message: String,
    },
    /// Invalid configuration supplied to a builder.
    InvalidConfig {
        /// Description of the misconfiguration.
        message: String,
    },
    /// Operation targeted a path that is not a git repository.
    NotARepository {
        /// Path that was expected to be a repo.
        path: String,
    },
    /// IO error while spawning or reading from a git process.
    Io {
        /// Human-readable message.
        message: String,
        /// Underlying IO error.
        source: std::io::Error,
    },
    /// Command exceeded its configured timeout.
    Timeout {
        /// Configured timeout in seconds.
        timeout_seconds: u64,
    },
    /// Generic error with a custom message.
    Custom {
        /// Custom error message.
        message: String,
    },
}

/// Result type for this crate's operations.
pub type Result<T> = core::result::Result<T, Error>;

/// `e` is a [`Error::ParseError`] whose message is `m`.
pub open spec fn is_parse_error(e: Error, m: Seq<char>) -> bool {
    e matches Error::ParseError { message } && message@ == m
}

/// `e` is a [`Error::InvalidConfig`] whose message is `m`.
pub open spec fn is_invalid_config(e: Error, m: Seq<char>) -> bool {
    e matches Error::InvalidConfig { message } && message@ == m
}

/// The category name [`Error::category`] reports.
pub open spec fn category_of(e: Error) -> Seq<char> {
    match e {
        Error::GitNotFound | Error::UnsupportedVersion { .. } => "prerequisites"@,
        Error::CommandFailed { .. } | Error::Timeout { .. } => "command"@,
        Error::ParseError { .. } => "parsing"@,
        Error::InvalidConfig { .. } => "config"@,
        Error::NotARepository { .. } => "repository"@,
        Error::Io { .. } => "io"@,
        Error::Custom { .. } => "custom"@,
    }
}

/// The message that `Display` shows for an I/O error (`ToString::to_string`).
#[verifier::external_body]
fn io_error_text(err: &std::io::Error) -> String {
    err.to_string()
}

impl Error {
    /// Create a [`Error::CommandFailed`].
    pub fn command_failed(
        command: impl IntoText,
        exit_code: i32,
        stdout: impl IntoText,
        stderr: impl IntoText,
    ) -> (r: Self)
        ensures
            r matches Error::CommandFailed { command: c, exit_code: x, stdout: o, stderr: e }
                && c@ == command.text() && x == exit_code && o@ == stdout.text() && e@
                == stderr.text(),
    {
        Self::CommandFailed {
            command: command.into_text(),
            exit_code,
            stdout: stdout.into_text(),
            stderr: stderr.into_text(),
        }
    }

    /// Create a [`Error::ParseError`].
    pub fn parse_error(message: impl IntoText) -> (r: Self)
        ensures
            is_parse_error(r, message.text()),
    {
        Self::ParseError { message: message.into_text() }
    }

    /// Create a [`Error::InvalidConfig`].
    pub fn invalid_config(message: impl IntoText) -> (r: Self)
        ensures
            is_invalid_config(r, message.text()),
    {
        Self::InvalidConfig { message: message.into_text() }
    }

    /// Create a [`Error::NotARepository`].
    pub fn not_a_repository(path: impl IntoText) -> (r: Self)
        ensures
            r matches Error::NotARepository { path: p } && p@ == path.text(),
    {
        Self::NotARepository { path: path.into_text() }
    }

    /// Create a [`Error::Timeout`].
    pub fn timeout(timeout_seconds: u64) -> (r: Self)
        ensures
            r matches Error::Timeout { timeout_seconds: t } && t == timeout_seconds,
    {
        Self::Timeout { timeout_seconds }
    }

    /// Create a [`Error::Custom`].
    pub fn custom(message: impl IntoText) -> (r: Self)
        ensures
            r matches Error::Custom { message: m } && m@ == message.text(),
    {
        Self::Custom { message: message.into_text() }
    }

    /// A coarse category useful for logging and metrics.
    pub fn category(&self) -> (r: &'static str)
        ensures
            r@ == category_of(*self),
    {
        match self {
            Self::GitNotFound | Self::UnsupportedVersion { .. } => "prerequisites",
            Self::CommandFailed { .. } | Self::Timeout { .. } => "command",
            Self::ParseError { .. } => "parsing",
            Self::InvalidConfig { .. } => "config",
            Self::NotARepository { .. } => "repository",
            Self::Io { .. } => "io",
            Self::Custom { .. } => "custom",
        }
    }
}

/// A [`Error::ParseError`] whose message is `prefix` followed by the
/// `Debug` rendering of the offending line.
pub fn line_parse_error(prefix: &str, line: &Vec<char>) -> (e: Error)
    ensures
        is_parse_error(e, prefix@ + debug_quoted(line@)),
{
    let l = text_of(line);
    let d = debug_text(l.as_str());
    Error::parse_error(prefix.to_owned().concat(d.as_str()))
}

impl vstd::std_specs::convert::FromSpecImpl<std::io::Error> for Error {
    /// The message comes from the error's `Display` output, which is not
    /// stated here, so no exact result is promised.
    open spec fn obeys_from_spec() -> bool {
        false
    }

    open spec fn from_spec(v: std::io::Error) -> Self {
        Error::Io { message: arbitrary(), source: v }
    }
}

impl From<std::io::Error> for Error {
    /// An [`Error::Io`] carrying `err`; its message is what `err` displays.
    fn from(err: std::io::Error) -> (r: Self)
        ensures
            r matches Error::Io { source: s, .. } && s == err,
    {
        let message = io_error_text(&err);
        Self::Io { message, source: err }
    }
}

} // verus!
