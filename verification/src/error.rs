//! Error kinds and error values shared by every operation.
//!
//! A [`StoolError`] carries its [`StoolErrorType`], an optional message and,
//! where a lower-level failure caused it, the text of that failure.

use crate::text::opt_view;
use vstd::prelude::*;
use vstd::string::*;

verus! {

/// Error kinds of all operations.
#[derive(Debug, Clone, Copy, PartialEq, Eq, Structural)]
pub enum StoolErrorType {
    SshConnectionFailed,
    SshAuthenticationFailed,
    ServerNotFound,
    ExpectCommandFailed,
    FileNotFound,
    SearchPatternInvalid,
    FileTransferFailed,
    ScpCommandFailed,
    SftpCommandFailed,
    SourceFileNotFound,
    ConfigLoadFailed,
    ConfigParseError,
    YamlParseError,
    BrewUpdateFailed,
    RustupUpdateFailed,
    DockerCommandFailed,
    DockerNotInstalled,
    AwsCommandFailed,
    AwsCliNotInstalled,
    CommandExecutionFailed,
    InvalidInput,
    PermissionDenied,
    IoError,
    Cancelled,
}

/// The human-readable text of an error kind.
pub open spec fn error_type_text(t: StoolErrorType) -> Seq<char> {
    match t {
        StoolErrorType::SshConnectionFailed => "SSH connection failed"@,
        StoolErrorType::SshAuthenticationFailed => "SSH authentication failed"@,
        StoolErrorType::ServerNotFound => "Server not found"@,
        StoolErrorType::ExpectCommandFailed => "expect command failed"@,
        StoolErrorType::FileNotFound => "File not found"@,
        StoolErrorType::SearchPatternInvalid => "Invalid search pattern"@,
        StoolErrorType::FileTransferFailed => "File transfer failed"@,
        StoolErrorType::ScpCommandFailed => "scp command failed"@,
        StoolErrorType::SftpCommandFailed => "sftp command failed"@,
        StoolErrorType::SourceFileNotFound => "Source file not found"@,
        StoolErrorType::ConfigLoadFailed => "Config load failed"@,
        StoolErrorType::ConfigParseError => "Config parse error"@,
        StoolErrorType::YamlParseError => "YAML parse error"@,
        StoolErrorType::BrewUpdateFailed => "brew update failed"@,
        StoolErrorType::RustupUpdateFailed => "rustup update failed"@,
        StoolErrorType::DockerCommandFailed => "Docker command failed"@,
        StoolErrorType::DockerNotInstalled => "Docker not installed"@,
        StoolErrorType::AwsCommandFailed => "AWS command failed"@,
        StoolErrorType::AwsCliNotInstalled => "AWS CLI not installed"@,
        StoolErrorType::CommandExecutionFailed => "Command execution failed"@,
        StoolErrorType::InvalidInput => "Invalid input"@,
        StoolErrorType::PermissionDenied => "Permission denied"@,
        StoolErrorType::IoError => "I/O error"@,
        StoolErrorType::Cancelled => "Operation cancelled"@,
    }
}

impl StoolErrorType {
    /// The human-readable text of this kind, as printed for it.
    pub fn describe(&self) -> (res: String)
        ensures
            res@ == error_type_text(*self),
    {
        let s = match self {
            StoolErrorType::SshConnectionFailed => "SSH connection failed",
            StoolErrorType::SshAuthenticationFailed => "SSH authentication failed",
            StoolErrorType::ServerNotFound => "Server not found",
            StoolErrorType::ExpectCommandFailed => "expect command failed",
            StoolErrorType::FileNotFound => "File not found",
            StoolErrorType::SearchPatternInvalid => "Invalid search pattern",
            StoolErrorType::FileTransferFailed => "File transfer failed",
            StoolErrorType::ScpCommandFailed => "scp command failed",
            StoolErrorType::SftpCommandFailed => "sftp command failed",
            StoolErrorType::SourceFileNotFound => "Source file not found",
            StoolErrorType::ConfigLoadFailed => "Config load failed",
            StoolErrorType::ConfigParseError => "Config parse error",
            StoolErrorType::YamlParseError => "YAML parse error",
            StoolErrorType::BrewUpdateFailed => "brew update failed",
            StoolErrorType::RustupUpdateFailed => "rustup update failed",
            StoolErrorType::DockerCommandFailed => "Docker command failed",
            StoolErrorType::DockerNotInstalled => "Docker not installed",
            StoolErrorType::AwsCommandFailed => "AWS command failed",
            StoolErrorType::AwsCliNotInstalled => "AWS CLI not installed",
            StoolErrorType::CommandExecutionFailed => "Command execution failed",
            StoolErrorType::InvalidInput => "Invalid input",
            StoolErrorType::PermissionDenied => "Permission denied",
            StoolErrorType::IoError => "I/O error",
            StoolErrorType::Cancelled => "Operation cancelled",
        };
        String::from_str(s)
    }
}

/// An error with its kind, an optional message and the text of its cause.
#[derive(Debug)]
pub struct StoolError {
    pub error_type: StoolErrorType,
    pub message: Option<String>,
    pub source: Option<String>,
}

/// The mathematical value of a [`StoolError`].
pub struct StoolErrorView {
    pub error_type: StoolErrorType,
    pub message: Option<Seq<char>>,
    pub source: Option<Seq<char>>,
}

impl View for StoolError {
    type V = StoolErrorView;

    open spec fn view(&self) -> StoolErrorView {
        StoolErrorView {
            error_type: self.error_type,
            message: opt_view(self.message),
            source: opt_view(self.source),
        }
    }
}

/// The error value with the given parts.
pub open spec fn error_value(
    t: StoolErrorType,
    message: Option<Seq<char>>,
    source: Option<Seq<char>>,
) -> StoolErrorView {
    StoolErrorView { error_type: t, message, source }
}

/// How an error reads: its kind's text, then `": "` and the message if there is one.
pub open spec fn rendered(e: StoolErrorView) -> Seq<char> {
    match e.message {
        Some(m) => error_type_text(e.error_type) + ": "@ + m,
        None => error_type_text(e.error_type),
    }
}

impl StoolError {
    /// A new error of the given kind, with no message and no cause.
    pub fn new(error_type: StoolErrorType) -> (e: StoolError)
        ensures
            e@ == error_value(error_type, None, None),
    {
        StoolError { error_type, message: None, source: None }
    }

    /// This error with `message` as its message.
    pub fn with_message(self, message: &str) -> (e: StoolError)
        ensures
            e@ == error_value(self@.error_type, Some(message@), self@.source),
    {
        StoolError { error_type: self.error_type, message: Some(String::from_str(message)), source: self.source }
    }

    /// This error with `source` (the text of the underlying failure) as its cause.
    pub fn with_source(self, source: &str) -> (e: StoolError)
        ensures
            e@ == error_value(self@.error_type, self@.message, Some(source@)),
    {
        StoolError { error_type: self.error_type, message: self.message, source: Some(String::from_str(source)) }
    }

    /// An I/O failure with the text of the underlying error as its cause.
    pub fn from_io(source: &str) -> (e: StoolError)
        ensures
            e@ == error_value(StoolErrorType::IoError, None, Some(source@)),
    {
        StoolError::new(StoolErrorType::IoError).with_source(source)
    }

    /// How this error reads when printed.
    pub fn display(&self) -> (res: String)
        ensures
            res@ == rendered(self@),
    {
        let mut s = self.error_type.describe();
        match &self.message {
            Some(m) => {
                s.append(": ");
                s.append(m.as_str());
            },
            None => {},
        }
        s
    }
}

/// The result of a fallible operation.
pub type StoolResult<T> = Result<T, StoolError>;

} // verus!
