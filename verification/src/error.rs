//! Error taxonomy and process exit statuses.

use vstd::prelude::*;

verus! {

/// Exit status categories of the tool's process.
#[derive(Debug, Clone, Copy, PartialEq, Eq, Structural)]
pub enum ExitCode {
    /// Operation completed successfully.
    Success,
    /// A runtime error occurred.
    Error,
    /// The command line was invalid.
    Usage,
}

impl ExitCode {
    /// The numeric status this category maps to.
    pub open spec fn spec_code(self) -> int {
        match self {
            ExitCode::Success => 0,
            ExitCode::Error => 1,
            ExitCode::Usage => 2,
        }
    }

    /// The numeric status handed to the operating system.
    pub fn code(self) -> (r: i32)
        ensures
            r == self.spec_code(),
    {
        match self {
            ExitCode::Success => 0,
            ExitCode::Error => 1,
            ExitCode::Usage => 2,
        }
    }
}

impl From<ExitCode> for i32 {
    fn from(code: ExitCode) -> (r: i32)
        ensures
            r == code.spec_code(),
    {
        code.code()
    }
}

impl vstd::std_specs::convert::FromSpecImpl<ExitCode> for i32 {
    open spec fn obeys_from_spec() -> bool {
        true
    }

    open spec fn from_spec(code: ExitCode) -> i32 {
        match code {
            ExitCode::Success => 0,
            ExitCode::Error => 1,
            ExitCode::Usage => 2,
        }
    }
}

/// Everything that can go wrong, as a typed result the caller inspects.
#[derive(Debug)]
pub enum Error {
    /// Neither a graphical nor a console session was detected.
    UnsupportedEnvironment,
    /// The compositor lacks the output power management protocol.
    ProtocolNotSupported,
    /// No connected display output was found on the device.
    NoDisplayFound,
    /// The forked daemon never confirmed its start within the window.
    DaemonStartFailed,
    /// The daemon did not exit within the stop window.
    DaemonStopTimeout,
    /// Spawning the daemon process failed.
    ForkError(String),
    /// Sending or installing a signal failed.
    SignalError(String),
    /// Reading, writing or removing the daemon record failed.
    PidFileError(String),
    /// The display control device refused an operation.
    DrmError(String),
    /// The session broker refused an operation.
    SeatError(String),
    /// An input/output operation failed.
    Io(String),
    /// No discovered display name has the requested name as a prefix.
    DisplayNotFound { name: String, available: Vec<String> },
    /// Several discovered display names share the requested prefix.
    AmbiguousDisplay { name: String, candidates: Vec<String> },
}

/// The exact diagnostic text of each error.
pub open spec fn spec_message(e: &Error) -> Seq<char> {
    match e {
        Error::UnsupportedEnvironment => "Neither Wayland nor TTY environment available"@,
        Error::ProtocolNotSupported => "Compositor does not support power management protocol"@,
        Error::NoDisplayFound => "No connected display found"@,
        Error::DaemonStartFailed => "Daemon failed to start"@,
        Error::DaemonStopTimeout => "Daemon did not stop within timeout period"@,
        Error::ForkError(s) => "Fork failed: "@ + s@,
        Error::SignalError(s) => "Signal operation failed: "@ + s@,
        Error::PidFileError(s) => "PID file operation failed: "@ + s@,
        Error::DrmError(s) => "DRM operation failed: "@ + s@,
        Error::SeatError(s) => "libseat operation failed: "@ + s@,
        Error::Io(s) => "I/O error: "@ + s@,
        Error::DisplayNotFound { name, .. } => "Display not found: "@ + name@,
        Error::AmbiguousDisplay { name, .. } => "Ambiguous display name: "@ + name@,
    }
}

impl Error {
    /// Every runtime error exits with the same non-zero status.
    pub fn exit_code(&self) -> (r: ExitCode)
        ensures
            r == ExitCode::Error,
    {
        ExitCode::Error
    }

    /// The diagnostic text shown to the user for this error.
    pub fn message(&self) -> (r: String)
        ensures
            r@ == spec_message(self),
    {
        match self {
            Error::UnsupportedEnvironment => {
                "Neither Wayland nor TTY environment available".to_owned()
            },
            Error::ProtocolNotSupported => {
                "Compositor does not support power management protocol".to_owned()
            },
            Error::NoDisplayFound => "No connected display found".to_owned(),
            Error::DaemonStartFailed => "Daemon failed to start".to_owned(),
            Error::DaemonStopTimeout => "Daemon did not stop within timeout period".to_owned(),
            Error::ForkError(s) => "Fork failed: ".to_owned().concat(s.as_str()),
            Error::SignalError(s) => "Signal operation failed: ".to_owned().concat(s.as_str()),
            Error::PidFileError(s) => "PID file operation failed: ".to_owned().concat(s.as_str()),
            Error::DrmError(s) => "DRM operation failed: ".to_owned().concat(s.as_str()),
            Error::SeatError(s) => "libseat operation failed: ".to_owned().concat(s.as_str()),
            Error::Io(s) => "I/O error: ".to_owned().concat(s.as_str()),
            Error::DisplayNotFound { name, .. } => {
                "Display not found: ".to_owned().concat(name.as_str())
            },
            Error::AmbiguousDisplay { name, .. } => {
                "Ambiguous display name: ".to_owned().concat(name.as_str())
            },
        }
    }
}

} // verus!
