//! The ways a run can fail.

use vstd::prelude::*;

verus! {

/// The families of failure.
#[derive(Clone, Copy, Debug, PartialEq, Eq, Structural)]
pub enum ErrorKind {
    Config,
    ToolVersion,
    PortResolution,
    Process,
    Input,
}

/// Every failure is fatal to the run; none is retried.
#[derive(Clone, Copy, Debug, PartialEq, Eq)]
pub enum Error {
    /// The board identifier names no supported board.
    UnknownBoard,
    /// The programmer tool reported no version.
    ToolMissing,
    /// The programmer tool is older than the minimum; holds what it reported.
    ToolVersionTooOld { major: u8, minor: u8 },
    /// No visible device is on the board's allow-list.
    PortNotFound,
    /// The board cannot be auto-detected and no port was given.
    PortUnsupported,
    /// The programmer process could not be started.
    SpawnFailed,
    /// The programmer process ended with this nonzero exit code.
    ProgrammingFailed(i32),
    /// The programmer process ended without an exit code.
    ProgrammerKilled,
    /// A console was asked for without a baud rate.
    MissingBaudRate,
    /// A console was asked for without a port.
    NoPortForConsole,
    /// The console ended on an I/O error.
    ConsoleFailed,
    /// An event arrived that the current state does not wait for.
    UnexpectedEvent,
}

/// The family a failure belongs to.
pub open spec fn kind_of(error: Error) -> ErrorKind {
    match error {
        Error::UnknownBoard => ErrorKind::Config,
        Error::ToolMissing | Error::ToolVersionTooOld { .. } => ErrorKind::ToolVersion,
        Error::PortNotFound | Error::PortUnsupported => ErrorKind::PortResolution,
        Error::SpawnFailed | Error::ProgrammingFailed(_) | Error::ProgrammerKilled
        | Error::UnexpectedEvent => ErrorKind::Process,
        Error::MissingBaudRate | Error::NoPortForConsole | Error::ConsoleFailed => ErrorKind::Input,
    }
}

/// The text shown to the operator for a failure.
pub open spec fn message_of(error: Error) -> Seq<char> {
    match error {
        Error::UnknownBoard => "board not found"@,
        Error::ToolMissing => "failed checking avrdude version"@,
        Error::ToolVersionTooOld { .. } => "avrdude is too old, at least version 6.3 is needed"@,
        Error::PortNotFound | Error::PortUnsupported =>
            "no matching serial port found, use -P or set WATERMAN_PORT in your environment"@,
        Error::SpawnFailed => "failed to start avrdude"@,
        Error::ProgrammingFailed(_) | Error::ProgrammerKilled => "avrdude failed"@,
        Error::MissingBaudRate => "-b/--baudrate is needed for the serial console"@,
        Error::NoPortForConsole =>
            "console can only be opened for devices with USB-to-Serial"@,
        Error::ConsoleFailed => "serial console failed"@,
        Error::UnexpectedEvent => "event out of turn"@,
    }
}

impl Error {
    pub fn kind(&self) -> (kind: ErrorKind)
        ensures
            kind == kind_of(*self),
    {
        match self {
            Error::UnknownBoard => ErrorKind::Config,
            Error::ToolMissing | Error::ToolVersionTooOld { .. } => ErrorKind::ToolVersion,
            Error::PortNotFound | Error::PortUnsupported => ErrorKind::PortResolution,
            Error::SpawnFailed | Error::ProgrammingFailed(_) | Error::ProgrammerKilled
            | Error::UnexpectedEvent => ErrorKind::Process,
            Error::MissingBaudRate | Error::NoPortForConsole | Error::ConsoleFailed => {
                ErrorKind::Input
            },
        }
    }

    pub fn message(&self) -> (text: &'static str)
        ensures
            text@ == message_of(*self),
    {
        match self {
            Error::UnknownBoard => "board not found",
            Error::ToolMissing => "failed checking avrdude version",
            Error::ToolVersionTooOld { .. } => "avrdude is too old, at least version 6.3 is needed",
            Error::PortNotFound | Error::PortUnsupported => {
                "no matching serial port found, use -P or set WATERMAN_PORT in your environment"
            },
            Error::SpawnFailed => "failed to start avrdude",
            Error::ProgrammingFailed(_) | Error::ProgrammerKilled => "avrdude failed",
            Error::MissingBaudRate => "-b/--baudrate is needed for the serial console",
            Error::NoPortForConsole => "console can only be opened for devices with USB-to-Serial",
            Error::ConsoleFailed => "serial console failed",
            Error::UnexpectedEvent => "event out of turn",
        }
    }
}

/// The process exit code for a run's outcome: 0 on success, 1 on any failure.
pub fn exit_code(outcome: &Result<(), Error>) -> (code: i32)
    ensures
        code == (if outcome is Ok { 0i32 } else { 1i32 }),
{
    match outcome {
        Ok(_) => 0,
        Err(_) => 1,
    }
}

} // verus!
