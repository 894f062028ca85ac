//! The errors a command can end with.

use vstd::prelude::*;

verus! {

/// What is wrong with a text that was to be read as a timeout.
#[derive(Debug, Clone, Copy, PartialEq, Eq, Structural)]
pub enum TimeoutFault {
    /// The text is empty.
    Empty,
    /// The text holds something that is no digit where a digit has to be: a
    /// letter, a blank, a sign behind the first place, or a sign and nothing
    /// behind it.
    InvalidDigit,
    /// The number is too large for an `i32`.
    PosOverflow,
    /// The number is too small for an `i32`.
    NegOverflow,
}

impl TimeoutFault {
    /// The text of [`TimeoutFault::describe`].
    pub open spec fn text(self) -> Seq<char> {
        match self {
            TimeoutFault::Empty => "ParseIntError { kind: Empty }"@,
            TimeoutFault::InvalidDigit => "ParseIntError { kind: InvalidDigit }"@,
            TimeoutFault::PosOverflow => "ParseIntError { kind: PosOverflow }"@,
            TimeoutFault::NegOverflow => "ParseIntError { kind: NegOverflow }"@,
        }
    }

    /// The fault as it is shown to the user: in the form in which the
    /// standard library shows the error of an integer that it could not read.
    pub fn describe(&self) -> (s: String)
        ensures
            s@ == self.text(),
    {
        match self {
            TimeoutFault::Empty => "ParseIntError { kind: Empty }".to_owned(),
            TimeoutFault::InvalidDigit => "ParseIntError { kind: InvalidDigit }".to_owned(),
            TimeoutFault::PosOverflow => "ParseIntError { kind: PosOverflow }".to_owned(),
            TimeoutFault::NegOverflow => "ParseIntError { kind: NegOverflow }".to_owned(),
        }
    }
}

/// Why a command did not do what it was asked to do.
#[derive(Debug, Clone, Copy, PartialEq, Eq, Structural)]
pub enum Error {
    /// The runtime knows no container of that name under that path.
    NotFound,
    /// The runtime could not set the container up: a name or path it cannot
    /// take, a broken configuration, a runtime that failed to initialise.
    InvalidConfig,
    /// The calling process may not control the container.
    PermissionDenied,
    /// The container was to be started and is running.
    AlreadyRunning,
    /// The container was to be stopped or entered and is not running.
    NotRunning,
    /// The runtime refused to start the container.
    StartFailed,
    /// The runtime could not kill the container.
    StopFailed,
    /// The container was asked to shut down and was still up when the wait
    /// ended.
    ShutdownTimedOut,
    /// An argument holds a NUL character and cannot be handed over as a C
    /// string.
    InvalidArgument,
    /// The timeout on the command line is no decimal number that fits an
    /// `i32`, for the reason given.
    InvalidTimeout(TimeoutFault),
}

impl Error {
    /// The text of [`Error::message`].
    pub open spec fn text(self) -> Seq<char> {
        match self {
            Error::NotFound => "Container not found"@,
            Error::InvalidConfig => "Invalid container configuration"@,
            Error::PermissionDenied => "Insufficient permissions"@,
            Error::AlreadyRunning => "Container already running"@,
            Error::NotRunning => "Container not running"@,
            Error::StartFailed => "Failed to start container"@,
            Error::StopFailed => "Failed to stop container"@,
            Error::ShutdownTimedOut => "Timed out waiting for container shutdown"@,
            Error::InvalidArgument => "Invalid argument"@,
            Error::InvalidTimeout(fault) => "Invalid timeout: "@ + fault.text(),
        }
    }

    /// What to tell the user.
    pub fn message(&self) -> (s: String)
        ensures
            s@ == self.text(),
    {
        match self {
            Error::NotFound => "Container not found".to_owned(),
            Error::InvalidConfig => "Invalid container configuration".to_owned(),
            Error::PermissionDenied => "Insufficient permissions".to_owned(),
            Error::AlreadyRunning => "Container already running".to_owned(),
            Error::NotRunning => "Container not running".to_owned(),
            Error::StartFailed => "Failed to start container".to_owned(),
            Error::StopFailed => "Failed to stop container".to_owned(),
            Error::ShutdownTimedOut => "Timed out waiting for container shutdown".to_owned(),
            Error::InvalidArgument => "Invalid argument".to_owned(),
            Error::InvalidTimeout(fault) => {
                let reason = fault.describe();
                "Invalid timeout: ".to_owned().concat(reason.as_str())
            },
        }
    }
}

/// The message of a refused timeout opens with `Invalid timeout: ` and goes
/// on with the reason.
pub proof fn lemma_invalid_timeout_message(fault: TimeoutFault)
    ensures
        ({
            let message = Error::InvalidTimeout(fault).text();
            let opening = "Invalid timeout: "@;
            &&& message.len() == opening.len() + fault.text().len()
            &&& message.subrange(0, opening.len() as int) == opening
            &&& message.subrange(opening.len() as int, message.len() as int) == fault.text()
        }),
{
}

} // verus!
