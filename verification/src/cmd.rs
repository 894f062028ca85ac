//! What the command line asks for, and how a command ends.

use vstd::prelude::*;

use crate::error::Error;
use crate::timeout::{parse_timeout, timeout_of};

verus! {

/// The exit code of a command that failed.
pub const EXIT_FAILURE: i32 = 1;

/// What to do with a container.
#[derive(Debug, PartialEq, Eq)]
pub enum Command {
    /// Bring the container up.
    Start {
        /// Handed to the runtime as it is.
        daemonize: bool,
    },
    /// Bring the container down.
    Stop {
        /// Kill it at once, without asking it to shut down.
        force: bool,
        /// How many seconds to wait for a shutdown; negative for as long as
        /// it takes. Counts for nothing with `force`.
        timeout: i32,
    },
    /// Run a program inside the running container and wait for it.
    Exec {
        /// The command line; the program is its first string.
        argv: Vec<String>,
    },
}

/// A [`Command`] as plain values.
pub enum CommandView {
    Start { daemonize: bool },
    Stop { force: bool, timeout: i32 },
    Exec { argv: Seq<Seq<char>> },
}

impl View for Command {
    type V = CommandView;

    open spec fn view(&self) -> CommandView {
        match self {
            Command::Start { daemonize } => CommandView::Start { daemonize: *daemonize },
            Command::Stop { force, timeout } => CommandView::Stop {
                force: *force,
                timeout: *timeout,
            },
            Command::Exec { argv } => CommandView::Exec { argv: argv.deep_view() },
        }
    }
}

impl Command {
    /// The `start` of the command line, which never daemonizes.
    pub fn start() -> (command: Command)
        ensures
            command@ == (CommandView::Start { daemonize: false }),
    {
        Command::Start { daemonize: false }
    }

    /// The `stop` of the command line, with its `--force` flag and its
    /// timeout argument as it was typed.
    ///
    /// The timeout is read even where `force` leaves it unused, and a bad one
    /// fails the command before anything is done to the container.
    pub fn stop(force: bool, timeout: Option<&str>) -> (r: Result<Command, Error>)
        ensures
            match timeout_of(
                match timeout {
                    Some(text) => Some(text@),
                    None => None,
                },
            ) {
                Ok(seconds) => r is Ok && r->Ok_0@ == (CommandView::Stop {
                    force,
                    timeout: seconds,
                }),
                Err(fault) => r == Err::<Command, Error>(Error::InvalidTimeout(fault)),
            },
    {
        match parse_timeout(timeout) {
            Ok(seconds) => Ok(Command::Stop { force, timeout: seconds }),
            Err(e) => Err(e),
        }
    }

    /// The `exec` of the command line, with the program and its arguments.
    pub fn exec(argv: Vec<String>) -> (command: Command)
        ensures
            command@ == (CommandView::Exec { argv: argv.deep_view() }),
    {
        Command::Exec { argv }
    }
}

/// How a command ended.
#[derive(Debug, Clone, Copy, PartialEq, Eq)]
pub enum Outcome {
    /// `start` or `stop` did what it was asked to do.
    Completed,
    /// `start` or `stop` did not, for this reason.
    Failed(Error),
    /// `exec` is over. It never fails with an error: it ends with the status
    /// of the program, or with [`EXIT_FAILURE`] where the program could not
    /// be run.
    Exited {
        /// The exit code to pass on.
        code: i32,
        /// Why the program was not run, where the user is told.
        notice: Option<Error>,
    },
}

impl Outcome {
    /// The code that the process exits with.
    pub open spec fn status(self) -> i32 {
        match self {
            Outcome::Completed => 0,
            Outcome::Failed(_) => EXIT_FAILURE,
            Outcome::Exited { code, .. } => code,
        }
    }

    /// The line for the error stream, if there is one.
    pub open spec fn complaint(self) -> Option<Seq<char>> {
        match self {
            Outcome::Completed => None,
            Outcome::Failed(error) => Some("error: "@ + error.text()),
            Outcome::Exited { notice: Some(error), .. } => Some(error.text()),
            Outcome::Exited { notice: None, .. } => None,
        }
    }

    /// The code that the process exits with: zero after success,
    /// [`EXIT_FAILURE`] after an error, and after `exec` the code it ended
    /// with.
    pub fn exit_code(&self) -> (code: i32)
        ensures
            code == self.status(),
    {
        match self {
            Outcome::Completed => 0,
            Outcome::Failed(_) => EXIT_FAILURE,
            Outcome::Exited { code, .. } => *code,
        }
    }

    /// The line to print on the error stream, if any: an error is printed
    /// behind `error: `, the notice of an `exec` bare.
    pub fn report(&self) -> (line: Option<String>)
        ensures
            match self.complaint() {
                Some(text) => line is Some && line->Some_0@ == text,
                None => line is None,
            },
    {
        match self {
            Outcome::Completed => None,
            Outcome::Failed(error) => {
                let message = error.message();
                Some("error: ".to_owned().concat(message.as_str()))
            },
            Outcome::Exited { notice: Some(error), .. } => Some(error.message()),
            Outcome::Exited { notice: None, .. } => None,
        }
    }
}

} // verus!
