//! The handle of one container, and the calls into the runtime that a
//! command is made of.
//!
//! A handle never calls the runtime. It names the next call as an
//! [`Action`], takes what the runtime answered as an [`Event`], and goes on
//! from there until the command has its [`Outcome`]:
//!
//! 1. open the container by its name and path;
//! 2. ask whether the calling process may control it;
//! 3. ask whether it is running;
//! 4. start it, stop it, shut it down, or run a program in it.
//!
//! The first answer that rules the command out ends it. Whoever drives a
//! handle performs each action as it is named and hands the answer back:
//!
//! ```text
//! let (mut lxc, mut action) = Lxc::new(name, path, command);
//! loop {
//!     let event = match action {
//!         Action::Finish(outcome) => return outcome,
//!         other => perform(other),
//!     };
//!     action = lxc.step(event);
//! }
//! ```

use vstd::prelude::*;

use crate::cmd::{Command, CommandView, Outcome, EXIT_FAILURE};
use crate::error::Error;
use crate::util::ffi::{has_nul, CStringVec, RawPtr};

verus! {

/// What the runtime made of the request to open a container.
#[derive(Debug, Clone, Copy, PartialEq, Eq, Structural)]
pub enum OpenStatus {
    /// The container is there and the runtime holds an object for it.
    Ready,
    /// There is no such container.
    NotFound,
    /// The runtime could not set the container up.
    InvalidConfig,
}

/// An answer of the runtime.
#[derive(Debug, Clone, Copy, PartialEq, Eq)]
pub enum Event {
    /// The answer to [`Action::Open`].
    Opened(OpenStatus),
    /// The answer to a question, or whether the runtime did what it was
    /// asked to do.
    Flag(bool),
    /// The answer to [`Action::AttachRunWait`]: the status of the program,
    /// or a negative number if the runtime could not attach or run it.
    Status(i32),
    /// No answer: the call could not be made at all. It counts as an answer
    /// of the wrong kind to whatever was asked.
    Unanswered,
}

/// What became of the request to open a container: whether the runtime
/// `created` its object for the container, and whether the container is
/// `defined` there.
///
/// Without an object the runtime could not set the container up. With an
/// object for a container that is not defined, there is no such container.
pub fn open_status(created: bool, defined: bool) -> (status: OpenStatus)
    ensures
        status == if !created {
            OpenStatus::InvalidConfig
        } else if !defined {
            OpenStatus::NotFound
        } else {
            OpenStatus::Ready
        },
{
    if !created {
        OpenStatus::InvalidConfig
    } else if !defined {
        OpenStatus::NotFound
    } else {
        OpenStatus::Ready
    }
}

/// The next thing to do for a command.
#[derive(Debug, PartialEq, Eq)]
pub enum Action {
    /// Open the container; answered by [`Event::Opened`].
    Open { name: String, path: Option<String> },
    /// Ask whether the calling process may control the container; answered
    /// by [`Event::Flag`].
    MayControl,
    /// Ask whether the container is running; answered by [`Event::Flag`].
    IsRunning,
    /// Start the container; answered by [`Event::Flag`].
    Start { daemonize: bool },
    /// Kill the container; answered by [`Event::Flag`].
    Stop,
    /// Ask the container to shut down and wait `timeout` seconds for it, or
    /// without bound if `timeout` is negative; answered by [`Event::Flag`].
    Shutdown { timeout: i32 },
    /// Run `program` with the command line `argv` inside the container and
    /// wait for it; answered by [`Event::Status`].
    AttachRunWait { program: String, argv: CStringVec },
    /// Nothing: the command is over.
    Finish(Outcome),
}

/// An [`Action`] as plain values.
pub enum ActionView {
    Open { name: Seq<char>, path: Option<Seq<char>> },
    MayControl,
    IsRunning,
    Start { daemonize: bool },
    Stop,
    Shutdown { timeout: i32 },
    AttachRunWait { program: Seq<char>, argv: Seq<Seq<char>> },
    Finish(Outcome),
}

impl View for Action {
    type V = ActionView;

    open spec fn view(&self) -> ActionView {
        match self {
            Action::Open { name, path } => ActionView::Open {
                name: name@,
                path: path.deep_view(),
            },
            Action::MayControl => ActionView::MayControl,
            Action::IsRunning => ActionView::IsRunning,
            Action::Start { daemonize } => ActionView::Start { daemonize: *daemonize },
            Action::Stop => ActionView::Stop,
            Action::Shutdown { timeout } => ActionView::Shutdown { timeout: *timeout },
            Action::AttachRunWait { program, argv } => ActionView::AttachRunWait {
                program: program@,
                argv: argv@,
            },
            Action::Finish(outcome) => ActionView::Finish(*outcome),
        }
    }
}

impl Action {
    /// Whether the command line that this action hands on, if it hands one
    /// on, is as [`CStringVec::from_args`] made it: its raw version has not
    /// been laid out yet.
    pub open spec fn argv_is_fresh(&self) -> bool {
        self matches Action::AttachRunWait { argv, .. } ==> argv.raw() == Seq::<RawPtr>::empty()
    }
}

/// How far a command has come.
#[derive(Debug, Clone, Copy, PartialEq, Eq)]
pub enum Phase {
    /// The container is being opened.
    Opening,
    /// The container is open; the permission of the caller is being asked.
    CheckingControl,
    /// The caller may control the container; its state is being asked.
    CheckingState,
    /// The command is being carried out.
    Acting,
    /// The command is over.
    Finished(Outcome),
}

/// Whether the runtime can be handed `name` and `path` at all.
pub open spec fn identity_fits(name: Seq<char>, path: Option<Seq<char>>) -> bool {
    &&& !has_nul(name)
    &&& path matches Some(p) ==> !has_nul(p)
}

/// Whether `argv` can be run: it names a program, and each of its strings
/// can be handed over as a C string.
pub open spec fn argv_fits(argv: Seq<Seq<char>>) -> bool {
    &&& argv.len() > 0
    &&& forall|i: int| 0 <= i < argv.len() ==> !has_nul(#[trigger] argv[i])
}

impl CommandView {
    /// How this command ends when `error` stands in its way.
    ///
    /// `start` and `stop` fail with the error. `exec` exits with
    /// [`EXIT_FAILURE`], and tells the user only of a missing permission and
    /// of a container that is not running.
    pub open spec fn stopped_by(self, error: Error) -> Outcome {
        match self {
            CommandView::Exec { .. } => Outcome::Exited {
                code: EXIT_FAILURE,
                notice: if error == Error::PermissionDenied || error == Error::NotRunning {
                    Some(error)
                } else {
                    None
                },
            },
            _ => Outcome::Failed(error),
        }
    }

    /// How this command ends when the runtime did not carry it out.
    pub open spec fn refused(self) -> Outcome {
        match self {
            CommandView::Start { .. } => Outcome::Failed(Error::StartFailed),
            CommandView::Stop { force, .. } => Outcome::Failed(
                if force {
                    Error::StopFailed
                } else {
                    Error::ShutdownTimedOut
                },
            ),
            CommandView::Exec { .. } => Outcome::Exited { code: EXIT_FAILURE, notice: None },
        }
    }

    /// How this command ends when the runtime answered `event` to its last
    /// action.
    pub open spec fn settled_by(self, event: Event) -> Outcome {
        match (self, event) {
            (CommandView::Exec { .. }, Event::Status(status)) => Outcome::Exited {
                code: if status < 0 {
                    EXIT_FAILURE
                } else {
                    status
                },
                notice: None,
            },
            (CommandView::Start { .. }, Event::Flag(true)) => Outcome::Completed,
            (CommandView::Stop { .. }, Event::Flag(true)) => Outcome::Completed,
            _ => self.refused(),
        }
    }

    /// Whether this command wants the container running.
    pub open spec fn wants_running(self) -> bool {
        !(self is Start)
    }

    /// The last action of this command.
    pub open spec fn action(self) -> ActionView {
        match self {
            CommandView::Start { daemonize } => ActionView::Start { daemonize },
            CommandView::Stop { force, timeout } => if force {
                ActionView::Stop
            } else {
                ActionView::Shutdown { timeout }
            },
            CommandView::Exec { argv } => ActionView::AttachRunWait { program: argv[0], argv },
        }
    }
}

/// A [`Lxc`] as plain values.
pub struct LxcView {
    pub name: Seq<char>,
    pub path: Option<Seq<char>>,
    pub command: CommandView,
    pub phase: Phase,
}

impl LxcView {
    /// The handle that [`Lxc::new`] makes.
    pub open spec fn initial(
        name: Seq<char>,
        path: Option<Seq<char>>,
        command: CommandView,
    ) -> LxcView {
        LxcView {
            name,
            path,
            command,
            phase: if identity_fits(name, path) {
                Phase::Opening
            } else {
                Phase::Finished(command.stopped_by(Error::InvalidConfig))
            },
        }
    }

    /// This handle in another phase.
    pub open spec fn at(self, phase: Phase) -> LxcView {
        LxcView { phase, ..self }
    }

    /// This handle with its command ended by `error`.
    pub open spec fn stopped_by(self, error: Error) -> LxcView {
        self.at(Phase::Finished(self.command.stopped_by(error)))
    }

    /// The action that this handle waits for an answer to.
    pub open spec fn pending(self) -> ActionView {
        match self.phase {
            Phase::Opening => ActionView::Open { name: self.name, path: self.path },
            Phase::CheckingControl => ActionView::MayControl,
            Phase::CheckingState => ActionView::IsRunning,
            Phase::Acting => self.command.action(),
            Phase::Finished(outcome) => ActionView::Finish(outcome),
        }
    }

    /// This handle after the runtime answered `event` to its pending action.
    ///
    /// An answer of the wrong kind counts for a failure: of the opening while
    /// the container is opened, of the command itself from then on.
    pub open spec fn next(self, event: Event) -> LxcView {
        match self.phase {
            Phase::Opening => match event {
                Event::Opened(OpenStatus::Ready) => self.at(Phase::CheckingControl),
                Event::Opened(OpenStatus::NotFound) => self.stopped_by(Error::NotFound),
                _ => self.stopped_by(Error::InvalidConfig),
            },
            Phase::CheckingControl => match event {
                Event::Flag(true) => self.at(Phase::CheckingState),
                Event::Flag(false) => self.stopped_by(Error::PermissionDenied),
                _ => self.at(Phase::Finished(self.command.refused())),
            },
            Phase::CheckingState => match event {
                Event::Flag(running) => if running != self.command.wants_running() {
                    self.stopped_by(
                        if running {
                            Error::AlreadyRunning
                        } else {
                            Error::NotRunning
                        },
                    )
                } else if self.command matches CommandView::Exec { argv } && !argv_fits(argv) {
                    self.at(Phase::Finished(self.command.refused()))
                } else {
                    self.at(Phase::Acting)
                },
                _ => self.at(Phase::Finished(self.command.refused())),
            },
            Phase::Acting => self.at(Phase::Finished(self.command.settled_by(event))),
            Phase::Finished(_) => self,
        }
    }

    /// How many answers this handle can still take before its command is
    /// over.
    pub open spec fn steps_left(self) -> nat {
        match self.phase {
            Phase::Opening => 4,
            Phase::CheckingControl => 3,
            Phase::CheckingState => 2,
            Phase::Acting => 1,
            Phase::Finished(_) => 0,
        }
    }
}

/// The handle of one container for one command.
///
/// The name and the path that it was made with are its identity, and stay
/// what they are. What the container does is never kept here: every command
/// asks the runtime anew.
#[derive(Debug)]
pub struct Lxc {
    name: String,
    path: Option<String>,
    command: Command,
    phase: Phase,
}

impl View for Lxc {
    type V = LxcView;

    closed spec fn view(&self) -> LxcView {
        LxcView {
            name: self.name@,
            path: self.path.deep_view(),
            command: self.command@,
            phase: self.phase,
        }
    }
}

/// Whether `name` and `path` can be handed to the runtime.
fn check_identity(name: &str, path: Option<&str>) -> (fits: bool)
    ensures
        fits == identity_fits(
            name@,
            match path {
                Some(p) => Some(p@),
                None => None,
            },
        ),
{
    if crate::util::ffi::contains_nul(name) {
        return false;
    }
    match path {
        Some(p) => !crate::util::ffi::contains_nul(p),
        None => true,
    }
}

impl Command {
    /// How this command ends when `error` stands in its way.
    fn stopped_by(&self, error: Error) -> (outcome: Outcome)
        ensures
            outcome == self@.stopped_by(error),
    {
        match self {
            Command::Exec { .. } => {
                let notice = match error {
                    Error::PermissionDenied => Some(error),
                    Error::NotRunning => Some(error),
                    _ => None,
                };
                Outcome::Exited { code: EXIT_FAILURE, notice }
            },
            _ => Outcome::Failed(error),
        }
    }

    /// How this command ends when the runtime did not carry it out.
    fn refused(&self) -> (outcome: Outcome)
        ensures
            outcome == self@.refused(),
    {
        match self {
            Command::Start { .. } => Outcome::Failed(Error::StartFailed),
            Command::Stop { force, .. } => if *force {
                Outcome::Failed(Error::StopFailed)
            } else {
                Outcome::Failed(Error::ShutdownTimedOut)
            },
            Command::Exec { .. } => Outcome::Exited { code: EXIT_FAILURE, notice: None },
        }
    }

    /// How this command ends when the runtime answered `event` to its last
    /// action.
    fn settled_by(&self, event: Event) -> (outcome: Outcome)
        ensures
            outcome == self@.settled_by(event),
    {
        match (self, event) {
            (Command::Exec { .. }, Event::Status(status)) => Outcome::Exited {
                code: if status < 0 {
                    EXIT_FAILURE
                } else {
                    status
                },
                notice: None,
            },
            (Command::Start { .. }, Event::Flag(true)) => Outcome::Completed,
            (Command::Stop { .. }, Event::Flag(true)) => Outcome::Completed,
            _ => self.refused(),
        }
    }

    /// The last action of this command, or nothing if it is an `exec` that
    /// cannot be run.
    fn action(&self) -> (action: Option<Action>)
        ensures
            match action {
                Some(a) => a@ == self@.action() && a.argv_is_fresh() && (self@ matches CommandView::Exec {
                    argv,
                } ==> argv_fits(argv)),
                None => self@ matches CommandView::Exec { argv } && !argv_fits(argv),
            },
    {
        match self {
            Command::Start { daemonize } => Some(Action::Start { daemonize: *daemonize }),
            Command::Stop { force, timeout } => if *force {
                Some(Action::Stop)
            } else {
                Some(Action::Shutdown { timeout: *timeout })
            },
            Command::Exec { argv } => {
                if argv.len() == 0 {
                    return None;
                }
                match CStringVec::from_args(argv) {
                    Ok(marshalled) => {
                        Some(Action::AttachRunWait { program: argv[0].clone(), argv: marshalled })
                    },
                    Err(_) => {
                        proof {
                            let i = choose|i: int| 0 <= i < argv.len() && has_nul(#[trigger] argv[i]@);
                            assert(argv.deep_view()[i] == argv[i]@);
                        }
                        None
                    },
                }
            },
        }
    }
}

impl Lxc {
    /// A handle for the container `name` under `path`, to carry out
    /// `command`, and the first thing to do.
    ///
    /// Without a path the runtime looks where it keeps its containers by
    /// default. A name or a path that cannot be handed to the runtime ends
    /// the command on the spot, with [`Error::InvalidConfig`].
    pub fn new(name: &str, path: Option<&str>, command: Command) -> (r: (Lxc, Action))
        ensures
            r.0@ == LxcView::initial(
                name@,
                match path {
                    Some(p) => Some(p@),
                    None => None,
                },
                command@,
            ),
            r.1@ == r.0@.pending(),
            r.1.argv_is_fresh(),
    {
        let phase = if check_identity(name, path) {
            Phase::Opening
        } else {
            Phase::Finished(command.stopped_by(Error::InvalidConfig))
        };
        let path = match path {
            Some(p) => Some(p.to_owned()),
            None => None,
        };
        let lxc = Lxc { name: name.to_owned(), path, command, phase };
        let action = match phase {
            Phase::Finished(outcome) => Action::Finish(outcome),
            _ => Action::Open { name: lxc.name.clone(), path: lxc.path.clone() },
        };
        (lxc, action)
    }

    /// The name of the container.
    pub fn name(&self) -> (name: &str)
        ensures
            name@ == self@.name,
    {
        self.name.as_str()
    }

    /// The path under which the container is kept, unless it is the default
    /// of the runtime.
    pub fn path(&self) -> (path: Option<&str>)
        ensures
            match path {
                Some(p) => self@.path == Some(p@),
                None => self@.path is None,
            },
    {
        match &self.path {
            Some(p) => Some(p.as_str()),
            None => None,
        }
    }

    /// How the command ended, once it is over.
    pub fn outcome(&self) -> (outcome: Option<Outcome>)
        ensures
            match outcome {
                Some(o) => self@.phase == Phase::Finished(o),
                None => !(self@.phase is Finished),
            },
    {
        match self.phase {
            Phase::Finished(outcome) => Some(outcome),
            _ => None,
        }
    }

    /// Take the answer of the runtime to the pending action, and name the
    /// next one.
    ///
    /// Each answer brings the command one phase on or ends it, and
    /// [`Action::Finish`] is all that comes once it has ended. The identity
    /// and the command stay what they are.
    pub fn step(&mut self, event: Event) -> (action: Action)
        ensures
            final(self)@ == old(self)@.next(event),
            action@ == final(self)@.pending(),
            action.argv_is_fresh(),
            final(self)@.name == old(self)@.name,
            final(self)@.path == old(self)@.path,
            final(self)@.command == old(self)@.command,
            old(self)@.steps_left() > 0 ==> final(self)@.steps_left() < old(self)@.steps_left(),
    {
        match self.phase {
            Phase::Opening => match event {
                Event::Opened(OpenStatus::Ready) => {
                    self.phase = Phase::CheckingControl;
                    Action::MayControl
                },
                Event::Opened(OpenStatus::NotFound) => self.finish(
                    self.command.stopped_by(Error::NotFound),
                ),
                _ => self.finish(self.command.stopped_by(Error::InvalidConfig)),
            },
            Phase::CheckingControl => match event {
                Event::Flag(true) => {
                    self.phase = Phase::CheckingState;
                    Action::IsRunning
                },
                Event::Flag(false) => self.finish(
                    self.command.stopped_by(Error::PermissionDenied),
                ),
                _ => self.finish(self.command.refused()),
            },
            Phase::CheckingState => match event {
                Event::Flag(running) => {
                    let wanted = match self.command {
                        Command::Start { .. } => false,
                        _ => true,
                    };
                    if running != wanted {
                        let error = if running {
                            Error::AlreadyRunning
                        } else {
                            Error::NotRunning
                        };
                        self.finish(self.command.stopped_by(error))
                    } else {
                        match self.command.action() {
                            Some(action) => {
                                self.phase = Phase::Acting;
                                action
                            },
                            None => self.finish(self.command.refused()),
                        }
                    }
                },
                _ => self.finish(self.command.refused()),
            },
            Phase::Acting => self.finish(self.command.settled_by(event)),
            Phase::Finished(outcome) => Action::Finish(outcome),
        }
    }

    /// End the command with `outcome`.
    fn finish(&mut self, outcome: Outcome) -> (action: Action)
        ensures
            final(self)@ == old(self)@.at(Phase::Finished(outcome)),
            action@ == ActionView::Finish(outcome),
    {
        self.phase = Phase::Finished(outcome);
        Action::Finish(outcome)
    }
}

} // verus!
