//! What a command does to a container.
//!
//! A handle only names calls and reads answers, so by itself it says nothing
//! of containers. This module puts a container beside it: [`Container`] is
//! one container as the runtime presents it to the calling process, with the
//! answers it gives and the way it changes, and [`run`] is a command driven
//! against it to its end. The laws below are stated of the two together.
//! All of it is ghost: it exists for the verifier and is gone from the
//! compiled crate.

use vstd::prelude::*;

use crate::cmd::{CommandView, Outcome, EXIT_FAILURE};
use crate::error::Error;
use crate::lxc::{argv_fits, identity_fits, ActionView, Event, LxcView, OpenStatus, Phase};

verus! {

/// One container, as the runtime presents it to the calling process.
pub struct Container {
    /// What comes of opening it.
    pub status: OpenStatus,
    /// Whether the calling process may control it.
    pub may_control: bool,
    /// Whether it is running.
    pub running: bool,
    /// Whether it comes up when started.
    pub startable: bool,
    /// Whether it goes down when killed.
    pub killable: bool,
    /// How many seconds it takes to shut down when asked to, or `None` if it
    /// pays no attention.
    pub shutdown_delay: Option<nat>,
    /// The status that a program run inside it ends with.
    pub exit_status: i32,
}

impl Container {
    /// Whether the runtime does what `action` asks for. It does nothing for
    /// a process that may not control the container, starts only what is
    /// down, and stops only what is up; a shutdown has to be over within its
    /// timeout unless that is negative.
    pub open spec fn obeys(self, action: ActionView) -> bool {
        match action {
            ActionView::Start { .. } => self.may_control && !self.running && self.startable,
            ActionView::Stop => self.may_control && self.running && self.killable,
            ActionView::Shutdown { timeout } => self.may_control && self.running && (
            self.shutdown_delay matches Some(delay) && (timeout < 0 || delay <= timeout)),
            _ => false,
        }
    }

    /// Whether `action` never returns: a shutdown without bound of a
    /// container that pays no attention.
    pub open spec fn hangs(self, action: ActionView) -> bool {
        action matches ActionView::Shutdown { timeout } && timeout < 0 && self.may_control
            && self.running && self.shutdown_delay is None
    }

    /// What the runtime answers to `action`, if the call returns.
    pub open spec fn answer(self, action: ActionView) -> Option<Event> {
        match action {
            ActionView::Open { .. } => Some(Event::Opened(self.status)),
            ActionView::MayControl => Some(Event::Flag(self.may_control)),
            ActionView::IsRunning => Some(Event::Flag(self.running)),
            ActionView::AttachRunWait { .. } => Some(
                Event::Status(
                    if self.may_control && self.running {
                        self.exit_status
                    } else {
                        -1i32
                    },
                ),
            ),
            ActionView::Finish(_) => None,
            _ => if self.hangs(action) {
                None
            } else {
                Some(Event::Flag(self.obeys(action)))
            },
        }
    }

    /// The container after `action`: up after a start that the runtime
    /// carried out, down after such a stop or shutdown, and else as it was.
    pub open spec fn after(self, action: ActionView) -> Container {
        if self.obeys(action) {
            Container { running: action is Start, ..self }
        } else {
            self
        }
    }
}

/// A command driven to its end: each pending action is answered by
/// `container`, which changes as it goes. The result is how the command
/// ended and what became of the container, or nothing if a call never
/// returned.
pub open spec fn run(lxc: LxcView, container: Container) -> Option<(Outcome, Container)>
    decreases lxc.steps_left(),
{
    match lxc.pending() {
        ActionView::Finish(outcome) => Some((outcome, container)),
        action => match container.answer(action) {
            Some(event) => run(lxc.next(event), container.after(action)),
            None => None,
        },
    }
}

/// Opening a container that is there succeeds, whatever the command, and the
/// handle keeps the name and the path that it was made with.
pub proof fn lemma_open_keeps_identity(
    name: Seq<char>,
    path: Option<Seq<char>>,
    command: CommandView,
    container: Container,
)
    requires
        identity_fits(name, path),
        container.status == OpenStatus::Ready,
    ensures
        ({
            let lxc = LxcView::initial(name, path, command);
            let opened = lxc.next(container.answer(lxc.pending())->Some_0);
            &&& lxc.pending() == (ActionView::Open { name, path })
            &&& opened.phase == Phase::CheckingControl
            &&& opened.name == name
            &&& opened.path == path
        }),
{
}

/// No answer changes the identity or the command of a handle.
pub proof fn lemma_identity_is_fixed(lxc: LxcView, event: Event)
    ensures
        lxc.next(event).name == lxc.name,
        lxc.next(event).path == lxc.path,
        lxc.next(event).command == lxc.command,
{
}

/// Every answer brings a command nearer to its end, and four are the most
/// that it takes. Once over, a command stays as it ended.
pub proof fn lemma_commands_end(lxc: LxcView, event: Event)
    ensures
        lxc.steps_left() <= 4,
        lxc.steps_left() == 0 <==> lxc.phase is Finished,
        lxc.steps_left() > 0 ==> lxc.next(event).steps_left() < lxc.steps_left(),
        lxc.phase is Finished ==> lxc.next(event) == lxc,
{
}

/// A handle names nothing that changes a container before it was told that
/// the caller may control the container and what state it is in.
pub proof fn lemma_checks_come_first(lxc: LxcView)
    requires
        lxc.phase is Opening || lxc.phase is CheckingControl || lxc.phase is CheckingState,
    ensures
        lxc.pending() is Open || lxc.pending() is MayControl || lxc.pending() is IsRunning,
{
}

/// A handle names an action that changes a container, or runs a program in
/// it, only after three answers: that the container is open, that the caller
/// may control it, and that it is in the state that the command wants.
pub proof fn lemma_acting_needs_every_check(
    name: Seq<char>,
    path: Option<Seq<char>>,
    command: CommandView,
    first: Event,
    second: Event,
    third: Event,
)
    ensures
        ({
            let lxc = LxcView::initial(name, path, command);
            let reached = lxc.next(first).next(second).next(third);
            &&& !(lxc.phase is Acting)
            &&& !(lxc.next(first).phase is Acting)
            &&& !(lxc.next(first).next(second).phase is Acting)
            &&& reached.phase is Acting ==> {
                &&& identity_fits(name, path)
                &&& first == Event::Opened(OpenStatus::Ready)
                &&& second == Event::Flag(true)
                &&& third == Event::Flag(command.wants_running())
                &&& reached.pending() == command.action()
            }
        }),
{
}

/// Where a call could not be made at all, the command is over, and it has
/// not succeeded: opening fails with [`Error::InvalidConfig`], and whatever
/// comes later fails as the command does when the runtime refuses it.
pub proof fn lemma_unanswered_ends_command(lxc: LxcView)
    requires
        !(lxc.phase is Finished),
    ensures
        lxc.next(Event::Unanswered).phase == Phase::Finished(
            if lxc.phase is Opening {
                lxc.command.stopped_by(Error::InvalidConfig)
            } else {
                lxc.command.refused()
            },
        ),
        lxc.next(Event::Unanswered).phase != Phase::Finished(Outcome::Completed),
{
}

/// Where the runtime says that the caller may not control the container,
/// the command is over: it ends with [`Error::PermissionDenied`], and no
/// answer brings another action.
pub proof fn lemma_denied_is_final(lxc: LxcView, later: Event)
    requires
        lxc.phase is CheckingControl,
    ensures
        ({
            let denied = lxc.next(Event::Flag(false));
            &&& denied.pending() == ActionView::Finish(
                lxc.command.stopped_by(Error::PermissionDenied),
            )
            &&& denied.next(later) == denied
        }),
{
}

/// Starting a container that is down and that the caller may control brings
/// it up, unless the runtime cannot start it, which leaves it down. Starting
/// it again once it is up fails with [`Error::AlreadyRunning`] and leaves it
/// up.
pub proof fn lemma_start_brings_up(
    name: Seq<char>,
    path: Option<Seq<char>>,
    daemonize: bool,
    container: Container,
)
    requires
        identity_fits(name, path),
        container.status == OpenStatus::Ready,
        container.may_control,
        !container.running,
    ensures
        ({
            let start = LxcView::initial(name, path, CommandView::Start { daemonize });
            let up = Container { running: true, ..container };
            if container.startable {
                &&& run(start, container) == Some((Outcome::Completed, up))
                &&& run(start, up) == Some((Outcome::Failed(Error::AlreadyRunning), up))
            } else {
                run(start, container) == Some((Outcome::Failed(Error::StartFailed), container))
            }
        }),
{
    reveal_with_fuel(run, 6);
}

/// Killing a container that is up and that the caller may control brings it
/// down, unless the runtime cannot kill it, which leaves it up. Killing it
/// again once it is down fails with [`Error::NotRunning`] and leaves it down.
pub proof fn lemma_stop_brings_down(
    name: Seq<char>,
    path: Option<Seq<char>>,
    timeout: i32,
    container: Container,
)
    requires
        identity_fits(name, path),
        container.status == OpenStatus::Ready,
        container.may_control,
        container.running,
    ensures
        ({
            let stop = LxcView::initial(name, path, CommandView::Stop { force: true, timeout });
            let down = Container { running: false, ..container };
            if container.killable {
                &&& run(stop, container) == Some((Outcome::Completed, down))
                &&& run(stop, down) == Some((Outcome::Failed(Error::NotRunning), down))
            } else {
                run(stop, container) == Some((Outcome::Failed(Error::StopFailed), container))
            }
        }),
{
    reveal_with_fuel(run, 6);
}

/// A shutdown with a timeout that the container does not meet, be it too
/// slow or deaf to the request, fails with [`Error::ShutdownTimedOut`] and
/// leaves the container up.
pub proof fn lemma_shutdown_times_out(
    name: Seq<char>,
    path: Option<Seq<char>>,
    timeout: i32,
    container: Container,
)
    requires
        identity_fits(name, path),
        container.status == OpenStatus::Ready,
        container.may_control,
        container.running,
        timeout >= 0,
        container.shutdown_delay matches Some(delay) ==> delay > timeout,
    ensures
        run(
            LxcView::initial(name, path, CommandView::Stop { force: false, timeout }),
            container,
        ) == Some((Outcome::Failed(Error::ShutdownTimedOut), container)),
{
    reveal_with_fuel(run, 6);
}

/// A shutdown with a negative timeout succeeds however long the container
/// takes to go down: the wait has no bound.
pub proof fn lemma_shutdown_without_bound(
    name: Seq<char>,
    path: Option<Seq<char>>,
    timeout: i32,
    container: Container,
)
    requires
        identity_fits(name, path),
        container.status == OpenStatus::Ready,
        container.may_control,
        container.running,
        timeout < 0,
        container.shutdown_delay is Some,
    ensures
        run(
            LxcView::initial(name, path, CommandView::Stop { force: false, timeout }),
            container,
        ) == Some((Outcome::Completed, Container { running: false, ..container })),
{
    reveal_with_fuel(run, 6);
}

/// A shutdown with a timeout that the container meets succeeds and leaves
/// the container down.
pub proof fn lemma_shutdown_in_time(
    name: Seq<char>,
    path: Option<Seq<char>>,
    timeout: i32,
    container: Container,
)
    requires
        identity_fits(name, path),
        container.status == OpenStatus::Ready,
        container.may_control,
        container.running,
        container.shutdown_delay matches Some(delay) && delay <= timeout,
    ensures
        run(
            LxcView::initial(name, path, CommandView::Stop { force: false, timeout }),
            container,
        ) == Some((Outcome::Completed, Container { running: false, ..container })),
{
    reveal_with_fuel(run, 6);
}

/// A caller that may not control a container changes nothing about it:
/// every command ends with [`Error::PermissionDenied`], and the container is
/// as it was.
pub proof fn lemma_denied_changes_nothing(
    name: Seq<char>,
    path: Option<Seq<char>>,
    command: CommandView,
    container: Container,
)
    requires
        identity_fits(name, path),
        container.status == OpenStatus::Ready,
        !container.may_control,
    ensures
        run(LxcView::initial(name, path, command), container) == Some(
            (command.stopped_by(Error::PermissionDenied), container),
        ),
{
    reveal_with_fuel(run, 6);
}

/// Whatever the command and the container, a command that ends leaves the
/// container as it was unless it ends in success; `exec` never changes it.
pub proof fn lemma_failure_changes_nothing(lxc: LxcView, container: Container)
    requires
        lxc.phase is Opening,
    ensures
        run(lxc, container) matches Some((outcome, after)) ==> (outcome != Outcome::Completed
            ==> after == container),
{
    reveal_with_fuel(run, 6);
}

/// `exec` ends with the status of the program where the container is up,
/// the caller may control it, the command line can be handed over and the
/// runtime could run it; and with [`EXIT_FAILURE`] and nothing else in every
/// other case.
pub proof fn lemma_exec_exits(
    name: Seq<char>,
    path: Option<Seq<char>>,
    argv: Seq<Seq<char>>,
    container: Container,
)
    ensures
        ({
            let exec = LxcView::initial(name, path, CommandView::Exec { argv });
            let ran = identity_fits(name, path) && container.status == OpenStatus::Ready
                && container.may_control && container.running && argv_fits(argv)
                && container.exit_status >= 0;
            &&& run(exec, container) matches Some((outcome, after))
            &&& after == container
            &&& outcome is Exited
            &&& outcome.status() == if ran {
                container.exit_status
            } else {
                EXIT_FAILURE
            }
        }),
{
    reveal_with_fuel(run, 6);
}

} // verus!
