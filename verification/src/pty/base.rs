//! The process I/O core, and what every backend of a pseudoterminal offers.
//!
//! The core holds the handle of the process that runs inside a pseudoterminal
//! and the two handles of its streams. It reads and writes text, and it knows
//! whether the process runs and how it has ended.
//!
//! [`model`] says what the core does with each event, and [`laws`] holds what
//! is proved of it.

use vstd::prelude::*;

pub mod laws;
pub mod model;

pub use self::laws::{lemma_core_events_count_down, lemma_core_stays_well_formed};
pub use self::model::{Pending, ProcessState, STILL_ACTIVE};

use super::encoding::{utf8_from_wide, wide_from_utf8};
use super::messages::size_error_text;
use super::protocol::{
    actions_view, busy, busy_text, failed, is_invalid, nothing_pending, unexpected_reply, Action,
    ActionView, Event, Output, OutputView, Step,
};
use super::PTYArgs;

verus! {

/// The I/O operations on the streams of a process that runs inside a
/// pseudoterminal, and the life of that process.
#[derive(Debug)]
pub struct PTYProcess {
    state: ProcessState,
}

impl View for PTYProcess {
    type V = ProcessState;

    closed spec fn view(&self) -> ProcessState {
        self.state
    }
}

impl PTYProcess {
    /// A core on the two stream handles of a pseudoterminal, with no process
    /// yet. `using_pipes` says that the output stream is a pipe and not a file.
    pub fn new(conin: isize, conout: isize, using_pipes: bool) -> (process: PTYProcess)
        ensures
            process@ == ProcessState::new(conin, conout, using_pipes),
            process@.wf(),
    {
        PTYProcess {
            state: ProcessState {
                process: 0,
                conin,
                conout,
                pid: 0,
                exitstatus: None,
                alive: false,
                using_pipes,
                close_process: true,
                pending: Pending::Idle,
            },
        }
    }

    /// A core like [`PTYProcess::new`], but one that leaves the closing of the
    /// process that it will be given to whoever gives it, unless it is told
    /// otherwise when the process is bound.
    pub fn borrowing(conin: isize, conout: isize, using_pipes: bool) -> (process: PTYProcess)
        ensures
            process@ == ProcessState::new(conin, conout, using_pipes).borrowing(),
            process@.wf(),
    {
        let mut process = PTYProcess::new(conin, conout, using_pipes);
        process.state.close_process = false;
        process
    }

    /// The identifier of the bound process; zero when there is none.
    pub fn pid(&self) -> (pid: u32)
        ensures
            pid == self@.pid,
    {
        self.state.pid
    }

    /// The handle of the bound process; zero when there is none.
    pub fn process_handle(&self) -> (handle: isize)
        ensures
            handle == self@.process,
    {
        self.state.process
    }

    /// Whether no operation is under way.
    pub fn is_idle(&self) -> (idle: bool)
        ensures
            idle == (self@.pending is Idle),
    {
        match self.state.pending {
            Pending::Idle => true,
            _ => false,
        }
    }

    /// The smaller of the length asked for and the bytes that are there.
    fn clamp(length: u32, available: i64) -> (clamped: u32)
        ensures
            clamped == ProcessState::clamp(length, available as int),
    {
        if available <= 0 {
            0
        } else if available < length as i64 {
            available as u32
        } else {
            length
        }
    }

    /// Goes for the bytes of a read of `length` bytes.
    fn read_bytes(&mut self, length: u32) -> (step: Step<Output>)
        ensures
            (final(self)@, step@) == old(self)@.waiting(Pending::Idle).read_bytes(length),
    {
        if length == 0 {
            self.state.pending = Pending::Idle;
            Step::Finished(Ok(Output::Text(Vec::new())))
        } else {
            self.state.pending = Pending::ReadBytes;
            Step::Perform(Action::ReadFile { handle: self.state.conout, length })
        }
    }

    /// Starts a read of at most `length` bytes from the output stream.
    ///
    /// With `blocking` the read is issued as it is and may wait for bytes.
    /// Without, the core first asks how many bytes are there and reads no more
    /// than that, so that the read returns at once. A read of zero bytes ends
    /// with the empty text and no read is issued. The bytes are decoded as
    /// UTF-8.
    ///
    /// Like every operation of the core, a read is refused while another
    /// operation is under way, and the core stays as it is.
    pub fn read(&mut self, length: u32, blocking: bool) -> (step: Step<Output>)
        ensures
            (final(self)@, step@) == old(self)@.read(length, blocking),
            old(self)@.wf() ==> final(self)@.wf(),
    {
        if !self.is_idle() {
            Step::Finished(Err(busy()))
        } else if blocking {
            self.read_bytes(length)
        } else {
            self.state.pending = Pending::ReadAvailable { length };
            Step::Perform(self.availability_query())
        }
    }

    /// Starts a write of the text to the input stream: the text is encoded as
    /// UTF-8 and written in one call. The operation ends with the number of
    /// bytes that the system wrote, which may be fewer than were handed over.
    pub fn write(&mut self, buf: &Vec<u16>) -> (step: Step<Output>)
        ensures
            (final(self)@, step@) == old(self)@.write(buf@),
            old(self)@.wf() ==> final(self)@.wf(),
    {
        if !self.is_idle() {
            return Step::Finished(Err(busy()));
        }
        self.state.pending = Pending::Written;
        Step::Perform(Action::WriteFile { handle: self.state.conin, bytes: utf8_from_wide(buf) })
    }

    /// Takes in an exit code that the system reported.
    fn observe(&mut self, code: u32)
        ensures
            final(self)@ == old(self)@.observe(code),
    {
        self.state.pending = Pending::Idle;
        if code == STILL_ACTIVE {
            self.state.alive = true;
        } else {
            self.state.alive = false;
            self.state.exitstatus = Some(code);
        }
    }

    /// The exit status that the core holds.
    fn status(&self) -> (status: Option<u32>)
        ensures
            status == self@.status(),
    {
        if self.state.pid == 0 || self.state.alive {
            None
        } else {
            self.state.exitstatus
        }
    }

    /// The query that tells how many bytes can be read.
    fn availability_query(&self) -> (action: Action)
        ensures
            action@ == self@.availability_query(),
    {
        if self.state.using_pipes {
            Action::PeekNamedPipe { handle: self.state.conout }
        } else {
            Action::GetFileSize { handle: self.state.conout }
        }
    }

    /// Starts an end-of-file query. It ends with `true` unless no byte waits
    /// in the output stream and the process no longer runs.
    pub fn is_eof(&mut self) -> (step: Step<Output>)
        ensures
            (final(self)@, step@) == old(self)@.is_eof(),
            old(self)@.wf() ==> final(self)@.wf(),
    {
        if !self.is_idle() {
            return Step::Finished(Err(busy()));
        }
        self.state.pending = Pending::EofAvailable;
        Step::Perform(self.availability_query())
    }

    /// Goes on with an end-of-file query that knows whether bytes wait.
    fn eof_known(&mut self, waiting: bool) -> (step: Step<Output>)
        ensures
            (final(self)@, step@) == old(self)@.eof_known(waiting),
    {
        if self.state.pid != 0 && self.state.alive {
            self.state.pending = Pending::EofExitCode { waiting };
            Step::Perform(Action::GetExitCodeProcess { process: self.state.process })
        } else {
            self.state.pending = Pending::Idle;
            Step::Finished(Ok(Output::Flag(waiting)))
        }
    }

    /// Starts an exit status query. Before a process is bound, and once it was
    /// seen to have exited, the answer comes from the core alone: nothing, or
    /// the exit code that the core holds. While the process is believed to
    /// run, the system is asked again.
    pub fn get_exitstatus(&mut self) -> (step: Step<Output>)
        ensures
            (final(self)@, step@) == old(self)@.get_exitstatus(),
            old(self)@.wf() ==> final(self)@.wf(),
    {
        if !self.is_idle() {
            Step::Finished(Err(busy()))
        } else if self.state.pid != 0 && self.state.alive {
            self.state.pending = Pending::StatusExitCode;
            Step::Perform(Action::GetExitCodeProcess { process: self.state.process })
        } else {
            self.state.pending = Pending::Idle;
            Step::Finished(Ok(Output::ExitStatus(self.status())))
        }
    }

    /// Starts a liveness query. The system is asked for the exit code only
    /// while the process is believed to run; before a process is bound, and
    /// once it was seen to have exited, the answer is `false` at once.
    pub fn is_alive(&mut self) -> (step: Step<Output>)
        ensures
            (final(self)@, step@) == old(self)@.is_alive(),
            old(self)@.wf() ==> final(self)@.wf(),
    {
        if !self.is_idle() {
            Step::Finished(Err(busy()))
        } else if self.state.pid != 0 && self.state.alive {
            self.state.pending = Pending::AliveExitCode;
            Step::Perform(Action::GetExitCodeProcess { process: self.state.process })
        } else {
            self.state.pending = Pending::Idle;
            Step::Finished(Ok(Output::Flag(false)))
        }
    }

    /// Starts binding the process that runs behind the pseudoterminal.
    /// `close_process` says whether closing the handle falls to the core.
    /// A core binds one process in its life.
    pub fn set_process(&mut self, process: isize, close_process: bool) -> (step: Step<Output>)
        requires
            old(self)@.process == 0,
            old(self)@.pid == 0,
        ensures
            (final(self)@, step@) == old(self)@.set_process(process, close_process),
            old(self)@.wf() ==> final(self)@.wf(),
    {
        self.state.process = process;
        self.state.close_process = close_process;
        self.state.pending = Pending::ProcessId;
        Step::Perform(Action::GetProcessId { process })
    }

    /// Takes the event that answers the action under way, and says how the
    /// operation goes on.
    pub fn resume(&mut self, event: Event) -> (step: Step<Output>)
        ensures
            (final(self)@, step@) == old(self)@.resume(event@),
            old(self)@.wf() ==> final(self)@.wf(),
    {
        let pending = self.state.pending;
        self.state.pending = Pending::Idle;
        match (pending, event) {
            (Pending::Idle, _) => Step::Finished(Err(nothing_pending())),
            (Pending::ProcessId, Event::ProcessId(pid)) => {
                self.state.pid = pid;
                self.state.alive = true;
                Step::Finished(Ok(Output::Unit))
            },
            (_, Event::Failed(message)) => Step::Finished(Err(message)),
            (Pending::ReadAvailable { length }, Event::Count(available)) => {
                if self.state.using_pipes {
                    self.read_bytes(Self::clamp(length, available as i64))
                } else {
                    Step::Finished(Err(unexpected_reply()))
                }
            },
            (Pending::ReadAvailable { length }, Event::Size(available)) => {
                if self.state.using_pipes {
                    Step::Finished(Err(unexpected_reply()))
                } else {
                    self.read_bytes(Self::clamp(length, available))
                }
            },
            (Pending::ReadBytes, Event::Bytes(bytes)) => {
                Step::Finished(Ok(Output::Text(wide_from_utf8(&bytes))))
            },
            (Pending::Written, Event::Count(written)) => {
                Step::Finished(Ok(Output::Count(written)))
            },
            (Pending::EofAvailable, Event::Count(available)) => {
                if self.state.using_pipes {
                    self.eof_known(available != 0)
                } else {
                    Step::Finished(Err(unexpected_reply()))
                }
            },
            (Pending::EofAvailable, Event::Size(available)) => {
                if self.state.using_pipes {
                    Step::Finished(Err(unexpected_reply()))
                } else {
                    self.eof_known(available > 0)
                }
            },
            (Pending::EofExitCode { waiting }, Event::ExitCode(code)) => {
                self.observe(code);
                Step::Finished(Ok(Output::Flag(waiting || self.state.alive)))
            },
            (Pending::AliveExitCode, Event::ExitCode(code)) => {
                self.observe(code);
                Step::Finished(Ok(Output::Flag(self.state.alive)))
            },
            (Pending::StatusExitCode, Event::ExitCode(code)) => {
                self.observe(code);
                Step::Finished(Ok(Output::ExitStatus(self.status())))
            },
            _ => Step::Finished(Err(unexpected_reply())),
        }
    }

    /// Ends the core and says which handles the host has to close, in their
    /// order: the input stream, the output stream, and the process if closing
    /// it falls to the core. The core is gone after this, so that no handle
    /// can be closed twice.
    pub fn teardown(self) -> (actions: Vec<Action>)
        ensures
            actions_view(actions@) == self@.teardown(),
    {
        let mut actions: Vec<Action> = Vec::new();
        if !is_invalid(self.state.conin) {
            actions.push(Action::CloseHandle { handle: self.state.conin });
        }
        if !is_invalid(self.state.conout) {
            actions.push(Action::CloseHandle { handle: self.state.conout });
        }
        if self.state.close_process && !is_invalid(self.state.process) {
            actions.push(Action::CloseHandle { handle: self.state.process });
        }
        assert(actions_view(actions@) =~= self@.teardown());
        actions
    }
}

/// What every backend of a pseudoterminal offers: a process can be spawned in
/// it, it can be resized, and text goes to the process and comes from it
/// through the process I/O core that the backend holds.
///
/// Each operation answers with a [`Step`]; the host performs the action of a
/// step and hands the event to `resume`, until a step says that the operation
/// has finished. A backend that is not available fails every operation with
/// one fixed error and asks the host for nothing. While an operation is under
/// way, no other can be started: the attempt is refused and changes nothing.
pub trait PTYImpl: Sized {
    /// The state of the process I/O core that the backend holds.
    spec fn io(&self) -> ProcessState;

    /// Whether the backend is available.
    spec fn enabled(&self) -> bool;

    /// What every reachable backend satisfies.
    spec fn well_formed(&self) -> bool;

    /// Whether no operation of the backend is under way.
    spec fn idle(&self) -> bool;

    /// Whether the backend waits for an event that goes to the process I/O
    /// core.
    spec fn delegating(&self) -> bool;

    /// The text of the error of the backend where it is not available.
    spec fn not_enabled_text() -> Seq<char>;

    /// What the host has to give back when the backend goes, in order.
    spec fn parting(&self) -> Seq<ActionView>;

    /// Starts spawning a process inside the pseudoterminal.
    ///
    /// `appname` is the path of the executable, `cmdline` its arguments, `cwd`
    /// the directory to start it in, and `env` its environment: `NAME=VALUE`
    /// entries, each ended by a zero unit. The operation ends with `true`.
    fn spawn(
        &mut self,
        appname: Vec<u16>,
        cmdline: Option<Vec<u16>>,
        cwd: Option<Vec<u16>>,
        env: Option<Vec<u16>>,
    ) -> (step: Step<Output>)
        ensures
            old(self).well_formed() ==> final(self).well_formed(),
            !old(self).enabled() ==> step@ == failed::<OutputView>(Self::not_enabled_text())
                && final(self).io() == old(self).io(),
            old(self).enabled() && !old(self).idle() ==> step@ == failed::<OutputView>(busy_text())
                && final(self).io() == old(self).io(),
            final(self).enabled() == old(self).enabled(),
    ;

    /// Starts a change of the size of the pseudoterminal. A size that is not
    /// positive in both dimensions is refused before the host is asked for
    /// anything.
    fn set_size(&mut self, cols: i32, rows: i32) -> (step: Step<Output>)
        ensures
            old(self).well_formed() ==> final(self).well_formed(),
            final(self).io() == old(self).io(),
            !old(self).enabled() ==> step@ == failed::<OutputView>(Self::not_enabled_text()),
            old(self).enabled() && !PTYArgs::valid_size(cols, rows) ==> step@ == failed::<
                OutputView,
            >(size_error_text(cols, rows)),
            old(self).enabled() && PTYArgs::valid_size(cols, rows) && !old(self).idle() ==> step@
                == failed::<OutputView>(busy_text()),
            old(self).enabled() && PTYArgs::valid_size(cols, rows) && old(self).idle() ==> step@
                is Perform,
    ;

    /// Starts a read of at most `length` bytes of the output of the process,
    /// as the process I/O core does it.
    fn read(&mut self, length: u32, blocking: bool) -> (step: Step<Output>)
        ensures
            old(self).well_formed() ==> final(self).well_formed(),
            !old(self).enabled() ==> step@ == failed::<OutputView>(Self::not_enabled_text())
                && final(self).io() == old(self).io(),
            old(self).enabled() && !old(self).idle() ==> step@ == failed::<OutputView>(busy_text())
                && final(self).io() == old(self).io(),
            old(self).enabled() && old(self).idle() ==> (final(self).io(), step@) == old(
                self,
            ).io().read(length, blocking) && final(self).delegating() == (step@ is Perform),
    ;

    /// Starts a write of text to the input of the process, as the process I/O
    /// core does it.
    fn write(&mut self, buf: Vec<u16>) -> (step: Step<Output>)
        ensures
            old(self).well_formed() ==> final(self).well_formed(),
            !old(self).enabled() ==> step@ == failed::<OutputView>(Self::not_enabled_text())
                && final(self).io() == old(self).io(),
            old(self).enabled() && !old(self).idle() ==> step@ == failed::<OutputView>(busy_text())
                && final(self).io() == old(self).io(),
            old(self).enabled() && old(self).idle() ==> (final(self).io(), step@) == old(
                self,
            ).io().write(buf@) && final(self).delegating() == (step@ is Perform),
    ;

    /// Starts an end-of-file query, as the process I/O core does it.
    fn is_eof(&mut self) -> (step: Step<Output>)
        ensures
            old(self).well_formed() ==> final(self).well_formed(),
            !old(self).enabled() ==> step@ == failed::<OutputView>(Self::not_enabled_text())
                && final(self).io() == old(self).io(),
            old(self).enabled() && !old(self).idle() ==> step@ == failed::<OutputView>(busy_text())
                && final(self).io() == old(self).io(),
            old(self).enabled() && old(self).idle() ==> (final(self).io(), step@) == old(
                self,
            ).io().is_eof() && final(self).delegating() == (step@ is Perform),
    ;

    /// Starts an exit status query, as the process I/O core does it.
    fn get_exitstatus(&mut self) -> (step: Step<Output>)
        ensures
            old(self).well_formed() ==> final(self).well_formed(),
            !old(self).enabled() ==> step@ == failed::<OutputView>(Self::not_enabled_text())
                && final(self).io() == old(self).io(),
            old(self).enabled() && !old(self).idle() ==> step@ == failed::<OutputView>(busy_text())
                && final(self).io() == old(self).io(),
            old(self).enabled() && old(self).idle() ==> (final(self).io(), step@) == old(
                self,
            ).io().get_exitstatus() && final(self).delegating() == (step@ is Perform),
    ;

    /// Starts a liveness query, as the process I/O core does it.
    fn is_alive(&mut self) -> (step: Step<Output>)
        ensures
            old(self).well_formed() ==> final(self).well_formed(),
            !old(self).enabled() ==> step@ == failed::<OutputView>(Self::not_enabled_text())
                && final(self).io() == old(self).io(),
            old(self).enabled() && !old(self).idle() ==> step@ == failed::<OutputView>(busy_text())
                && final(self).io() == old(self).io(),
            old(self).enabled() && old(self).idle() ==> (final(self).io(), step@) == old(
                self,
            ).io().is_alive() && final(self).delegating() == (step@ is Perform),
    ;

    /// Takes the event that answers the action under way. An event that the
    /// process I/O core waits for goes to the core.
    fn resume(&mut self, event: Event) -> (step: Step<Output>)
        ensures
            old(self).well_formed() ==> final(self).well_formed(),
            old(self).delegating() ==> (final(self).io(), step@) == old(self).io().resume(event@)
                && final(self).delegating() == (step@ is Perform),
    ;

    /// Ends the backend and says what the host has to give back, in order.
    /// The backend is gone after this, so that nothing is given back twice.
    fn teardown(self) -> (actions: Vec<Action>)
        ensures
            actions_view(actions@) == self.parting(),
    ;
}

} // verus!
