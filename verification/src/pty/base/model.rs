//! What the process I/O core does, as a function of what it holds and of what
//! the host answers.

use vstd::prelude::*;

use crate::pty::encoding::{utf8_of_wide, wide_of_utf8};
use crate::pty::protocol::{
    busy_text, failed, finished, handle_is_invalid, nothing_pending_text,
    unexpected_reply_text, ActionView, EventView, OutputView, StepView,
};

verus! {

/// The exit code that the system reports for a process that still runs.
pub const STILL_ACTIVE: u32 = 259;

/// What the process I/O core waits for.
#[derive(Copy, Clone, Debug, PartialEq, Eq, Structural)]
pub enum Pending {
    /// Nothing: no operation is under way.
    Idle,
    /// The number of bytes that can be read, for a read of at most `length`.
    ReadAvailable { length: u32 },
    /// The bytes of a read.
    ReadBytes,
    /// The number of bytes written.
    Written,
    /// The number of bytes that can be read, for an end-of-file query.
    EofAvailable,
    /// The exit code, for an end-of-file query that found bytes waiting, or
    /// found none.
    EofExitCode { waiting: bool },
    /// The exit code, for a liveness query.
    AliveExitCode,
    /// The exit code, for an exit status query.
    StatusExitCode,
    /// The identifier of the process that is being bound.
    ProcessId,
}

/// The state of the process I/O core.
#[derive(Copy, Clone, Debug, PartialEq, Eq, Structural)]
pub struct ProcessState {
    /// Handle of the process; zero until a process is bound.
    pub process: isize,
    /// Handle that writes to the input stream of the process.
    pub conin: isize,
    /// Handle that reads from the output stream of the process.
    pub conout: isize,
    /// Identifier of the process; zero until a process is bound.
    pub pid: u32,
    /// Exit code of the process, once it was seen to have exited.
    pub exitstatus: Option<u32>,
    /// Whether the process ran when it was last asked about.
    pub alive: bool,
    /// Whether the output stream is a pipe (else it is a file).
    pub using_pipes: bool,
    /// Whether closing the process handle falls to this core.
    pub close_process: bool,
    /// What the core waits for.
    pub pending: Pending,
}

impl ProcessState {
    /// The state of a new core on two stream handles: no process, not alive.
    pub open spec fn new(conin: isize, conout: isize, using_pipes: bool) -> ProcessState {
        ProcessState {
            process: 0,
            conin,
            conout,
            pid: 0,
            exitstatus: None,
            alive: false,
            using_pipes,
            close_process: true,
            pending: Pending::Idle,
        }
    }

    /// The same core without the duty to close the process that it is given.
    pub open spec fn borrowing(self) -> ProcessState {
        ProcessState { close_process: false, ..self }
    }

    /// Whether the core waits for an exit code.
    pub open spec fn awaits_exit_code(self) -> bool {
        self.pending is EofExitCode || self.pending is AliveExitCode
            || self.pending is StatusExitCode
    }

    /// What every reachable state satisfies: a core that holds an exit code
    /// holds it for a process that it knew by a non-zero identifier and that
    /// has stopped; it waits for an exit code only while it believes that the
    /// process runs; and it waits for an identifier only while it knows none.
    pub open spec fn wf(self) -> bool {
        &&& self.exitstatus is Some ==> !self.alive && self.pid != 0
        &&& self.awaits_exit_code() ==> self.running()
        &&& self.pending is ProcessId ==> self.pid == 0 && self.exitstatus is None
    }

    /// The same state with another thing to wait for.
    pub open spec fn waiting(self, pending: Pending) -> ProcessState {
        ProcessState { pending, ..self }
    }

    /// Whether the core believes that a process runs: one was bound under a
    /// non-zero identifier and it was not yet seen to have exited.
    pub open spec fn running(self) -> bool {
        self.pid != 0 && self.alive
    }

    /// The query that tells how many bytes can be read: a peek on a pipe, the
    /// size of a file.
    pub open spec fn availability_query(self) -> ActionView {
        if self.using_pipes {
            ActionView::PeekNamedPipe { handle: self.conout }
        } else {
            ActionView::GetFileSize { handle: self.conout }
        }
    }

    /// The event that answers the availability query when `count` bytes can
    /// be read.
    pub open spec fn available(self, count: u32) -> EventView {
        if self.using_pipes {
            EventView::Count(count)
        } else {
            EventView::Size(count as i64)
        }
    }

    /// The length of a read that may take `length` bytes when `available` are
    /// there: the smaller of the two.
    pub open spec fn clamp(length: u32, available: int) -> u32 {
        if available <= 0 {
            0
        } else if available < length {
            available as u32
        } else {
            length
        }
    }

    /// The answer to an operation that is started while another is under way:
    /// it is refused, and the core stays as it is.
    pub open spec fn refuse(self) -> (ProcessState, StepView<OutputView>) {
        (self, failed(busy_text()))
    }

    /// The read of `length` bytes itself: nothing to do for zero bytes.
    pub open spec fn read_bytes(self, length: u32) -> (ProcessState, StepView<OutputView>) {
        if length == 0 {
            (self.waiting(Pending::Idle), finished(OutputView::Text(Seq::empty())))
        } else {
            (
                self.waiting(Pending::ReadBytes),
                StepView::Perform(ActionView::ReadFile { handle: self.conout, length }),
            )
        }
    }

    /// The start of a read: a blocking read goes for the bytes at once, any
    /// other first asks how many there are.
    pub open spec fn read(self, length: u32, blocking: bool) -> (
        ProcessState,
        StepView<OutputView>,
    ) {
        if !(self.pending is Idle) {
            self.refuse()
        } else if blocking {
            self.read_bytes(length)
        } else {
            (
                self.waiting(Pending::ReadAvailable { length }),
                StepView::Perform(self.availability_query()),
            )
        }
    }

    /// The start of a write: one write of the text's UTF-8 bytes.
    pub open spec fn write(self, text: Seq<u16>) -> (ProcessState, StepView<OutputView>) {
        if !(self.pending is Idle) {
            self.refuse()
        } else {
            (
                self.waiting(Pending::Written),
                StepView::Perform(
                    ActionView::WriteFile { handle: self.conin, bytes: utf8_of_wide(text) },
                ),
            )
        }
    }

    /// The state after the system has reported an exit code: the process runs
    /// on, or it has exited with that code.
    pub open spec fn observe(self, code: u32) -> ProcessState {
        if code == STILL_ACTIVE {
            ProcessState { alive: true, pending: Pending::Idle, ..self }
        } else {
            ProcessState { alive: false, exitstatus: Some(code), pending: Pending::Idle, ..self }
        }
    }

    /// The query for the exit code of the bound process.
    pub open spec fn exit_code_query(self) -> StepView<OutputView> {
        StepView::Perform(ActionView::GetExitCodeProcess { process: self.process })
    }

    /// The start of a liveness query: the system is asked only while the
    /// process is believed to run.
    pub open spec fn is_alive(self) -> (ProcessState, StepView<OutputView>) {
        if !(self.pending is Idle) {
            self.refuse()
        } else if self.running() {
            (self.waiting(Pending::AliveExitCode), self.exit_code_query())
        } else {
            (self.waiting(Pending::Idle), finished(OutputView::Flag(false)))
        }
    }

    /// The exit status that the state holds: none while the process is
    /// believed to run, or before one was bound.
    pub open spec fn status(self) -> Option<u32> {
        if self.pid == 0 || self.alive {
            None
        } else {
            self.exitstatus
        }
    }

    /// The start of an exit status query: the system is asked only while the
    /// process is believed to run.
    pub open spec fn get_exitstatus(self) -> (ProcessState, StepView<OutputView>) {
        if !(self.pending is Idle) {
            self.refuse()
        } else if self.running() {
            (self.waiting(Pending::StatusExitCode), self.exit_code_query())
        } else {
            (self.waiting(Pending::Idle), finished(OutputView::ExitStatus(self.status())))
        }
    }

    /// The start of an end-of-file query: the core asks how many bytes can be
    /// read.
    pub open spec fn is_eof(self) -> (ProcessState, StepView<OutputView>) {
        if !(self.pending is Idle) {
            self.refuse()
        } else {
            (self.waiting(Pending::EofAvailable), StepView::Perform(self.availability_query()))
        }
    }

    /// The answer of an end-of-file query: yes, unless no byte waits and the
    /// process no longer runs.
    pub open spec fn eof_answer(waiting: bool, alive: bool) -> bool {
        !(!waiting && !alive)
    }

    /// The step of an end-of-file query that knows whether bytes wait: the
    /// system is asked for the exit code only while the process is believed to
    /// run.
    pub open spec fn eof_known(self, waiting: bool) -> (ProcessState, StepView<OutputView>) {
        if self.running() {
            (self.waiting(Pending::EofExitCode { waiting }), self.exit_code_query())
        } else {
            (
                self.waiting(Pending::Idle),
                finished(OutputView::Flag(Self::eof_answer(waiting, false))),
            )
        }
    }

    /// The start of binding a process: the handle is kept, with the duty to
    /// close it or without, and its identifier is asked for.
    pub open spec fn set_process(self, process: isize, close_process: bool) -> (
        ProcessState,
        StepView<OutputView>,
    ) {
        (
            ProcessState { process, close_process, pending: Pending::ProcessId, ..self },
            StepView::Perform(ActionView::GetProcessId { process }),
        )
    }

    /// What an event does to the core and to the operation under way.
    pub open spec fn resume(self, event: EventView) -> (ProcessState, StepView<OutputView>) {
        let idle = self.waiting(Pending::Idle);
        match (self.pending, event) {
            (Pending::Idle, _) => (idle, failed(nothing_pending_text())),
            (Pending::ProcessId, EventView::ProcessId(pid)) => (
                ProcessState { pid, alive: true, pending: Pending::Idle, ..self },
                finished(OutputView::Unit),
            ),
            (_, EventView::Failed(message)) => (idle, failed(message)),
            (Pending::ReadAvailable { length }, EventView::Count(available)) => {
                if self.using_pipes {
                    idle.read_bytes(Self::clamp(length, available as int))
                } else {
                    (idle, failed(unexpected_reply_text()))
                }
            },
            (Pending::ReadAvailable { length }, EventView::Size(available)) => {
                if self.using_pipes {
                    (idle, failed(unexpected_reply_text()))
                } else {
                    idle.read_bytes(Self::clamp(length, available as int))
                }
            },
            (Pending::ReadBytes, EventView::Bytes(bytes)) => (
                idle,
                finished(OutputView::Text(wide_of_utf8(bytes))),
            ),
            (Pending::Written, EventView::Count(written)) => (
                idle,
                finished(OutputView::Count(written)),
            ),
            (Pending::EofAvailable, EventView::Count(available)) => {
                if self.using_pipes {
                    self.eof_known(available != 0)
                } else {
                    (idle, failed(unexpected_reply_text()))
                }
            },
            (Pending::EofAvailable, EventView::Size(available)) => {
                if self.using_pipes {
                    (idle, failed(unexpected_reply_text()))
                } else {
                    self.eof_known(available > 0)
                }
            },
            (Pending::EofExitCode { waiting }, EventView::ExitCode(code)) => (
                self.observe(code),
                finished(OutputView::Flag(Self::eof_answer(waiting, self.observe(code).alive))),
            ),
            (Pending::AliveExitCode, EventView::ExitCode(code)) => (
                self.observe(code),
                finished(OutputView::Flag(self.observe(code).alive)),
            ),
            (Pending::StatusExitCode, EventView::ExitCode(code)) => (
                self.observe(code),
                finished(OutputView::ExitStatus(self.observe(code).status())),
            ),
            _ => (idle, failed(unexpected_reply_text())),
        }
    }

    /// The handles that the core closes when it goes, in their order: the
    /// input stream, the output stream, and the process if that falls to the
    /// core. A handle that stands for nothing is left out.
    pub open spec fn teardown(self) -> Seq<ActionView> {
        let input = if handle_is_invalid(self.conin) {
            Seq::<ActionView>::empty()
        } else {
            seq![ActionView::CloseHandle { handle: self.conin }]
        };
        let output = if handle_is_invalid(self.conout) {
            Seq::<ActionView>::empty()
        } else {
            seq![ActionView::CloseHandle { handle: self.conout }]
        };
        let process = if !self.close_process || handle_is_invalid(self.process) {
            Seq::<ActionView>::empty()
        } else {
            seq![ActionView::CloseHandle { handle: self.process }]
        };
        input + output + process
    }
}

} // verus!
