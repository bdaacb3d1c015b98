//! What the backend on the native pseudoconsole does, as a function of what
//! it holds and of what the host answers.

use vstd::prelude::*;
use vstd::string::*;

use crate::pty::base::ProcessState;
use crate::pty::messages::size_error_text;
use crate::pty::protocol::{
    already_spawned_text, busy_text, failed, failure_text, finished, handle_is_invalid,
    nothing_pending_text, unexpected_reply_text, ActionView, EventView, OutputView, StdStream,
    StepView,
};
use crate::pty::resources::Resource;
use crate::pty::wide::{command_line, environment_block, terminated};
use crate::pty::PTYArgs;

verus! {

/// The console mode that lets a stream take virtual terminal sequences.
pub const ENABLE_VIRTUAL_TERMINAL_PROCESSING: u32 = 4;

/// The text of the error of a backend that is not available.
pub open spec fn not_enabled_text() -> Seq<char> {
    "pty_rs was compiled without ConPTY enabled"@
}

/// The error of a backend that is not available.
pub fn not_enabled() -> (message: String)
    ensures
        message@ == not_enabled_text(),
{
    String::from_str("pty_rs was compiled without ConPTY enabled")
}

/// What the construction of a pseudoconsole waits for.
#[derive(Copy, Clone, Debug, PartialEq, Eq, Structural)]
pub enum SetupPhase {
    /// The console of the host process.
    Console,
    /// The console's output stream.
    Output,
    /// The console's input stream.
    Input,
    /// The mode of the output stream.
    Mode,
    /// The new mode of the output stream to be in force.
    SetMode,
    /// The output stream to be the standard output.
    BindOutput,
    /// The output stream to be the standard error.
    BindError,
    /// The input stream to be the standard input.
    BindInput,
    /// The pipe that carries the input of the child.
    InputPipe,
    /// The pipe that carries the output of the child.
    OutputPipe,
    /// The pseudoconsole.
    PseudoConsole,
    /// The read end of the input pipe to be closed.
    CloseInputRead,
    /// The write end of the output pipe to be closed.
    CloseOutputWrite,
    /// A resource to be given back, after a failure.
    Unwinding,
    /// Nothing: the construction has ended.
    Ended,
}

/// The construction of a pseudoconsole, in specifications.
pub struct SetupView {
    /// What the construction waits for.
    pub phase: SetupPhase,
    /// The size asked for.
    pub cols: i32,
    pub rows: i32,
    /// The console's output and input streams.
    pub console_out: isize,
    pub console_in: isize,
    /// The two ends of the pipe that carries the input of the child.
    pub input_read: isize,
    pub input_write: isize,
    /// The two ends of the pipe that carries the output of the child.
    pub output_read: isize,
    pub output_write: isize,
    /// The pseudoconsole.
    pub console: isize,
    /// What the construction holds and would have to give back if it failed
    /// now, in the order in which it got them.
    pub owned: Seq<Resource>,
    /// The error that made the construction fail.
    pub failure: Seq<char>,
}

/// What a pseudoconsole backend waits for.
#[derive(Copy, Clone, Debug, PartialEq, Eq, Structural)]
pub enum ConPending {
    /// Nothing: no operation is under way.
    Idle,
    /// What the process I/O core waits for.
    Io,
    /// The pseudoconsole to be resized.
    Resize,
    /// The attribute list of a spawn.
    AttributeList,
    /// The pseudoconsole to be in the attribute list.
    AttributeUpdate,
    /// The process of a spawn.
    Process,
    /// The identifier of the process of a spawn.
    Bind,
    /// A resource to be given back, after a spawn has failed.
    Unwind,
}

/// A pseudoconsole and the process inside, in specifications.
pub struct ConPTYView {
    /// Whether the backend is available.
    pub enabled: bool,
    /// The pseudoconsole.
    pub handle: isize,
    /// The process that was spawned, and its first thread; zero before.
    pub process: isize,
    pub thread: isize,
    /// The attribute list that carried the pseudoconsole to the process; zero
    /// when there is none.
    pub attribute_list: isize,
    /// What the backend waits for.
    pub pending: ConPending,
    /// The process I/O core.
    pub io: ProcessState,
    /// What is handed to the system when the process is created.
    pub command_line: Seq<u16>,
    pub working_dir: Option<Seq<u16>>,
    pub environment: Option<Seq<u16>>,
    /// What the spawn under way holds and has to give back if it fails, in
    /// the order in which it got them.
    pub owned: Seq<Resource>,
    /// The error that made a spawn fail.
    pub failure: Seq<char>,
}

impl SetupView {
    /// The construction before its first action.
    pub open spec fn start(cols: i32, rows: i32) -> SetupView {
        SetupView {
            phase: SetupPhase::Console,
            cols,
            rows,
            console_out: 0,
            console_in: 0,
            input_read: 0,
            input_write: 0,
            output_read: 0,
            output_write: 0,
            console: 0,
            owned: Seq::empty(),
            failure: Seq::empty(),
        }
    }

    /// The construction in another phase.
    pub open spec fn at(self, phase: SetupPhase) -> SetupView {
        SetupView { phase, ..self }
    }

    /// How a construction starts: it fails at once where the backend is not
    /// available or the size is not positive, and else asks for a console.
    pub open spec fn begin(cols: i32, rows: i32, enabled: bool) -> (
        SetupView,
        StepView<ConPTYView>,
    ) {
        if !enabled {
            (Self::start(cols, rows).at(SetupPhase::Ended), failed(not_enabled_text()))
        } else if !PTYArgs::valid_size(cols, rows) {
            (Self::start(cols, rows).at(SetupPhase::Ended), failed(size_error_text(cols, rows)))
        } else {
            (Self::start(cols, rows), StepView::Perform(ActionView::AllocConsole))
        }
    }

    /// The next step of a construction that has failed: the resource that was
    /// got last is given back, and when none is left the error is reported.
    pub open spec fn unwind(self) -> (SetupView, StepView<ConPTYView>) {
        if self.owned.len() == 0 {
            (self.at(SetupPhase::Ended), failed(self.failure))
        } else {
            (
                SetupView { phase: SetupPhase::Unwinding, owned: self.owned.drop_last(), ..self },
                StepView::Perform(self.owned.last().release()),
            )
        }
    }

    /// The step after an event that is no success.
    pub open spec fn fail_on(self, event: EventView) -> (SetupView, StepView<ConPTYView>) {
        SetupView { failure: failure_text(event), ..self }.unwind()
    }

    /// What an event does to the construction.
    pub open spec fn resume(self, event: EventView) -> (SetupView, StepView<ConPTYView>) {
        match (self.phase, event) {
            (SetupPhase::Console, _) => (
                self.at(SetupPhase::Output),
                StepView::Perform(ActionView::OpenConsoleOutput),
            ),
            (SetupPhase::Output, EventView::Handle(handle)) => (
                SetupView {
                    phase: SetupPhase::Input,
                    console_out: handle,
                    owned: seq![Resource::Handle(handle)],
                    ..self
                },
                StepView::Perform(ActionView::OpenConsoleInput),
            ),
            (SetupPhase::Input, EventView::Handle(handle)) => (
                SetupView {
                    phase: SetupPhase::Mode,
                    console_in: handle,
                    owned: seq![Resource::Handle(self.console_out), Resource::Handle(handle)],
                    ..self
                },
                StepView::Perform(ActionView::GetConsoleMode { handle: self.console_out }),
            ),
            (SetupPhase::Mode, EventView::ConsoleMode(mode)) => (
                self.at(SetupPhase::SetMode),
                StepView::Perform(
                    ActionView::SetConsoleMode {
                        handle: self.console_out,
                        mode: mode | ENABLE_VIRTUAL_TERMINAL_PROCESSING,
                    },
                ),
            ),
            (SetupPhase::SetMode, EventView::Done) => (
                self.at(SetupPhase::BindOutput),
                StepView::Perform(
                    ActionView::SetStdHandle {
                        stream: StdStream::Output,
                        handle: self.console_out,
                    },
                ),
            ),
            (SetupPhase::BindOutput, EventView::Done) => (
                SetupView {
                    phase: SetupPhase::BindError,
                    owned: seq![Resource::Handle(self.console_in)],
                    ..self
                },
                StepView::Perform(
                    ActionView::SetStdHandle { stream: StdStream::Error, handle: self.console_out },
                ),
            ),
            (SetupPhase::BindError, EventView::Done) => (
                self.at(SetupPhase::BindInput),
                StepView::Perform(
                    ActionView::SetStdHandle { stream: StdStream::Input, handle: self.console_in },
                ),
            ),
            (SetupPhase::BindInput, EventView::Done) => (
                SetupView { phase: SetupPhase::InputPipe, owned: Seq::empty(), ..self },
                StepView::Perform(ActionView::CreatePipe),
            ),
            (SetupPhase::InputPipe, EventView::Pipe { read, write }) => (
                SetupView {
                    phase: SetupPhase::OutputPipe,
                    input_read: read,
                    input_write: write,
                    owned: seq![Resource::Handle(read), Resource::Handle(write)],
                    ..self
                },
                StepView::Perform(ActionView::CreatePipe),
            ),
            (SetupPhase::OutputPipe, EventView::Pipe { read, write }) => (
                SetupView {
                    phase: SetupPhase::PseudoConsole,
                    output_read: read,
                    output_write: write,
                    owned: seq![
                        Resource::Handle(self.input_read),
                        Resource::Handle(self.input_write),
                        Resource::Handle(read),
                        Resource::Handle(write),
                    ],
                    ..self
                },
                StepView::Perform(
                    ActionView::CreatePseudoConsole {
                        cols: self.cols,
                        rows: self.rows,
                        input: self.input_read,
                        output: write,
                    },
                ),
            ),
            (SetupPhase::PseudoConsole, EventView::Handle(console)) => (
                SetupView {
                    phase: SetupPhase::CloseInputRead,
                    console,
                    owned: seq![
                        Resource::Handle(self.input_write),
                        Resource::Handle(self.output_read),
                        Resource::Handle(self.output_write),
                        Resource::PseudoConsole(console),
                    ],
                    ..self
                },
                StepView::Perform(ActionView::CloseHandle { handle: self.input_read }),
            ),
            (SetupPhase::CloseInputRead, _) => (
                SetupView {
                    phase: SetupPhase::CloseOutputWrite,
                    owned: seq![
                        Resource::Handle(self.input_write),
                        Resource::Handle(self.output_read),
                        Resource::PseudoConsole(self.console),
                    ],
                    ..self
                },
                StepView::Perform(ActionView::CloseHandle { handle: self.output_write }),
            ),
            (SetupPhase::CloseOutputWrite, _) => (
                SetupView { phase: SetupPhase::Ended, owned: Seq::empty(), ..self },
                StepView::Finished(
                    Ok(ConPTYView::built(self.console, self.input_write, self.output_read)),
                ),
            ),
            (SetupPhase::Unwinding, _) => self.unwind(),
            (SetupPhase::Ended, _) => (self, failed(nothing_pending_text())),
            _ => self.fail_on(event),
        }
    }
}

impl ConPTYView {
    /// A backend on a new pseudoconsole and the two pipe ends that stay with
    /// the session: no process yet, and a core that reads from a pipe and
    /// closes no process.
    pub open spec fn built(console: isize, conin: isize, conout: isize) -> ConPTYView {
        ConPTYView {
            enabled: true,
            handle: console,
            process: 0,
            thread: 0,
            attribute_list: 0,
            pending: ConPending::Idle,
            io: ProcessState::new(conin, conout, true).borrowing(),
            command_line: Seq::empty(),
            working_dir: None,
            environment: None,
            owned: Seq::empty(),
            failure: Seq::empty(),
        }
    }

    /// The backend as it stands where the pseudoconsole is not available.
    pub open spec fn disabled() -> ConPTYView {
        ConPTYView { enabled: false, ..Self::built(0, 0, 0) }
    }

    /// The backend waiting for something else.
    pub open spec fn waiting(self, pending: ConPending) -> ConPTYView {
        ConPTYView { pending, ..self }
    }

    /// The backend after its process I/O core has made a move: the backend
    /// waits for the core as long as the core waits for the host.
    pub open spec fn delegate(self, moved: (ProcessState, StepView<OutputView>)) -> (
        ConPTYView,
        StepView<OutputView>,
    ) {
        (
            ConPTYView {
                io: moved.0,
                pending: if moved.1 is Perform {
                    ConPending::Io
                } else {
                    ConPending::Idle
                },
                ..self
            },
            moved.1,
        )
    }

    /// An operation of the process I/O core; or the fixed error where the
    /// backend is not available; or a refusal, while another operation is
    /// under way.
    pub open spec fn through_core(self, moved: (ProcessState, StepView<OutputView>)) -> (
        ConPTYView,
        StepView<OutputView>,
    ) {
        if !self.enabled {
            (self, failed(not_enabled_text()))
        } else if !(self.pending is Idle) {
            (self, failed(busy_text()))
        } else {
            self.delegate(moved)
        }
    }

    /// Whether a process was already bound to the core.
    pub open spec fn spawned(self) -> bool {
        self.io.process != 0 || self.io.pid != 0
    }

    /// The start of a spawn: what goes to the system is made ready, and an
    /// attribute list is asked for. The command line is the path, then a space
    /// and the arguments; the working directory is ended by a zero unit, the
    /// environment by two.
    pub open spec fn spawn(
        self,
        appname: Seq<u16>,
        cmdline: Option<Seq<u16>>,
        cwd: Option<Seq<u16>>,
        env: Option<Seq<u16>>,
    ) -> (ConPTYView, StepView<OutputView>) {
        if !self.enabled {
            (self, failed(not_enabled_text()))
        } else if !(self.pending is Idle) {
            (self, failed(busy_text()))
        } else if self.spawned() {
            (self, failed(already_spawned_text()))
        } else {
            (
                ConPTYView {
                    pending: ConPending::AttributeList,
                    owned: Seq::empty(),
                    command_line: command_line(appname, cmdline),
                    working_dir: match cwd {
                        Some(dir) => Some(terminated(dir)),
                        None => None,
                    },
                    environment: match env {
                        Some(entries) => Some(environment_block(entries)),
                        None => None,
                    },
                    ..self
                },
                StepView::Perform(ActionView::InitializeAttributeList),
            )
        }
    }

    /// The start of a resize: refused for a size that is not positive.
    pub open spec fn set_size(self, cols: i32, rows: i32) -> (ConPTYView, StepView<OutputView>) {
        if !self.enabled {
            (self, failed(not_enabled_text()))
        } else if !PTYArgs::valid_size(cols, rows) {
            (self, failed(size_error_text(cols, rows)))
        } else if !(self.pending is Idle) {
            (self, failed(busy_text()))
        } else {
            (
                self.waiting(ConPending::Resize),
                StepView::Perform(
                    ActionView::ResizePseudoConsole { console: self.handle, cols, rows },
                ),
            )
        }
    }

    /// The next step of a spawn that has failed: the resource that was got
    /// last is given back, and when none is left the error is reported.
    pub open spec fn unwind(self) -> (ConPTYView, StepView<OutputView>) {
        if self.owned.len() == 0 {
            (self.waiting(ConPending::Idle), failed(self.failure))
        } else {
            (
                ConPTYView { pending: ConPending::Unwind, owned: self.owned.drop_last(), ..self },
                StepView::Perform(self.owned.last().release()),
            )
        }
    }

    /// The step of a spawn that has failed: what was made ready for it is
    /// forgotten, and what it holds is given back.
    pub open spec fn spawn_failed(self, message: Seq<char>) -> (ConPTYView, StepView<OutputView>) {
        ConPTYView {
            failure: message,
            attribute_list: 0,
            command_line: Seq::empty(),
            working_dir: None,
            environment: None,
            ..self
        }.unwind()
    }

    /// What an event does to the backend and to the operation under way.
    pub open spec fn resume(self, event: EventView) -> (ConPTYView, StepView<OutputView>) {
        let idle = self.waiting(ConPending::Idle);
        match (self.pending, event) {
            (ConPending::Idle, _) => (self, failed(nothing_pending_text())),
            (ConPending::Io, _) => self.delegate(self.io.resume(event)),
            (ConPending::Resize, EventView::Done) => (idle, finished(OutputView::Unit)),
            (ConPending::Resize, _) => (idle, failed(failure_text(event))),
            (ConPending::AttributeList, EventView::Handle(list)) => (
                ConPTYView {
                    pending: ConPending::AttributeUpdate,
                    attribute_list: list,
                    owned: seq![Resource::AttributeList(list)],
                    ..self
                },
                StepView::Perform(ActionView::UpdateAttributeList { list, console: self.handle }),
            ),
            (ConPending::AttributeList, _) => (
                ConPTYView {
                    pending: ConPending::Idle,
                    command_line: Seq::empty(),
                    working_dir: None,
                    environment: None,
                    ..self
                },
                failed(failure_text(event)),
            ),
            (ConPending::AttributeUpdate, EventView::Done) => (
                ConPTYView {
                    pending: ConPending::Process,
                    command_line: Seq::empty(),
                    working_dir: None,
                    environment: None,
                    ..self
                },
                StepView::Perform(
                    ActionView::CreateProcess {
                        command_line: self.command_line,
                        working_dir: self.working_dir,
                        environment: self.environment,
                        attribute_list: self.attribute_list,
                    },
                ),
            ),
            (ConPending::AttributeUpdate, _) => self.spawn_failed(failure_text(event)),
            (ConPending::Process, EventView::Process { process, thread }) => {
                if self.spawned() {
                    ConPTYView {
                        owned: self.owned.push(Resource::Handle(process)).push(
                            Resource::Handle(thread),
                        ),
                        ..self
                    }.spawn_failed(already_spawned_text())
                } else {
                    (
                        ConPTYView {
                            pending: ConPending::Bind,
                            process,
                            thread,
                            owned: Seq::empty(),
                            io: self.io.set_process(process, false).0,
                            ..self
                        },
                        self.io.set_process(process, false).1,
                    )
                }
            },
            (ConPending::Process, _) => self.spawn_failed(failure_text(event)),
            (ConPending::Bind, _) => (
                ConPTYView { pending: ConPending::Idle, io: self.io.resume(event).0, ..self },
                match self.io.resume(event).1 {
                    StepView::Finished(Ok(_)) => finished(OutputView::Flag(true)),
                    StepView::Finished(Err(message)) => failed(message),
                    StepView::Perform(_) => failed(unexpected_reply_text()),
                },
            ),
            (ConPending::Unwind, _) => self.unwind(),
        }
    }

    /// What the host gives back when the backend goes, in this order: the
    /// thread of the process, the process, the attribute list, the
    /// pseudoconsole, and then what the process I/O core holds. What is not
    /// there is left out.
    pub open spec fn teardown(self) -> Seq<ActionView> {
        let thread = if handle_is_invalid(self.thread) {
            Seq::<ActionView>::empty()
        } else {
            seq![ActionView::CloseHandle { handle: self.thread }]
        };
        let process = if handle_is_invalid(self.process) {
            Seq::<ActionView>::empty()
        } else {
            seq![ActionView::CloseHandle { handle: self.process }]
        };
        let list = if self.attribute_list == 0 {
            Seq::<ActionView>::empty()
        } else {
            seq![ActionView::DeleteAttributeList { list: self.attribute_list }]
        };
        let console = if !self.enabled {
            Seq::<ActionView>::empty()
        } else {
            seq![ActionView::ClosePseudoConsole { console: self.handle }]
        };
        thread + process + list + console + self.io.teardown()
    }
}

} // verus!
