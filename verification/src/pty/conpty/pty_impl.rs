//! The backend on the native pseudoconsole.

use vstd::prelude::*;
use vstd::string::*;

use super::model::{
    not_enabled, not_enabled_text, ConPTYView, ConPending, SetupPhase, SetupView,
    ENABLE_VIRTUAL_TERMINAL_PROCESSING,
};
use crate::pty::base::{PTYImpl, PTYProcess, ProcessState};
use crate::pty::messages::size_error;
use super::laws::{
    lemma_built_is_well_formed, lemma_event_keeps_well_formed, lemma_holds_what_its_phase_says,
};
use crate::pty::protocol::{
    actions_view, already_spawned, busy, failure_of, is_invalid, nothing_pending,
    unexpected_reply, wide_view, Action, ActionView, Event, Output, StdStream, Step, StepView,
};
use crate::pty::resources::Resource;
use crate::pty::wide::{build_command_line, build_environment_block, terminate};
use crate::pty::PTYArgs;

verus! {

/// The construction of a pseudoconsole backend, step by step.
#[derive(Debug)]
pub struct ConPTYSetup {
    phase: SetupPhase,
    cols: i32,
    rows: i32,
    console_out: isize,
    console_in: isize,
    input_read: isize,
    input_write: isize,
    output_read: isize,
    output_write: isize,
    console: isize,
    owned: Vec<Resource>,
    failure: String,
}

impl View for ConPTYSetup {
    type V = SetupView;

    closed spec fn view(&self) -> SetupView {
        SetupView {
            phase: self.phase,
            cols: self.cols,
            rows: self.rows,
            console_out: self.console_out,
            console_in: self.console_in,
            input_read: self.input_read,
            input_write: self.input_write,
            output_read: self.output_read,
            output_write: self.output_write,
            console: self.console,
            owned: self.owned@,
            failure: self.failure@,
        }
    }
}

/// A pseudoterminal on the native pseudoconsole.
#[derive(Debug)]
pub struct ConPTY {
    enabled: bool,
    handle: isize,
    process: isize,
    thread: isize,
    attribute_list: isize,
    pending: ConPending,
    io: PTYProcess,
    command_line: Vec<u16>,
    working_dir: Option<Vec<u16>>,
    environment: Option<Vec<u16>>,
    owned: Vec<Resource>,
    failure: String,
}

impl View for ConPTY {
    type V = ConPTYView;

    closed spec fn view(&self) -> ConPTYView {
        ConPTYView {
            enabled: self.enabled,
            handle: self.handle,
            process: self.process,
            thread: self.thread,
            attribute_list: self.attribute_list,
            pending: self.pending,
            io: self.io@,
            command_line: self.command_line@,
            working_dir: wide_view(self.working_dir),
            environment: wide_view(self.environment),
            owned: self.owned@,
            failure: self.failure@,
        }
    }
}

impl ConPTYSetup {
    /// Gives back the resource that was got last, or reports the error when
    /// none is left.
    fn unwind(&mut self) -> (step: Step<ConPTY>)
        ensures
            (final(self)@, step@) == old(self)@.unwind(),
    {
        match self.owned.pop() {
            Some(resource) => {
                self.phase = SetupPhase::Unwinding;
                Step::Perform(resource.release_action())
            },
            None => {
                self.phase = SetupPhase::Ended;
                Step::Finished(Err(self.failure.clone()))
            },
        }
    }

    /// Starts to unwind after an event that is no success.
    fn fail_on(&mut self, event: Event) -> (step: Step<ConPTY>)
        ensures
            (final(self)@, step@) == old(self)@.fail_on(event@),
    {
        self.failure = failure_of(event);
        self.unwind()
    }

    /// Takes the event that answers the action under way, and says how the
    /// construction goes on. It goes through these actions, in this order: a
    /// console for the host process; the console's output and input streams,
    /// opened by name; the mode of the output stream, and that mode with
    /// virtual terminal processing; the two streams as the standard output,
    /// error and input; the pipe for the input of the child and the pipe for
    /// its output; the pseudoconsole on the far ends of the two pipes; and the
    /// closing of those two ends. It then finishes with the backend. As soon as
    /// one action fails, everything that the construction holds is given back,
    /// and it finishes with the error of that action.
    pub fn resume(&mut self, event: Event) -> (step: Step<ConPTY>)
        ensures
            (final(self)@, step@) == old(self)@.resume(event@),
            old(self)@.wf() ==> final(self)@.wf(),
            step@ matches StepView::Finished(Ok(pty)) ==> pty.wf(),
    {
        proof {
            if self@.wf() {
                lemma_holds_what_its_phase_says(self@, event@);
            }
            lemma_built_is_well_formed(self.console, self.input_write, self.output_read);
        }
        match (self.phase, event) {
            (SetupPhase::Console, _) => {
                self.phase = SetupPhase::Output;
                Step::Perform(Action::OpenConsoleOutput)
            },
            (SetupPhase::Output, Event::Handle(handle)) => {
                self.phase = SetupPhase::Input;
                self.console_out = handle;
                self.owned = vec![Resource::Handle(handle)];
                assert(self.owned@ =~= seq![Resource::Handle(handle)]);
                Step::Perform(Action::OpenConsoleInput)
            },
            (SetupPhase::Input, Event::Handle(handle)) => {
                self.phase = SetupPhase::Mode;
                self.console_in = handle;
                self.owned = vec![Resource::Handle(self.console_out), Resource::Handle(handle)];
                assert(self.owned@ =~= seq![
                    Resource::Handle(self.console_out),
                    Resource::Handle(handle),
                ]);
                Step::Perform(Action::GetConsoleMode { handle: self.console_out })
            },
            (SetupPhase::Mode, Event::ConsoleMode(mode)) => {
                self.phase = SetupPhase::SetMode;
                Step::Perform(
                    Action::SetConsoleMode {
                        handle: self.console_out,
                        mode: mode | ENABLE_VIRTUAL_TERMINAL_PROCESSING,
                    },
                )
            },
            (SetupPhase::SetMode, Event::Done) => {
                self.phase = SetupPhase::BindOutput;
                Step::Perform(
                    Action::SetStdHandle { stream: StdStream::Output, handle: self.console_out },
                )
            },
            (SetupPhase::BindOutput, Event::Done) => {
                self.phase = SetupPhase::BindError;
                self.owned = vec![Resource::Handle(self.console_in)];
                assert(self.owned@ =~= seq![Resource::Handle(self.console_in)]);
                Step::Perform(
                    Action::SetStdHandle { stream: StdStream::Error, handle: self.console_out },
                )
            },
            (SetupPhase::BindError, Event::Done) => {
                self.phase = SetupPhase::BindInput;
                Step::Perform(
                    Action::SetStdHandle { stream: StdStream::Input, handle: self.console_in },
                )
            },
            (SetupPhase::BindInput, Event::Done) => {
                self.phase = SetupPhase::InputPipe;
                self.owned = Vec::new();
                assert(self.owned@ =~= Seq::<Resource>::empty());
                Step::Perform(Action::CreatePipe)
            },
            (SetupPhase::InputPipe, Event::Pipe { read, write }) => {
                self.phase = SetupPhase::OutputPipe;
                self.input_read = read;
                self.input_write = write;
                self.owned = vec![Resource::Handle(read), Resource::Handle(write)];
                assert(self.owned@ =~= seq![Resource::Handle(read), Resource::Handle(write)]);
                Step::Perform(Action::CreatePipe)
            },
            (SetupPhase::OutputPipe, Event::Pipe { read, write }) => {
                self.phase = SetupPhase::PseudoConsole;
                self.output_read = read;
                self.output_write = write;
                self.owned = vec![
                    Resource::Handle(self.input_read),
                    Resource::Handle(self.input_write),
                    Resource::Handle(read),
                    Resource::Handle(write),
                ];
                assert(self.owned@ =~= seq![
                    Resource::Handle(self.input_read),
                    Resource::Handle(self.input_write),
                    Resource::Handle(read),
                    Resource::Handle(write),
                ]);
                Step::Perform(
                    Action::CreatePseudoConsole {
                        cols: self.cols,
                        rows: self.rows,
                        input: self.input_read,
                        output: write,
                    },
                )
            },
            (SetupPhase::PseudoConsole, Event::Handle(console)) => {
                self.phase = SetupPhase::CloseInputRead;
                self.console = console;
                self.owned = vec![
                    Resource::Handle(self.input_write),
                    Resource::Handle(self.output_read),
                    Resource::Handle(self.output_write),
                    Resource::PseudoConsole(console),
                ];
                assert(self.owned@ =~= seq![
                    Resource::Handle(self.input_write),
                    Resource::Handle(self.output_read),
                    Resource::Handle(self.output_write),
                    Resource::PseudoConsole(console),
                ]);
                Step::Perform(Action::CloseHandle { handle: self.input_read })
            },
            (SetupPhase::CloseInputRead, _) => {
                self.phase = SetupPhase::CloseOutputWrite;
                self.owned = vec![
                    Resource::Handle(self.input_write),
                    Resource::Handle(self.output_read),
                    Resource::PseudoConsole(self.console),
                ];
                assert(self.owned@ =~= seq![
                    Resource::Handle(self.input_write),
                    Resource::Handle(self.output_read),
                    Resource::PseudoConsole(self.console),
                ]);
                Step::Perform(Action::CloseHandle { handle: self.output_write })
            },
            (SetupPhase::CloseOutputWrite, _) => {
                self.phase = SetupPhase::Ended;
                self.owned = Vec::new();
                assert(self.owned@ =~= Seq::<Resource>::empty());
                Step::Finished(Ok(ConPTY::built(self.console, self.input_write, self.output_read)))
            },
            (SetupPhase::Unwinding, _) => self.unwind(),
            (SetupPhase::Ended, _) => Step::Finished(Err(nothing_pending())),
            (_, event) => self.fail_on(event),
        }
    }
}

impl ConPTY {
    /// The backend on a new pseudoconsole.
    fn built(console: isize, conin: isize, conout: isize) -> (pty: ConPTY)
        ensures
            pty@ == ConPTYView::built(console, conin, conout),
    {
        ConPTY {
            enabled: true,
            handle: console,
            process: 0,
            thread: 0,
            attribute_list: 0,
            pending: ConPending::Idle,
            io: PTYProcess::borrowing(conin, conout, true),
            command_line: Vec::new(),
            working_dir: None,
            environment: None,
            owned: Vec::new(),
            failure: String::new(),
        }
    }

    /// The backend as it stands where the pseudoconsole is not available:
    /// every operation on it fails.
    pub fn disabled() -> (pty: ConPTY)
        ensures
            pty@ == ConPTYView::disabled(),
            pty@.wf(),
    {
        proof {
            lemma_built_is_well_formed(0, 0, 0);
        }
        let mut pty = ConPTY::built(0, 0, 0);
        pty.enabled = false;
        pty
    }

    /// Starts the construction of a backend for the given arguments.
    /// `enabled` says whether the pseudoconsole is available on this system.
    ///
    /// Where it is not, and where the size is not positive in both
    /// dimensions, the construction fails at once and the host is asked for
    /// nothing.
    pub fn new(args: &PTYArgs, enabled: bool) -> (started: (ConPTYSetup, Step<ConPTY>))
        ensures
            (started.0@, started.1@) == SetupView::begin(args.cols, args.rows, enabled),
            started.0@.wf(),
    {
        let mut setup = ConPTYSetup {
            phase: SetupPhase::Console,
            cols: args.cols,
            rows: args.rows,
            console_out: 0,
            console_in: 0,
            input_read: 0,
            input_write: 0,
            output_read: 0,
            output_write: 0,
            console: 0,
            owned: Vec::new(),
            failure: String::new(),
        };
        if !enabled {
            setup.phase = SetupPhase::Ended;
            (setup, Step::Finished(Err(not_enabled())))
        } else if args.cols <= 0 || args.rows <= 0 {
            setup.phase = SetupPhase::Ended;
            (setup, Step::Finished(Err(size_error(args.cols, args.rows))))
        } else {
            (setup, Step::Perform(Action::AllocConsole))
        }
    }

    /// The process I/O core of the backend.
    pub fn process(&self) -> (io: &PTYProcess)
        ensures
            io@ == self@.io,
    {
        &self.io
    }

    /// Whether no operation is under way.
    pub fn is_idle(&self) -> (idle: bool)
        ensures
            idle == (self@.pending is Idle),
    {
        match self.pending {
            ConPending::Idle => true,
            _ => false,
        }
    }

    /// Records the move that the process I/O core has made.
    fn delegated(&mut self, step: Step<Output>) -> (same: Step<Output>)
        requires
            old(self)@.enabled,
        ensures
            same == step,
            (final(self)@, same@) == old(self)@.delegate((old(self)@.io, step@)),
    {
        self.pending = match step {
            Step::Perform(_) => ConPending::Io,
            Step::Finished(_) => ConPending::Idle,
        };
        step
    }

    /// Forgets what was made ready for a spawn.
    fn clear_spawn(&mut self)
        ensures
            final(self)@ == (ConPTYView {
                command_line: Seq::empty(),
                working_dir: None,
                environment: None,
                ..old(self)@
            }),
    {
        self.command_line = Vec::new();
        self.working_dir = None;
        self.environment = None;
    }

    /// Gives back the resource that was got last, or reports the error when
    /// none is left.
    fn unwind(&mut self) -> (step: Step<Output>)
        ensures
            (final(self)@, step@) == old(self)@.unwind(),
    {
        match self.owned.pop() {
            Some(resource) => {
                self.pending = ConPending::Unwind;
                Step::Perform(resource.release_action())
            },
            None => {
                self.pending = ConPending::Idle;
                Step::Finished(Err(self.failure.clone()))
            },
        }
    }

    /// Gives back what a spawn that has failed holds.
    fn spawn_failed(&mut self, message: String) -> (step: Step<Output>)
        ensures
            (final(self)@, step@) == old(self)@.spawn_failed(message@),
    {
        self.failure = message;
        self.attribute_list = 0;
        self.clear_spawn();
        self.unwind()
    }
}

impl PTYImpl for ConPTY {
    open spec fn io(&self) -> ProcessState {
        self@.io
    }

    open spec fn enabled(&self) -> bool {
        self@.enabled
    }

    open spec fn well_formed(&self) -> bool {
        self@.wf()
    }

    open spec fn idle(&self) -> bool {
        self@.pending is Idle
    }

    open spec fn delegating(&self) -> bool {
        self@.pending == ConPending::Io
    }

    open spec fn not_enabled_text() -> Seq<char> {
        not_enabled_text()
    }

    open spec fn parting(&self) -> Seq<ActionView> {
        self@.teardown()
    }

    fn spawn(
        &mut self,
        appname: Vec<u16>,
        cmdline: Option<Vec<u16>>,
        cwd: Option<Vec<u16>>,
        env: Option<Vec<u16>>,
    ) -> (step: Step<Output>)
        ensures
            (final(self)@, step@) == old(self)@.spawn(
                appname@,
                wide_view(cmdline),
                wide_view(cwd),
                wide_view(env),
            ),
    {
        if !self.enabled {
            Step::Finished(Err(not_enabled()))
        } else if !self.is_idle() {
            Step::Finished(Err(busy()))
        } else if self.io.process_handle() != 0 || self.io.pid() != 0 {
            Step::Finished(Err(already_spawned()))
        } else {
            self.pending = ConPending::AttributeList;
            self.owned = Vec::new();
            assert(self.owned@ =~= Seq::<Resource>::empty());
            self.command_line = build_command_line(appname, cmdline);
            self.working_dir = match cwd {
                Some(dir) => Some(terminate(dir)),
                None => None,
            };
            self.environment = match env {
                Some(entries) => Some(build_environment_block(entries)),
                None => None,
            };
            Step::Perform(Action::InitializeAttributeList)
        }
    }

    fn set_size(&mut self, cols: i32, rows: i32) -> (step: Step<Output>)
        ensures
            (final(self)@, step@) == old(self)@.set_size(cols, rows),
    {
        if !self.enabled {
            Step::Finished(Err(not_enabled()))
        } else if cols <= 0 || rows <= 0 {
            Step::Finished(Err(size_error(cols, rows)))
        } else if !self.is_idle() {
            Step::Finished(Err(busy()))
        } else {
            self.pending = ConPending::Resize;
            Step::Perform(Action::ResizePseudoConsole { console: self.handle, cols, rows })
        }
    }

    fn read(&mut self, length: u32, blocking: bool) -> (step: Step<Output>)
        ensures
            (final(self)@, step@) == old(self)@.through_core(old(self)@.io.read(length, blocking)),
    {
        if !self.enabled {
            return Step::Finished(Err(not_enabled()));
        }
        if !self.is_idle() {
            return Step::Finished(Err(busy()));
        }
        let step = self.io.read(length, blocking);
        self.delegated(step)
    }

    fn write(&mut self, buf: Vec<u16>) -> (step: Step<Output>)
        ensures
            (final(self)@, step@) == old(self)@.through_core(old(self)@.io.write(buf@)),
    {
        if !self.enabled {
            return Step::Finished(Err(not_enabled()));
        }
        if !self.is_idle() {
            return Step::Finished(Err(busy()));
        }
        let step = self.io.write(&buf);
        self.delegated(step)
    }

    fn is_eof(&mut self) -> (step: Step<Output>)
        ensures
            (final(self)@, step@) == old(self)@.through_core(old(self)@.io.is_eof()),
    {
        if !self.enabled {
            return Step::Finished(Err(not_enabled()));
        }
        if !self.is_idle() {
            return Step::Finished(Err(busy()));
        }
        let step = self.io.is_eof();
        self.delegated(step)
    }

    fn get_exitstatus(&mut self) -> (step: Step<Output>)
        ensures
            (final(self)@, step@) == old(self)@.through_core(old(self)@.io.get_exitstatus()),
    {
        if !self.enabled {
            return Step::Finished(Err(not_enabled()));
        }
        if !self.is_idle() {
            return Step::Finished(Err(busy()));
        }
        let step = self.io.get_exitstatus();
        self.delegated(step)
    }

    fn is_alive(&mut self) -> (step: Step<Output>)
        ensures
            (final(self)@, step@) == old(self)@.through_core(old(self)@.io.is_alive()),
    {
        if !self.enabled {
            return Step::Finished(Err(not_enabled()));
        }
        if !self.is_idle() {
            return Step::Finished(Err(busy()));
        }
        let step = self.io.is_alive();
        self.delegated(step)
    }

    fn resume(&mut self, event: Event) -> (step: Step<Output>)
        ensures
            (final(self)@, step@) == old(self)@.resume(event@),
    {
        proof {
            if self@.wf() {
                lemma_event_keeps_well_formed(self@, event@);
            }
        }
        let pending = self.pending;
        match (pending, event) {
            (ConPending::Idle, _) => Step::Finished(Err(nothing_pending())),
            (ConPending::Io, event) => {
                let step = self.io.resume(event);
                self.pending = match step {
                    Step::Perform(_) => ConPending::Io,
                    Step::Finished(_) => ConPending::Idle,
                };
                step
            },
            (ConPending::Resize, Event::Done) => {
                self.pending = ConPending::Idle;
                Step::Finished(Ok(Output::Unit))
            },
            (ConPending::Resize, event) => {
                self.pending = ConPending::Idle;
                Step::Finished(Err(failure_of(event)))
            },
            (ConPending::AttributeList, Event::Handle(list)) => {
                self.pending = ConPending::AttributeUpdate;
                self.attribute_list = list;
                self.owned = vec![Resource::AttributeList(list)];
                assert(self.owned@ =~= seq![Resource::AttributeList(list)]);
                Step::Perform(Action::UpdateAttributeList { list, console: self.handle })
            },
            (ConPending::AttributeList, event) => {
                self.pending = ConPending::Idle;
                self.clear_spawn();
                Step::Finished(Err(failure_of(event)))
            },
            (ConPending::AttributeUpdate, Event::Done) => {
                self.pending = ConPending::Process;
                let mut command_line: Vec<u16> = Vec::new();
                core::mem::swap(&mut self.command_line, &mut command_line);
                let working_dir = self.working_dir.take();
                let environment = self.environment.take();
                Step::Perform(
                    Action::CreateProcess {
                        command_line,
                        working_dir,
                        environment,
                        attribute_list: self.attribute_list,
                    },
                )
            },
            (ConPending::AttributeUpdate, event) => self.spawn_failed(failure_of(event)),
            (ConPending::Process, Event::Process { process, thread }) => {
                if self.io.process_handle() != 0 || self.io.pid() != 0 {
                    self.owned.push(Resource::Handle(process));
                    self.owned.push(Resource::Handle(thread));
                    self.spawn_failed(already_spawned())
                } else {
                    self.pending = ConPending::Bind;
                    self.process = process;
                    self.thread = thread;
                    self.owned = Vec::new();
                    assert(self.owned@ =~= Seq::<Resource>::empty());
                    self.io.set_process(process, false)
                }
            },
            (ConPending::Process, event) => self.spawn_failed(failure_of(event)),
            (ConPending::Bind, event) => {
                self.pending = ConPending::Idle;
                match self.io.resume(event) {
                    Step::Finished(Ok(_)) => Step::Finished(Ok(Output::Flag(true))),
                    Step::Finished(Err(message)) => Step::Finished(Err(message)),
                    Step::Perform(_) => Step::Finished(Err(unexpected_reply())),
                }
            },
            (ConPending::Unwind, _) => self.unwind(),
        }
    }

    fn teardown(self) -> (actions: Vec<Action>)
    {
        let mut actions: Vec<Action> = Vec::new();
        if !is_invalid(self.thread) {
            actions.push(Action::CloseHandle { handle: self.thread });
        }
        if !is_invalid(self.process) {
            actions.push(Action::CloseHandle { handle: self.process });
        }
        if self.attribute_list != 0 {
            actions.push(Action::DeleteAttributeList { list: self.attribute_list });
        }
        if self.enabled {
            actions.push(Action::ClosePseudoConsole { console: self.handle });
        }
        let ghost own = actions@;
        let mut rest = self.io.teardown();
        let ghost tail = rest@;
        actions.append(&mut rest);
        proof {
            assert(actions@ == own + tail);
            assert(actions_view(own + tail) =~= actions_view(own) + actions_view(tail));
            assert(actions_view(own) =~= self@.teardown().take(own.len() as int));
            assert(actions_view(actions@) =~= self@.teardown());
        }
        actions
    }
}

} // verus!
