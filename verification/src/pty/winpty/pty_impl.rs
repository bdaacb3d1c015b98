//! The backend on the winpty agent.

use vstd::prelude::*;
use vstd::string::*;

use super::bindings::{winpty_config_s, winpty_s, winpty_spawn_config_s, WINPTY_SPAWN_FLAG_MASK};
use super::model::{not_enabled, not_enabled_text, SetupPhase, SetupView, WinPTYView, WinPending};
use crate::pty::base::{PTYImpl, PTYProcess, ProcessState};
use crate::pty::messages::size_error;
use super::laws::{
    lemma_built_is_well_formed, lemma_event_keeps_well_formed, lemma_holds_what_its_phase_says,
};
use crate::pty::protocol::{
    actions_view, already_spawned, busy, failure_of, nothing_pending, unexpected_reply,
    wide_view, Access, Action, ActionView, Event, Output, Step, StepView,
};
use crate::pty::resources::Resource;
use crate::pty::wide::{build_environment_block, terminate, terminate_optional};
use crate::pty::PTYArgs;

verus! {

/// The construction of an agent backend, step by step.
#[derive(Debug)]
pub struct WinPTYSetup {
    phase: SetupPhase,
    cols: i32,
    rows: i32,
    mouse_mode: i32,
    timeout: u32,
    flags: u64,
    config: winpty_config_s,
    agent: winpty_s,
    conin: isize,
    owned: Vec<Resource>,
    failure: String,
}

impl View for WinPTYSetup {
    type V = SetupView;

    closed spec fn view(&self) -> SetupView {
        SetupView {
            phase: self.phase,
            cols: self.cols,
            rows: self.rows,
            mouse_mode: self.mouse_mode,
            timeout: self.timeout,
            flags: self.flags,
            config: self.config,
            agent: self.agent,
            conin: self.conin,
            owned: self.owned@,
            failure: self.failure@,
        }
    }
}

/// A pseudoterminal that a winpty agent emulates.
#[derive(Debug)]
pub struct WinPTY {
    enabled: bool,
    agent: winpty_s,
    pending: WinPending,
    io: PTYProcess,
    spawn_config: winpty_spawn_config_s,
    owned: Vec<Resource>,
    failure: String,
}

impl View for WinPTY {
    type V = WinPTYView;

    closed spec fn view(&self) -> WinPTYView {
        WinPTYView {
            enabled: self.enabled,
            agent: self.agent,
            pending: self.pending,
            io: self.io@,
            spawn_config: self.spawn_config,
            owned: self.owned@,
            failure: self.failure@,
        }
    }
}

impl WinPTYSetup {
    /// Gives back the resource that was got last, or reports the error when
    /// none is left.
    fn unwind(&mut self) -> (step: Step<WinPTY>)
        ensures
            (final(self)@, step@) == old(self)@.unwind(),
    {
        match self.owned.pop() {
            Some(resource) => {
                self.phase = SetupPhase::Unwinding;
                Step::Perform(resource.release_action())
            },
            None => {
                self.phase = SetupPhase::Ended;
                Step::Finished(Err(self.failure.clone()))
            },
        }
    }

    /// Starts to unwind after an event that is no success.
    fn fail_on(&mut self, event: Event) -> (step: Step<WinPTY>)
        ensures
            (final(self)@, step@) == old(self)@.fail_on(event@),
    {
        self.failure = failure_of(event);
        self.unwind()
    }

    /// Takes the event that answers the action under way, and says how the
    /// construction goes on. It goes through these actions, in this order: a
    /// configuration with the flags asked for; the initial size, the mouse
    /// mode and the timeout in it; the agent, started from it; the freeing of
    /// the configuration, whether the agent started or not; the name of the
    /// agent's input pipe and that pipe, opened for writing; the name of its
    /// output pipe and that pipe, opened for reading. It then finishes with
    /// the backend. Where the agent library leaves an error object, its text
    /// is read and the object is freed right after. As soon as one action
    /// fails, everything that the construction holds is given back, and it
    /// finishes with the error of that action.
    pub fn resume(&mut self, event: Event) -> (step: Step<WinPTY>)
        ensures
            (final(self)@, step@) == old(self)@.resume(event@),
            old(self)@.wf() ==> final(self)@.wf(),
            step@ matches StepView::Finished(Ok(pty)) ==> pty.wf(),
    {
        proof {
            if self@.wf() {
                lemma_holds_what_its_phase_says(self@, event@);
            }
            lemma_built_is_well_formed(self.agent, self.conin);
        }
        match (self.phase, event) {
            (SetupPhase::Unwinding, _) => self.unwind(),
            (SetupPhase::Ended, _) => Step::Finished(Err(nothing_pending())),
            (SetupPhase::ErrorText, Event::Message(message)) => {
                self.failure = message;
                self.unwind()
            },
            (SetupPhase::ErrorText, event) => self.fail_on(event),
            (SetupPhase::InitialSize, _) => {
                self.phase = SetupPhase::MouseMode;
                Step::Perform(
                    Action::ConfigSetMouseMode { config: self.config, mouse_mode: self.mouse_mode },
                )
            },
            (SetupPhase::MouseMode, _) => {
                self.phase = SetupPhase::Timeout;
                Step::Perform(
                    Action::ConfigSetAgentTimeout { config: self.config, timeout: self.timeout },
                )
            },
            (SetupPhase::Timeout, _) => {
                self.phase = SetupPhase::Open;
                Step::Perform(Action::Open { config: self.config })
            },
            (SetupPhase::FreeConfig, _) => {
                self.phase = SetupPhase::ConinName;
                Step::Perform(Action::ConinName { agent: self.agent })
            },
            (_, Event::AgentFailed(error)) => {
                self.phase = SetupPhase::ErrorText;
                self.owned.push(Resource::Error(error));
                Step::Perform(Action::ErrorMessage { error })
            },
            (SetupPhase::Config, Event::Config(config)) => {
                self.phase = SetupPhase::InitialSize;
                self.config = config;
                self.owned = vec![Resource::Config(config)];
                assert(self.owned@ =~= seq![Resource::Config(config)]);
                Step::Perform(
                    Action::ConfigSetInitialSize { config, cols: self.cols, rows: self.rows },
                )
            },
            (SetupPhase::Open, Event::Agent(agent)) => {
                self.phase = SetupPhase::FreeConfig;
                self.agent = agent;
                self.owned = vec![Resource::Agent(agent)];
                assert(self.owned@ =~= seq![Resource::Agent(agent)]);
                Step::Perform(Action::ConfigFree { config: self.config })
            },
            (SetupPhase::ConinName, Event::Name(name)) => {
                self.phase = SetupPhase::OpenConin;
                Step::Perform(Action::OpenPipe { name: terminate(name), access: Access::Write })
            },
            (SetupPhase::OpenConin, Event::Handle(handle)) => {
                self.phase = SetupPhase::ConoutName;
                self.conin = handle;
                self.owned = vec![Resource::Agent(self.agent), Resource::Handle(handle)];
                assert(self.owned@ =~= seq![Resource::Agent(self.agent), Resource::Handle(handle)]);
                Step::Perform(Action::ConoutName { agent: self.agent })
            },
            (SetupPhase::ConoutName, Event::Name(name)) => {
                self.phase = SetupPhase::OpenConout;
                Step::Perform(Action::OpenPipe { name: terminate(name), access: Access::Read })
            },
            (SetupPhase::OpenConout, Event::Handle(handle)) => {
                self.phase = SetupPhase::Ended;
                self.owned = Vec::new();
                assert(self.owned@ =~= Seq::<Resource>::empty());
                Step::Finished(Ok(WinPTY::built(self.agent, self.conin, handle)))
            },
            (_, event) => self.fail_on(event),
        }
    }
}

impl WinPTY {
    /// The backend on a new agent.
    fn built(agent: winpty_s, conin: isize, conout: isize) -> (pty: WinPTY)
        ensures
            pty@ == WinPTYView::built(agent, conin, conout),
    {
        WinPTY {
            enabled: true,
            agent,
            pending: WinPending::Idle,
            io: PTYProcess::new(conin, conout, false),
            spawn_config: winpty_spawn_config_s { address: 0 },
            owned: Vec::new(),
            failure: String::new(),
        }
    }

    /// The backend as it stands where the agent library is not available:
    /// every operation on it fails.
    pub fn disabled() -> (pty: WinPTY)
        ensures
            pty@ == WinPTYView::disabled(),
            pty@.wf(),
    {
        proof {
            lemma_built_is_well_formed(winpty_s { address: 0 }, 0);
        }
        let mut pty = WinPTY::built(winpty_s { address: 0 }, 0, 0);
        pty.enabled = false;
        pty
    }

    /// Starts the construction of a backend for the given arguments.
    /// `enabled` says whether the agent library is available on this system.
    ///
    /// Where it is not, and where the size is not positive in both
    /// dimensions, the construction fails at once and the host is asked for
    /// nothing.
    pub fn new(args: &PTYArgs, enabled: bool) -> (started: (WinPTYSetup, Step<WinPTY>))
        ensures
            (started.0@, started.1@) == SetupView::begin(*args, enabled),
            started.0@.wf(),
    {
        let mut setup = WinPTYSetup {
            phase: SetupPhase::Config,
            cols: args.cols,
            rows: args.rows,
            mouse_mode: args.mouse_mode.to_i32(),
            timeout: args.timeout,
            flags: args.agent_config.bits(),
            config: winpty_config_s { address: 0 },
            agent: winpty_s { address: 0 },
            conin: 0,
            owned: Vec::new(),
            failure: String::new(),
        };
        if !enabled {
            setup.phase = SetupPhase::Ended;
            (setup, Step::Finished(Err(not_enabled())))
        } else if args.cols <= 0 || args.rows <= 0 {
            setup.phase = SetupPhase::Ended;
            (setup, Step::Finished(Err(size_error(args.cols, args.rows))))
        } else {
            let flags = setup.flags;
            (setup, Step::Perform(Action::ConfigNew { flags }))
        }
    }

    /// The process I/O core of the backend.
    pub fn process(&self) -> (io: &PTYProcess)
        ensures
            io@ == self@.io,
    {
        &self.io
    }

    /// Whether no operation is under way.
    pub fn is_idle(&self) -> (idle: bool)
        ensures
            idle == (self@.pending is Idle),
    {
        match self.pending {
            WinPending::Idle => true,
            _ => false,
        }
    }

    /// Records the move that the process I/O core has made.
    fn delegated(&mut self, step: Step<Output>) -> (same: Step<Output>)
        ensures
            same == step,
            (final(self)@, same@) == old(self)@.delegate((old(self)@.io, step@)),
    {
        self.pending = match step {
            Step::Perform(_) => WinPending::Io,
            Step::Finished(_) => WinPending::Idle,
        };
        step
    }

    /// Gives back the resource that was got last, or reports the error when
    /// none is left.
    fn unwind(&mut self) -> (step: Step<Output>)
        ensures
            (final(self)@, step@) == old(self)@.unwind(),
    {
        match self.owned.pop() {
            Some(resource) => {
                self.pending = WinPending::Unwinding;
                Step::Perform(resource.release_action())
            },
            None => {
                self.pending = WinPending::Idle;
                Step::Finished(Err(self.failure.clone()))
            },
        }
    }

    /// Starts to unwind after an event that is no success.
    fn fail_on(&mut self, event: Event) -> (step: Step<Output>)
        ensures
            (final(self)@, step@) == old(self)@.fail_on(event@),
    {
        self.failure = failure_of(event);
        self.unwind()
    }
}

impl PTYImpl for WinPTY {
    open spec fn io(&self) -> ProcessState {
        self@.io
    }

    open spec fn enabled(&self) -> bool {
        self@.enabled
    }

    open spec fn well_formed(&self) -> bool {
        self@.wf()
    }

    open spec fn idle(&self) -> bool {
        self@.pending is Idle
    }

    open spec fn delegating(&self) -> bool {
        self@.pending == WinPending::Io
    }

    open spec fn not_enabled_text() -> Seq<char> {
        not_enabled_text()
    }

    open spec fn parting(&self) -> Seq<ActionView> {
        self@.teardown()
    }

    fn spawn(
        &mut self,
        appname: Vec<u16>,
        cmdline: Option<Vec<u16>>,
        cwd: Option<Vec<u16>>,
        env: Option<Vec<u16>>,
    ) -> (step: Step<Output>)
        ensures
            (final(self)@, step@) == old(self)@.spawn(
                appname@,
                wide_view(cmdline),
                wide_view(cwd),
                wide_view(env),
            ),
    {
        if !self.enabled {
            Step::Finished(Err(not_enabled()))
        } else if !self.is_idle() {
            Step::Finished(Err(busy()))
        } else if self.io.process_handle() != 0 || self.io.pid() != 0 {
            Step::Finished(Err(already_spawned()))
        } else {
            self.pending = WinPending::SpawnConfig;
            self.owned = Vec::new();
            assert(self.owned@ =~= Seq::<Resource>::empty());
            Step::Perform(
                Action::SpawnConfigNew {
                    flags: WINPTY_SPAWN_FLAG_MASK,
                    appname: terminate(appname),
                    cmdline: terminate_optional(cmdline),
                    cwd: terminate_optional(cwd),
                    env: match env {
                        Some(entries) => Some(build_environment_block(entries)),
                        None => None,
                    },
                },
            )
        }
    }

    fn set_size(&mut self, cols: i32, rows: i32) -> (step: Step<Output>)
        ensures
            (final(self)@, step@) == old(self)@.set_size(cols, rows),
    {
        if !self.enabled {
            Step::Finished(Err(not_enabled()))
        } else if cols <= 0 || rows <= 0 {
            Step::Finished(Err(size_error(cols, rows)))
        } else if !self.is_idle() {
            Step::Finished(Err(busy()))
        } else {
            self.pending = WinPending::Resize;
            self.owned = Vec::new();
            assert(self.owned@ =~= Seq::<Resource>::empty());
            Step::Perform(Action::SetSize { agent: self.agent, cols, rows })
        }
    }

    fn read(&mut self, length: u32, blocking: bool) -> (step: Step<Output>)
        ensures
            (final(self)@, step@) == old(self)@.through_core(old(self)@.io.read(length, blocking)),
    {
        if !self.enabled {
            return Step::Finished(Err(not_enabled()));
        }
        if !self.is_idle() {
            return Step::Finished(Err(busy()));
        }
        let step = self.io.read(length, blocking);
        self.delegated(step)
    }

    fn write(&mut self, buf: Vec<u16>) -> (step: Step<Output>)
        ensures
            (final(self)@, step@) == old(self)@.through_core(old(self)@.io.write(buf@)),
    {
        if !self.enabled {
            return Step::Finished(Err(not_enabled()));
        }
        if !self.is_idle() {
            return Step::Finished(Err(busy()));
        }
        let step = self.io.write(&buf);
        self.delegated(step)
    }

    fn is_eof(&mut self) -> (step: Step<Output>)
        ensures
            (final(self)@, step@) == old(self)@.through_core(old(self)@.io.is_eof()),
    {
        if !self.enabled {
            return Step::Finished(Err(not_enabled()));
        }
        if !self.is_idle() {
            return Step::Finished(Err(busy()));
        }
        let step = self.io.is_eof();
        self.delegated(step)
    }

    fn get_exitstatus(&mut self) -> (step: Step<Output>)
        ensures
            (final(self)@, step@) == old(self)@.through_core(old(self)@.io.get_exitstatus()),
    {
        if !self.enabled {
            return Step::Finished(Err(not_enabled()));
        }
        if !self.is_idle() {
            return Step::Finished(Err(busy()));
        }
        let step = self.io.get_exitstatus();
        self.delegated(step)
    }

    fn is_alive(&mut self) -> (step: Step<Output>)
        ensures
            (final(self)@, step@) == old(self)@.through_core(old(self)@.io.is_alive()),
    {
        if !self.enabled {
            return Step::Finished(Err(not_enabled()));
        }
        if !self.is_idle() {
            return Step::Finished(Err(busy()));
        }
        let step = self.io.is_alive();
        self.delegated(step)
    }

    fn resume(&mut self, event: Event) -> (step: Step<Output>)
        ensures
            (final(self)@, step@) == old(self)@.resume(event@),
    {
        proof {
            if self@.wf() {
                lemma_event_keeps_well_formed(self@, event@);
            }
        }
        let pending = self.pending;
        match (pending, event) {
            (WinPending::Idle, _) => Step::Finished(Err(nothing_pending())),
            (WinPending::Io, event) => {
                let step = self.io.resume(event);
                self.delegated(step)
            },
            (WinPending::Unwinding, _) => self.unwind(),
            (WinPending::ErrorText, Event::Message(message)) => {
                self.failure = message;
                self.unwind()
            },
            (WinPending::ErrorText, event) => self.fail_on(event),
            (WinPending::FreeSpawnConfig { process }, _) => {
                if self.io.process_handle() != 0 || self.io.pid() != 0 {
                    self.failure = already_spawned();
                    self.owned = vec![Resource::Handle(process)];
                    assert(self.owned@ =~= seq![Resource::Handle(process)]);
                    self.unwind()
                } else {
                    self.pending = WinPending::Bind;
                    self.io.set_process(process, true)
                }
            },
            (WinPending::Bind, event) => {
                self.pending = WinPending::Idle;
                match self.io.resume(event) {
                    Step::Finished(Ok(_)) => Step::Finished(Ok(Output::Flag(true))),
                    Step::Finished(Err(message)) => Step::Finished(Err(message)),
                    Step::Perform(_) => Step::Finished(Err(unexpected_reply())),
                }
            },
            (_, Event::AgentFailed(error)) => {
                self.pending = WinPending::ErrorText;
                self.owned.push(Resource::Error(error));
                Step::Perform(Action::ErrorMessage { error })
            },
            (WinPending::Resize, Event::Done) => {
                self.pending = WinPending::Idle;
                Step::Finished(Ok(Output::Unit))
            },
            (WinPending::SpawnConfig, Event::SpawnConfig(config)) => {
                self.pending = WinPending::Spawn;
                self.spawn_config = config;
                self.owned = vec![Resource::SpawnConfig(config)];
                assert(self.owned@ =~= seq![Resource::SpawnConfig(config)]);
                Step::Perform(Action::Spawn { agent: self.agent, spawn_config: config })
            },
            (WinPending::Spawn, Event::Handle(process)) => {
                self.pending = WinPending::FreeSpawnConfig { process };
                self.owned = Vec::new();
                assert(self.owned@ =~= Seq::<Resource>::empty());
                Step::Perform(Action::SpawnConfigFree { spawn_config: self.spawn_config })
            },
            (_, event) => self.fail_on(event),
        }
    }

    fn teardown(self) -> (actions: Vec<Action>)
    {
        let enabled = self.enabled;
        let agent = self.agent;
        let mut actions = self.io.teardown();
        if enabled {
            actions.push(Action::Free { agent });
        }
        assert(actions_view(actions@) =~= self@.teardown());
        actions
    }
}

} // verus!
