//! What the backend on the winpty agent does, as a function of what it holds
//! and of what the host answers.

use vstd::prelude::*;
use vstd::string::*;

use super::bindings::{
    winpty_config_s, winpty_error_s, winpty_s, winpty_spawn_config_s, WINPTY_SPAWN_FLAG_MASK,
};
use crate::pty::base::ProcessState;
use crate::pty::messages::size_error_text;
use crate::pty::protocol::{
    already_spawned_text, busy_text, failed, failure_text, finished, nothing_pending_text,
    unexpected_reply_text, Access, ActionView, EventView, OutputView, StepView,
};
use crate::pty::resources::Resource;
use crate::pty::wide::{environment_block, terminated};
use crate::pty::PTYArgs;

verus! {

/// The text of the error of a backend that is not available.
pub open spec fn not_enabled_text() -> Seq<char> {
    "winpty_rs was compiled without WinPTY enabled"@
}

/// The error of a backend that is not available.
pub fn not_enabled() -> (message: String)
    ensures
        message@ == not_enabled_text(),
{
    String::from_str("winpty_rs was compiled without WinPTY enabled")
}

/// What the construction of an agent backend waits for.
#[derive(Copy, Clone, Debug, PartialEq, Eq, Structural)]
pub enum SetupPhase {
    /// The configuration of the agent.
    Config,
    /// The initial size to be in the configuration.
    InitialSize,
    /// The mouse mode to be in the configuration.
    MouseMode,
    /// The timeout to be in the configuration.
    Timeout,
    /// The agent.
    Open,
    /// The configuration to be freed.
    FreeConfig,
    /// The name of the agent's input pipe.
    ConinName,
    /// The agent's input pipe.
    OpenConin,
    /// The name of the agent's output pipe.
    ConoutName,
    /// The agent's output pipe.
    OpenConout,
    /// The text of an error of the agent library.
    ErrorText,
    /// A resource to be given back, after a failure.
    Unwinding,
    /// Nothing: the construction has ended.
    Ended,
}

/// The construction of an agent backend, in specifications.
pub struct SetupView {
    /// What the construction waits for.
    pub phase: SetupPhase,
    /// What was asked for.
    pub cols: i32,
    pub rows: i32,
    pub mouse_mode: i32,
    pub timeout: u32,
    pub flags: u64,
    /// The configuration, the agent and its input pipe, once they are there.
    pub config: winpty_config_s,
    pub agent: winpty_s,
    pub conin: isize,
    /// What the construction holds and would have to give back if it failed
    /// now, in the order in which it got them.
    pub owned: Seq<Resource>,
    /// The error that made the construction fail.
    pub failure: Seq<char>,
}

/// What an agent backend waits for.
#[derive(Copy, Clone, Debug, PartialEq, Eq, Structural)]
pub enum WinPending {
    /// Nothing: no operation is under way.
    Idle,
    /// What the process I/O core waits for.
    Io,
    /// The terminal to be resized.
    Resize,
    /// The configuration of a spawn.
    SpawnConfig,
    /// The process of a spawn.
    Spawn,
    /// The configuration of a spawn to be freed, now that the process is
    /// there.
    FreeSpawnConfig { process: isize },
    /// The identifier of the process of a spawn.
    Bind,
    /// The text of an error of the agent library.
    ErrorText,
    /// A resource to be given back, after a failure.
    Unwinding,
}

/// An agent and the process in its terminal, in specifications.
pub struct WinPTYView {
    /// Whether the backend is available.
    pub enabled: bool,
    /// The agent.
    pub agent: winpty_s,
    /// What the backend waits for.
    pub pending: WinPending,
    /// The process I/O core.
    pub io: ProcessState,
    /// The configuration of the spawn under way.
    pub spawn_config: winpty_spawn_config_s,
    /// What the operation under way holds and has to give back before it
    /// ends, in the order in which it got them.
    pub owned: Seq<Resource>,
    /// The error that made an operation fail.
    pub failure: Seq<char>,
}

impl SetupView {
    /// The construction before its first action.
    pub open spec fn start(args: PTYArgs) -> SetupView {
        SetupView {
            phase: SetupPhase::Config,
            cols: args.cols,
            rows: args.rows,
            mouse_mode: args.mouse_mode.spec_to_i32(),
            timeout: args.timeout,
            flags: args.agent_config.spec_bits(),
            config: winpty_config_s { address: 0 },
            agent: winpty_s { address: 0 },
            conin: 0,
            owned: Seq::empty(),
            failure: Seq::empty(),
        }
    }

    /// The construction in another phase.
    pub open spec fn at(self, phase: SetupPhase) -> SetupView {
        SetupView { phase, ..self }
    }

    /// How a construction starts: it fails at once where the backend is not
    /// available or the size is not positive, and else asks for a
    /// configuration with the flags of the arguments.
    pub open spec fn begin(args: PTYArgs, enabled: bool) -> (SetupView, StepView<WinPTYView>) {
        if !enabled {
            (Self::start(args).at(SetupPhase::Ended), failed(not_enabled_text()))
        } else if !PTYArgs::valid_size(args.cols, args.rows) {
            (
                Self::start(args).at(SetupPhase::Ended),
                failed(size_error_text(args.cols, args.rows)),
            )
        } else {
            (
                Self::start(args),
                StepView::Perform(ActionView::ConfigNew { flags: args.agent_config.spec_bits() }),
            )
        }
    }

    /// The next step of a construction that has failed: the resource that was
    /// got last is given back, and when none is left the error is reported.
    pub open spec fn unwind(self) -> (SetupView, StepView<WinPTYView>) {
        if self.owned.len() == 0 {
            (self.at(SetupPhase::Ended), failed(self.failure))
        } else {
            (
                SetupView { phase: SetupPhase::Unwinding, owned: self.owned.drop_last(), ..self },
                StepView::Perform(self.owned.last().release()),
            )
        }
    }

    /// The step after an event that is no success and no error object.
    pub open spec fn fail_on(self, event: EventView) -> (SetupView, StepView<WinPTYView>) {
        SetupView { failure: failure_text(event), ..self }.unwind()
    }

    /// The step after the agent library has left an error object: the object
    /// is held, and its text is asked for.
    pub open spec fn agent_failed(self, error: winpty_error_s) -> (
        SetupView,
        StepView<WinPTYView>,
    ) {
        (
            SetupView {
                phase: SetupPhase::ErrorText,
                owned: self.owned.push(Resource::Error(error)),
                ..self
            },
            StepView::Perform(ActionView::ErrorMessage { error }),
        )
    }

    /// What an event does to the construction.
    pub open spec fn resume(self, event: EventView) -> (SetupView, StepView<WinPTYView>) {
        match (self.phase, event) {
            (SetupPhase::Unwinding, _) => self.unwind(),
            (SetupPhase::Ended, _) => (self, failed(nothing_pending_text())),
            (SetupPhase::ErrorText, EventView::Message(message)) => SetupView {
                failure: message,
                ..self
            }.unwind(),
            (SetupPhase::ErrorText, _) => self.fail_on(event),
            (SetupPhase::InitialSize, _) => (
                self.at(SetupPhase::MouseMode),
                StepView::Perform(
                    ActionView::ConfigSetMouseMode {
                        config: self.config,
                        mouse_mode: self.mouse_mode,
                    },
                ),
            ),
            (SetupPhase::MouseMode, _) => (
                self.at(SetupPhase::Timeout),
                StepView::Perform(
                    ActionView::ConfigSetAgentTimeout {
                        config: self.config,
                        timeout: self.timeout,
                    },
                ),
            ),
            (SetupPhase::Timeout, _) => (
                self.at(SetupPhase::Open),
                StepView::Perform(ActionView::Open { config: self.config }),
            ),
            (SetupPhase::FreeConfig, _) => (
                self.at(SetupPhase::ConinName),
                StepView::Perform(ActionView::ConinName { agent: self.agent }),
            ),
            (_, EventView::AgentFailed(error)) => self.agent_failed(error),
            (SetupPhase::Config, EventView::Config(config)) => (
                SetupView {
                    phase: SetupPhase::InitialSize,
                    config,
                    owned: seq![Resource::Config(config)],
                    ..self
                },
                StepView::Perform(
                    ActionView::ConfigSetInitialSize { config, cols: self.cols, rows: self.rows },
                ),
            ),
            (SetupPhase::Open, EventView::Agent(agent)) => (
                SetupView {
                    phase: SetupPhase::FreeConfig,
                    agent,
                    owned: seq![Resource::Agent(agent)],
                    ..self
                },
                StepView::Perform(ActionView::ConfigFree { config: self.config }),
            ),
            (SetupPhase::ConinName, EventView::Name(name)) => (
                self.at(SetupPhase::OpenConin),
                StepView::Perform(
                    ActionView::OpenPipe { name: terminated(name), access: Access::Write },
                ),
            ),
            (SetupPhase::OpenConin, EventView::Handle(handle)) => (
                SetupView {
                    phase: SetupPhase::ConoutName,
                    conin: handle,
                    owned: seq![Resource::Agent(self.agent), Resource::Handle(handle)],
                    ..self
                },
                StepView::Perform(ActionView::ConoutName { agent: self.agent }),
            ),
            (SetupPhase::ConoutName, EventView::Name(name)) => (
                self.at(SetupPhase::OpenConout),
                StepView::Perform(
                    ActionView::OpenPipe { name: terminated(name), access: Access::Read },
                ),
            ),
            (SetupPhase::OpenConout, EventView::Handle(handle)) => (
                SetupView { phase: SetupPhase::Ended, owned: Seq::empty(), ..self },
                StepView::Finished(Ok(WinPTYView::built(self.agent, self.conin, handle))),
            ),
            _ => self.fail_on(event),
        }
    }
}

impl WinPTYView {
    /// A backend on a new agent and its two pipes: no process yet, and a core
    /// that reads from a file.
    pub open spec fn built(agent: winpty_s, conin: isize, conout: isize) -> WinPTYView {
        WinPTYView {
            enabled: true,
            agent,
            pending: WinPending::Idle,
            io: ProcessState::new(conin, conout, false),
            spawn_config: winpty_spawn_config_s { address: 0 },
            owned: Seq::empty(),
            failure: Seq::empty(),
        }
    }

    /// The backend as it stands where the agent library is not available.
    pub open spec fn disabled() -> WinPTYView {
        WinPTYView { enabled: false, ..Self::built(winpty_s { address: 0 }, 0, 0) }
    }

    /// The backend waiting for something else.
    pub open spec fn waiting(self, pending: WinPending) -> WinPTYView {
        WinPTYView { pending, ..self }
    }

    /// The backend after its process I/O core has made a move: the backend
    /// waits for the core as long as the core waits for the host.
    pub open spec fn delegate(self, moved: (ProcessState, StepView<OutputView>)) -> (
        WinPTYView,
        StepView<OutputView>,
    ) {
        (
            WinPTYView {
                io: moved.0,
                pending: if moved.1 is Perform {
                    WinPending::Io
                } else {
                    WinPending::Idle
                },
                ..self
            },
            moved.1,
        )
    }

    /// An operation of the process I/O core; or the fixed error where the
    /// backend is not available; or a refusal, while another operation is
    /// under way.
    pub open spec fn through_core(self, moved: (ProcessState, StepView<OutputView>)) -> (
        WinPTYView,
        StepView<OutputView>,
    ) {
        if !self.enabled {
            (self, failed(not_enabled_text()))
        } else if !(self.pending is Idle) {
            (self, failed(busy_text()))
        } else {
            self.delegate(moved)
        }
    }

    /// Whether a process was already bound to the core.
    pub open spec fn spawned(self) -> bool {
        self.io.process != 0 || self.io.pid != 0
    }

    /// The start of a spawn: a spawn configuration is asked for. The path, the
    /// arguments and the working directory are each ended by a zero unit, the
    /// environment by two.
    pub open spec fn spawn(
        self,
        appname: Seq<u16>,
        cmdline: Option<Seq<u16>>,
        cwd: Option<Seq<u16>>,
        env: Option<Seq<u16>>,
    ) -> (WinPTYView, StepView<OutputView>) {
        if !self.enabled {
            (self, failed(not_enabled_text()))
        } else if !(self.pending is Idle) {
            (self, failed(busy_text()))
        } else if self.spawned() {
            (self, failed(already_spawned_text()))
        } else {
            (
                WinPTYView { pending: WinPending::SpawnConfig, owned: Seq::empty(), ..self },
                StepView::Perform(
                    ActionView::SpawnConfigNew {
                        flags: WINPTY_SPAWN_FLAG_MASK,
                        appname: terminated(appname),
                        cmdline: match cmdline {
                            Some(arguments) => Some(terminated(arguments)),
                            None => None,
                        },
                        cwd: match cwd {
                            Some(dir) => Some(terminated(dir)),
                            None => None,
                        },
                        env: match env {
                            Some(entries) => Some(environment_block(entries)),
                            None => None,
                        },
                    },
                ),
            )
        }
    }

    /// The start of a resize: refused for a size that is not positive.
    pub open spec fn set_size(self, cols: i32, rows: i32) -> (WinPTYView, StepView<OutputView>) {
        if !self.enabled {
            (self, failed(not_enabled_text()))
        } else if !PTYArgs::valid_size(cols, rows) {
            (self, failed(size_error_text(cols, rows)))
        } else if !(self.pending is Idle) {
            (self, failed(busy_text()))
        } else {
            (
                WinPTYView { pending: WinPending::Resize, owned: Seq::empty(), ..self },
                StepView::Perform(ActionView::SetSize { agent: self.agent, cols, rows }),
            )
        }
    }

    /// The next step of an operation that has failed: the resource that was
    /// got last is given back, and when none is left the error is reported.
    pub open spec fn unwind(self) -> (WinPTYView, StepView<OutputView>) {
        if self.owned.len() == 0 {
            (self.waiting(WinPending::Idle), failed(self.failure))
        } else {
            (
                WinPTYView {
                    pending: WinPending::Unwinding,
                    owned: self.owned.drop_last(),
                    ..self
                },
                StepView::Perform(self.owned.last().release()),
            )
        }
    }

    /// The step after an event that is no success and no error object.
    pub open spec fn fail_on(self, event: EventView) -> (WinPTYView, StepView<OutputView>) {
        WinPTYView { failure: failure_text(event), ..self }.unwind()
    }

    /// The step after the agent library has left an error object: the object
    /// is held, and its text is asked for.
    pub open spec fn agent_failed(self, error: winpty_error_s) -> (
        WinPTYView,
        StepView<OutputView>,
    ) {
        (
            WinPTYView {
                pending: WinPending::ErrorText,
                owned: self.owned.push(Resource::Error(error)),
                ..self
            },
            StepView::Perform(ActionView::ErrorMessage { error }),
        )
    }

    /// What an event does to the backend and to the operation under way.
    pub open spec fn resume(self, event: EventView) -> (WinPTYView, StepView<OutputView>) {
        match (self.pending, event) {
            (WinPending::Idle, _) => (self, failed(nothing_pending_text())),
            (WinPending::Io, _) => self.delegate(self.io.resume(event)),
            (WinPending::Unwinding, _) => self.unwind(),
            (WinPending::ErrorText, EventView::Message(message)) => WinPTYView {
                failure: message,
                ..self
            }.unwind(),
            (WinPending::ErrorText, _) => self.fail_on(event),
            (WinPending::FreeSpawnConfig { process }, _) => {
                if self.spawned() {
                    WinPTYView {
                        failure: already_spawned_text(),
                        owned: seq![Resource::Handle(process)],
                        ..self
                    }.unwind()
                } else {
                    (
                        WinPTYView {
                            pending: WinPending::Bind,
                            io: self.io.set_process(process, true).0,
                            ..self
                        },
                        self.io.set_process(process, true).1,
                    )
                }
            },
            (WinPending::Bind, _) => (
                WinPTYView { pending: WinPending::Idle, io: self.io.resume(event).0, ..self },
                match self.io.resume(event).1 {
                    StepView::Finished(Ok(_)) => finished(OutputView::Flag(true)),
                    StepView::Finished(Err(message)) => failed(message),
                    StepView::Perform(_) => failed(unexpected_reply_text()),
                },
            ),
            (_, EventView::AgentFailed(error)) => self.agent_failed(error),
            (WinPending::Resize, EventView::Done) => (
                self.waiting(WinPending::Idle),
                finished(OutputView::Unit),
            ),
            (WinPending::SpawnConfig, EventView::SpawnConfig(config)) => (
                WinPTYView {
                    pending: WinPending::Spawn,
                    spawn_config: config,
                    owned: seq![Resource::SpawnConfig(config)],
                    ..self
                },
                StepView::Perform(ActionView::Spawn { agent: self.agent, spawn_config: config }),
            ),
            (WinPending::Spawn, EventView::Handle(process)) => (
                WinPTYView {
                    pending: WinPending::FreeSpawnConfig { process },
                    owned: Seq::empty(),
                    ..self
                },
                StepView::Perform(ActionView::SpawnConfigFree { spawn_config: self.spawn_config }),
            ),
            _ => self.fail_on(event),
        }
    }

    /// What the host gives back when the backend goes, in this order: what
    /// the process I/O core holds, and then the agent.
    pub open spec fn teardown(self) -> Seq<ActionView> {
        if self.enabled {
            self.io.teardown().push(ActionView::Free { agent: self.agent })
        } else {
            self.io.teardown()
        }
    }
}

} // verus!
