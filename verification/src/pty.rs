//! The pseudoterminal, its arguments and the backends that can serve it.
//!
//! [`model`] says how a pseudoterminal comes by its backend and what it does
//! with each event, and [`laws`] holds what is proved of it.

use vstd::prelude::*;
use vstd::string::*;

pub mod base;
pub mod conpty;
pub mod encoding;
pub mod laws;
pub mod messages;
pub mod model;
pub mod protocol;
pub mod resources;
pub mod wide;
pub mod winpty;

pub use self::model::{PTYSetupView, PTYView};

use self::base::PTYImpl;
use self::conpty::{ConPTY, ConPTYSetup};
use self::model::{backend_name, with_error, CandidateView};
use self::protocol::{
    actions_view, is_invalid, nothing_pending, wide_view, Action, Event, Output, Step,
};
use self::winpty::{AgentConfig, MouseMode, WinPTY, WinPTYSetup};

verus! {

/// Available backends to create pseudoterminals.
#[derive(Copy, Clone, Debug, PartialEq, Eq, Structural)]
pub enum PTYBackend {
    /// The native pseudoconsole of Windows 10 (build 1809) and later.
    ConPTY,
    /// The winpty agent, for older systems.
    WinPTY,
    /// Placeholder that asks for the backend to be chosen automatically.
    Auto,
    /// Placeholder that says that no backend is usable.
    NoBackend,
}

impl PTYBackend {
    /// The number that stands for each backend.
    pub open spec fn spec_to_i32(self) -> i32 {
        match self {
            PTYBackend::ConPTY => 0,
            PTYBackend::WinPTY => 1,
            PTYBackend::Auto => 2,
            PTYBackend::NoBackend => 3,
        }
    }

    /// The backend that a number stands for, if any.
    pub open spec fn spec_from_i32(n: i32) -> Option<PTYBackend> {
        if n == 0 {
            Some(PTYBackend::ConPTY)
        } else if n == 1 {
            Some(PTYBackend::WinPTY)
        } else if n == 2 {
            Some(PTYBackend::Auto)
        } else if n == 3 {
            Some(PTYBackend::NoBackend)
        } else {
            None
        }
    }

    /// The number of this backend.
    pub fn to_i32(&self) -> (n: i32)
        ensures
            n == self.spec_to_i32(),
    {
        match self {
            PTYBackend::ConPTY => 0,
            PTYBackend::WinPTY => 1,
            PTYBackend::Auto => 2,
            PTYBackend::NoBackend => 3,
        }
    }

    /// The backend with the given number; `None` for any other number.
    pub fn from_i32(n: i32) -> (backend: Option<PTYBackend>)
        ensures
            backend == Self::spec_from_i32(n),
    {
        if n == 0 {
            Some(PTYBackend::ConPTY)
        } else if n == 1 {
            Some(PTYBackend::WinPTY)
        } else if n == 2 {
            Some(PTYBackend::Auto)
        } else if n == 3 {
            Some(PTYBackend::NoBackend)
        } else {
            None
        }
    }

    /// Numbers and backends correspond one to one.
    pub proof fn lemma_number_round_trip(backend: PTYBackend, n: i32)
        ensures
            Self::spec_from_i32(backend.spec_to_i32()) == Some(backend),
            Self::spec_from_i32(n) matches Some(b) ==> b.spec_to_i32() == n,
            Self::spec_from_i32(n) is Some <==> 0 <= n <= 3,
    {
    }
}

/// The arguments used to create a pseudoterminal.
#[derive(Copy, Clone, Debug)]
pub struct PTYArgs {
    /// Number of character columns to display.
    pub cols: i32,
    /// Number of line rows to display.
    pub rows: i32,
    /// Mouse capture settings for the winpty backend.
    pub mouse_mode: MouseMode,
    /// Time (in ms) to wait for the agent to start and to answer a request.
    pub timeout: u32,
    /// General configuration settings for the winpty backend.
    pub agent_config: AgentConfig,
}

impl PTYArgs {
    /// Whether the requested size is usable: both dimensions positive.
    pub open spec fn valid_size(cols: i32, rows: i32) -> bool {
        cols > 0 && rows > 0
    }
}

/// Which backends this system offers.
#[derive(Copy, Clone, Debug, PartialEq, Eq, Structural)]
pub struct Features {
    /// Whether the native pseudoconsole is available.
    pub conpty: bool,
    /// Whether the winpty agent library is available.
    pub winpty: bool,
}

/// The name of a backend in a list of errors.
fn name_of(backend: PTYBackend) -> (name: &'static str)
    ensures
        name@ == backend_name(backend),
{
    match backend {
        PTYBackend::ConPTY => "ConPTY",
        PTYBackend::WinPTY => "WinPTY",
        PTYBackend::Auto => "Auto",
        PTYBackend::NoBackend => "NoBackend",
    }
}

/// Adds the error of one backend to a list of errors.
pub fn add_error(prior: String, backend: PTYBackend, error: &String) -> (list: String)
    ensures
        list@ == with_error(prior@, backend, error@),
{
    let mut list = prior;
    list.append(" (");
    list.append(name_of(backend));
    list.append(") -> ");
    list.append(error.as_str());
    list.append(";");
    list
}

/// The backend that a pseudoterminal runs on.
#[derive(Debug)]
enum Backend {
    ConPTY(ConPTY),
    WinPTY(WinPTY),
}

/// The backend whose construction is under way.
#[derive(Debug)]
enum Candidate {
    ConPTY(ConPTYSetup),
    WinPTY(WinPTYSetup),
    Ended,
}

/// A pseudoterminal that talks to a process spawned inside it.
///
/// It runs on one of two backends, chosen when it is made and kept for its
/// life. Every operation goes to that backend as it is.
#[derive(Debug)]
pub struct PTY {
    pty: Backend,
}

/// The construction of a pseudoterminal, step by step.
#[derive(Debug)]
pub struct PTYSetup {
    args: PTYArgs,
    features: Features,
    auto: bool,
    candidate: Candidate,
    errors: String,
}

impl View for PTY {
    type V = PTYView;

    closed spec fn view(&self) -> PTYView {
        match self.pty {
            Backend::ConPTY(pty) => PTYView::ConPTY(pty@),
            Backend::WinPTY(pty) => PTYView::WinPTY(pty@),
        }
    }
}

impl View for PTYSetup {
    type V = PTYSetupView;

    closed spec fn view(&self) -> PTYSetupView {
        PTYSetupView {
            args: self.args,
            features: self.features,
            auto: self.auto,
            candidate: match self.candidate {
                Candidate::ConPTY(setup) => CandidateView::ConPTY(setup@),
                Candidate::WinPTY(setup) => CandidateView::WinPTY(setup@),
                Candidate::Ended => CandidateView::Ended,
            },
            errors: self.errors@,
        }
    }
}

impl PTYSetup {
    /// A construction that has not started yet.
    fn fresh(args: &PTYArgs, features: Features, auto: bool) -> (setup: PTYSetup)
        ensures
            setup@ == PTYSetupView::fresh(*args, features, auto),
    {
        PTYSetup {
            args: *args,
            features,
            auto,
            candidate: Candidate::Ended,
            errors: String::from_str("There were some errors trying to instantiate a PTY:"),
        }
    }

    /// Takes in a move of the construction of the agent backend.
    fn after_winpty(&mut self, setup: WinPTYSetup, step: Step<WinPTY>) -> (next: Step<PTY>)
        ensures
            (final(self)@, next@) == old(self)@.after_winpty((setup@, step@)),
    {
        match step {
            Step::Perform(action) => {
                self.candidate = Candidate::WinPTY(setup);
                Step::Perform(action)
            },
            Step::Finished(Ok(pty)) => {
                self.candidate = Candidate::Ended;
                Step::Finished(Ok(PTY { pty: Backend::WinPTY(pty) }))
            },
            Step::Finished(Err(error)) => {
                self.candidate = Candidate::Ended;
                if self.auto {
                    let mut errors = String::new();
                    core::mem::swap(&mut self.errors, &mut errors);
                    self.errors = add_error(errors, PTYBackend::WinPTY, &error);
                    Step::Finished(Err(self.errors.clone()))
                } else {
                    Step::Finished(Err(error))
                }
            },
        }
    }

    /// Takes in a move of the construction of the native backend.
    fn after_conpty(&mut self, setup: ConPTYSetup, step: Step<ConPTY>) -> (next: Step<PTY>)
        ensures
            (final(self)@, next@) == old(self)@.after_conpty((setup@, step@)),
    {
        match step {
            Step::Perform(action) => {
                self.candidate = Candidate::ConPTY(setup);
                Step::Perform(action)
            },
            Step::Finished(Ok(pty)) => {
                self.candidate = Candidate::Ended;
                Step::Finished(Ok(PTY { pty: Backend::ConPTY(pty) }))
            },
            Step::Finished(Err(error)) => {
                if self.auto {
                    let mut errors = String::new();
                    core::mem::swap(&mut self.errors, &mut errors);
                    self.errors = add_error(errors, PTYBackend::ConPTY, &error);
                    let (second, step) = WinPTY::new(&self.args, self.features.winpty);
                    self.after_winpty(second, step)
                } else {
                    self.candidate = Candidate::Ended;
                    Step::Finished(Err(error))
                }
            },
        }
    }

    /// Takes the event that answers the action under way, and says how the
    /// construction goes on. The event goes to the backend that is being
    /// constructed. With an automatic choice the agent backend is tried when,
    /// and only when, the native backend has failed; when both have failed,
    /// the construction ends with the list of both errors.
    pub fn resume(&mut self, event: Event) -> (step: Step<PTY>)
        ensures
            (final(self)@, step@) == old(self)@.resume(event@),
            old(self)@.wf() ==> final(self)@.wf(),
    {
        let mut candidate = Candidate::Ended;
        core::mem::swap(&mut self.candidate, &mut candidate);
        match candidate {
            Candidate::ConPTY(mut setup) => {
                let step = setup.resume(event);
                self.after_conpty(setup, step)
            },
            Candidate::WinPTY(mut setup) => {
                let step = setup.resume(event);
                self.after_winpty(setup, step)
            },
            Candidate::Ended => Step::Finished(Err(nothing_pending())),
        }
    }
}

impl PTY {
    /// Starts the construction of a pseudoterminal whose backend is chosen
    /// automatically: the native pseudoconsole is tried first, and the winpty
    /// agent only if that fails. `features` says which of the two this system
    /// offers. When both fail, the construction ends with one error that lists
    /// the failure of each.
    pub fn new(args: &PTYArgs, features: Features) -> (started: (PTYSetup, Step<PTY>))
        ensures
            (started.0@, started.1@) == PTYSetupView::begin(*args, features),
            started.0@.wf(),
    {
        let mut setup = PTYSetup::fresh(args, features, true);
        let (first, step) = ConPTY::new(args, features.conpty);
        let next = setup.after_conpty(first, step);
        (setup, next)
    }

    /// Starts the construction of a pseudoterminal on the given backend.
    /// [`PTYBackend::Auto`] chooses as [`PTY::new`] does;
    /// [`PTYBackend::NoBackend`] is an error, and the host is asked for
    /// nothing.
    pub fn new_with_backend(args: &PTYArgs, backend: PTYBackend, features: Features) -> (started: (
        PTYSetup,
        Step<PTY>,
    ))
        ensures
            (started.0@, started.1@) == PTYSetupView::begin_with_backend(*args, backend, features),
            started.0@.wf(),
    {
        match backend {
            PTYBackend::ConPTY => {
                let mut setup = PTYSetup::fresh(args, features, false);
                let (first, step) = ConPTY::new(args, features.conpty);
                let next = setup.after_conpty(first, step);
                (setup, next)
            },
            PTYBackend::WinPTY => {
                let mut setup = PTYSetup::fresh(args, features, false);
                let (first, step) = WinPTY::new(args, features.winpty);
                let next = setup.after_winpty(first, step);
                (setup, next)
            },
            PTYBackend::Auto => PTY::new(args, features),
            PTYBackend::NoBackend => (
                PTYSetup::fresh(args, features, false),
                Step::Finished(Err(String::from_str("NoBackend is not a valid option"))),
            ),
        }
    }

    /// Starts spawning a process inside the pseudoterminal.
    ///
    /// `appname` is the path of the executable, `cmdline` its arguments, `cwd`
    /// the directory to start it in, and `env` its environment: `NAME=VALUE`
    /// entries, each ended by a zero unit. The operation ends with `true`.
    pub fn spawn(
        &mut self,
        appname: Vec<u16>,
        cmdline: Option<Vec<u16>>,
        cwd: Option<Vec<u16>>,
        env: Option<Vec<u16>>,
    ) -> (step: Step<Output>)
        ensures
            (final(self)@, step@) == old(self)@.spawn(
                appname@,
                wide_view(cmdline),
                wide_view(cwd),
                wide_view(env),
            ),
            old(self)@.wf() ==> final(self)@.wf(),
    {
        match &mut self.pty {
            Backend::ConPTY(pty) => pty.spawn(appname, cmdline, cwd, env),
            Backend::WinPTY(pty) => pty.spawn(appname, cmdline, cwd, env),
        }
    }

    /// Starts a change of the size of the pseudoterminal.
    pub fn set_size(&mut self, cols: i32, rows: i32) -> (step: Step<Output>)
        ensures
            (final(self)@, step@) == old(self)@.set_size(cols, rows),
            old(self)@.wf() ==> final(self)@.wf(),
    {
        match &mut self.pty {
            Backend::ConPTY(pty) => pty.set_size(cols, rows),
            Backend::WinPTY(pty) => pty.set_size(cols, rows),
        }
    }

    /// The backend that the pseudoterminal runs on: one of the two real
    /// backends, never a placeholder.
    pub fn get_backend(&self) -> (backend: PTYBackend)
        ensures
            backend == self@.backend(),
            backend == PTYBackend::ConPTY || backend == PTYBackend::WinPTY,
    {
        match &self.pty {
            Backend::ConPTY(_) => PTYBackend::ConPTY,
            Backend::WinPTY(_) => PTYBackend::WinPTY,
        }
    }

    /// Starts a read of at most `length` bytes of the output of the process.
    /// Without `blocking`, no more is read than is there, so that the read
    /// returns at once. The operation ends with the text that was read.
    pub fn read(&mut self, length: u32, blocking: bool) -> (step: Step<Output>)
        ensures
            (final(self)@, step@) == old(self)@.read(length, blocking),
            old(self)@.wf() ==> final(self)@.wf(),
    {
        match &mut self.pty {
            Backend::ConPTY(pty) => pty.read(length, blocking),
            Backend::WinPTY(pty) => pty.read(length, blocking),
        }
    }

    /// Starts a write of text to the input of the process. The operation ends
    /// with the number of bytes written.
    pub fn write(&mut self, buf: Vec<u16>) -> (step: Step<Output>)
        ensures
            (final(self)@, step@) == old(self)@.write(buf@),
            old(self)@.wf() ==> final(self)@.wf(),
    {
        match &mut self.pty {
            Backend::ConPTY(pty) => pty.write(buf),
            Backend::WinPTY(pty) => pty.write(buf),
        }
    }

    /// Starts an end-of-file query.
    pub fn is_eof(&mut self) -> (step: Step<Output>)
        ensures
            (final(self)@, step@) == old(self)@.is_eof(),
            old(self)@.wf() ==> final(self)@.wf(),
    {
        match &mut self.pty {
            Backend::ConPTY(pty) => pty.is_eof(),
            Backend::WinPTY(pty) => pty.is_eof(),
        }
    }

    /// Starts an exit status query. The operation ends with the exit code of
    /// the process, or with nothing if it has not exited.
    pub fn get_exitstatus(&mut self) -> (step: Step<Output>)
        ensures
            (final(self)@, step@) == old(self)@.get_exitstatus(),
            old(self)@.wf() ==> final(self)@.wf(),
    {
        match &mut self.pty {
            Backend::ConPTY(pty) => pty.get_exitstatus(),
            Backend::WinPTY(pty) => pty.get_exitstatus(),
        }
    }

    /// Starts a liveness query.
    pub fn is_alive(&mut self) -> (step: Step<Output>)
        ensures
            (final(self)@, step@) == old(self)@.is_alive(),
            old(self)@.wf() ==> final(self)@.wf(),
    {
        match &mut self.pty {
            Backend::ConPTY(pty) => pty.is_alive(),
            Backend::WinPTY(pty) => pty.is_alive(),
        }
    }

    /// Takes the event that answers the action under way, and says how the
    /// operation goes on.
    pub fn resume(&mut self, event: Event) -> (step: Step<Output>)
        ensures
            (final(self)@, step@) == old(self)@.resume(event@),
            old(self)@.wf() ==> final(self)@.wf(),
    {
        match &mut self.pty {
            Backend::ConPTY(pty) => pty.resume(event),
            Backend::WinPTY(pty) => pty.resume(event),
        }
    }

    /// The identifier of the process, if one was spawned.
    pub fn get_pid(&self) -> (pid: Option<u32>)
        ensures
            pid == self@.pid(),
    {
        let pid = match &self.pty {
            Backend::ConPTY(pty) => pty.process().pid(),
            Backend::WinPTY(pty) => pty.process().pid(),
        };
        if pid == 0 {
            None
        } else {
            Some(pid)
        }
    }

    /// The handle of the process, if one was spawned.
    pub fn get_fd(&self) -> (fd: Option<isize>)
        ensures
            fd == self@.fd(),
    {
        let handle = match &self.pty {
            Backend::ConPTY(pty) => pty.process().process_handle(),
            Backend::WinPTY(pty) => pty.process().process_handle(),
        };
        if is_invalid(handle) {
            None
        } else {
            Some(handle)
        }
    }

    /// Ends the pseudoterminal and says what the host has to give back, in
    /// order. The pseudoterminal is gone after this.
    pub fn teardown(self) -> (actions: Vec<Action>)
        ensures
            actions_view(actions@) == self@.teardown(),
    {
        match self.pty {
            Backend::ConPTY(pty) => pty.teardown(),
            Backend::WinPTY(pty) => pty.teardown(),
        }
    }
}

} // verus!
