//! How a pseudoterminal comes by its backend, and how it hands every
//! operation to it, as a function of what the host answers.

use vstd::prelude::*;

use super::base::ProcessState;
use super::conpty::model::{ConPTYView, SetupView as ConPTYSetupView};
use super::protocol::{
    failed, handle_is_invalid, nothing_pending_text, ActionView, EventView, OutputView, StepView,
};
use super::winpty::model::{SetupView as WinPTYSetupView, WinPTYView};
use super::{Features, PTYArgs, PTYBackend};

verus! {

/// How the list of the errors of an automatic choice starts.
pub open spec fn errors_heading() -> Seq<char> {
    "There were some errors trying to instantiate a PTY:"@
}

/// The name of a backend in a list of errors.
pub open spec fn backend_name(backend: PTYBackend) -> Seq<char> {
    match backend {
        PTYBackend::ConPTY => "ConPTY"@,
        PTYBackend::WinPTY => "WinPTY"@,
        PTYBackend::Auto => "Auto"@,
        PTYBackend::NoBackend => "NoBackend"@,
    }
}

/// A list of errors with one more entry: the list so far, then the backend in
/// brackets, an arrow, the error of that backend and a semicolon.
pub open spec fn with_error(prior: Seq<char>, backend: PTYBackend, error: Seq<char>) -> Seq<char> {
    prior + " ("@ + backend_name(backend) + ") -> "@ + error + ";"@
}

/// The text of the error for a backend that is no backend.
pub open spec fn no_backend_text() -> Seq<char> {
    "NoBackend is not a valid option"@
}

/// The backend that a pseudoterminal runs on, in specifications.
pub enum PTYView {
    ConPTY(ConPTYView),
    WinPTY(WinPTYView),
}

/// The backend whose construction is under way, in specifications.
pub enum CandidateView {
    ConPTY(ConPTYSetupView),
    WinPTY(WinPTYSetupView),
    Ended,
}

/// The construction of a pseudoterminal, in specifications.
pub struct PTYSetupView {
    /// The arguments of the pseudoterminal.
    pub args: PTYArgs,
    /// Which backends are available.
    pub features: Features,
    /// Whether the backend is chosen automatically.
    pub auto: bool,
    /// The backend that is being constructed.
    pub candidate: CandidateView,
    /// The list of the errors of the backends that have failed.
    pub errors: Seq<char>,
}

impl PTYSetupView {
    /// The construction as it ends.
    pub open spec fn ended(self) -> PTYSetupView {
        PTYSetupView { candidate: CandidateView::Ended, ..self }
    }

    /// What a move of the construction of the second backend means: its
    /// action is handed on, its success is the pseudoterminal, and its failure
    /// is the end: the list of both failures where the choice was automatic,
    /// its own error where it was not.
    pub open spec fn after_winpty(self, moved: (WinPTYSetupView, StepView<WinPTYView>)) -> (
        PTYSetupView,
        StepView<PTYView>,
    ) {
        match moved.1 {
            StepView::Perform(action) => (
                PTYSetupView { candidate: CandidateView::WinPTY(moved.0), ..self },
                StepView::Perform(action),
            ),
            StepView::Finished(Ok(pty)) => (
                self.ended(),
                StepView::Finished(Ok(PTYView::WinPTY(pty))),
            ),
            StepView::Finished(Err(error)) => if self.auto {
                (
                    PTYSetupView {
                        errors: with_error(self.errors, PTYBackend::WinPTY, error),
                        ..self
                    }.ended(),
                    failed(with_error(self.errors, PTYBackend::WinPTY, error)),
                )
            } else {
                (self.ended(), failed(error))
            },
        }
    }

    /// What a move of the construction of the first backend means: its action
    /// is handed on and its success is the pseudoterminal. Where it fails and
    /// the choice is automatic, the error goes to the list and the
    /// construction of the second backend starts; where the choice is not
    /// automatic, its error is the end.
    pub open spec fn after_conpty(self, moved: (ConPTYSetupView, StepView<ConPTYView>)) -> (
        PTYSetupView,
        StepView<PTYView>,
    ) {
        match moved.1 {
            StepView::Perform(action) => (
                PTYSetupView { candidate: CandidateView::ConPTY(moved.0), ..self },
                StepView::Perform(action),
            ),
            StepView::Finished(Ok(pty)) => (
                self.ended(),
                StepView::Finished(Ok(PTYView::ConPTY(pty))),
            ),
            StepView::Finished(Err(error)) => if self.auto {
                PTYSetupView {
                    errors: with_error(self.errors, PTYBackend::ConPTY, error),
                    ..self
                }.after_winpty(WinPTYSetupView::begin(self.args, self.features.winpty))
            } else {
                (self.ended(), failed(error))
            },
        }
    }

    /// A construction that has not started yet.
    pub open spec fn fresh(args: PTYArgs, features: Features, auto: bool) -> PTYSetupView {
        PTYSetupView {
            args,
            features,
            auto,
            candidate: CandidateView::Ended,
            errors: errors_heading(),
        }
    }

    /// How a construction with an automatic choice starts: with the native
    /// pseudoconsole.
    pub open spec fn begin(args: PTYArgs, features: Features) -> (
        PTYSetupView,
        StepView<PTYView>,
    ) {
        Self::fresh(args, features, true).after_conpty(
            ConPTYSetupView::begin(args.cols, args.rows, features.conpty),
        )
    }

    /// How a construction on a given backend starts. An automatic choice
    /// starts as [`Self::begin`] says; no backend is an error at once.
    pub open spec fn begin_with_backend(args: PTYArgs, backend: PTYBackend, features: Features) -> (
        PTYSetupView,
        StepView<PTYView>,
    ) {
        match backend {
            PTYBackend::ConPTY => Self::fresh(args, features, false).after_conpty(
                ConPTYSetupView::begin(args.cols, args.rows, features.conpty),
            ),
            PTYBackend::WinPTY => Self::fresh(args, features, false).after_winpty(
                WinPTYSetupView::begin(args, features.winpty),
            ),
            PTYBackend::Auto => Self::begin(args, features),
            PTYBackend::NoBackend => (
                Self::fresh(args, features, false),
                failed(no_backend_text()),
            ),
        }
    }

    /// What an event does to the construction: it goes to the backend that is
    /// being constructed.
    pub open spec fn resume(self, event: EventView) -> (PTYSetupView, StepView<PTYView>) {
        match self.candidate {
            CandidateView::ConPTY(setup) => self.after_conpty(setup.resume(event)),
            CandidateView::WinPTY(setup) => self.after_winpty(setup.resume(event)),
            CandidateView::Ended => (self, failed(nothing_pending_text())),
        }
    }
}

impl PTYView {
    /// The backend of the pseudoterminal.
    pub open spec fn backend(self) -> PTYBackend {
        match self {
            PTYView::ConPTY(_) => PTYBackend::ConPTY,
            PTYView::WinPTY(_) => PTYBackend::WinPTY,
        }
    }

    /// The state of the process I/O core of the backend.
    pub open spec fn io(self) -> ProcessState {
        match self {
            PTYView::ConPTY(pty) => pty.io,
            PTYView::WinPTY(pty) => pty.io,
        }
    }

    /// A move of the native backend as a move of the pseudoterminal.
    pub open spec fn on_conpty(moved: (ConPTYView, StepView<OutputView>)) -> (
        PTYView,
        StepView<OutputView>,
    ) {
        (PTYView::ConPTY(moved.0), moved.1)
    }

    /// A move of the agent backend as a move of the pseudoterminal.
    pub open spec fn on_winpty(moved: (WinPTYView, StepView<OutputView>)) -> (
        PTYView,
        StepView<OutputView>,
    ) {
        (PTYView::WinPTY(moved.0), moved.1)
    }

    /// The start of a spawn, as the backend does it.
    pub open spec fn spawn(
        self,
        appname: Seq<u16>,
        cmdline: Option<Seq<u16>>,
        cwd: Option<Seq<u16>>,
        env: Option<Seq<u16>>,
    ) -> (PTYView, StepView<OutputView>) {
        match self {
            PTYView::ConPTY(pty) => Self::on_conpty(pty.spawn(appname, cmdline, cwd, env)),
            PTYView::WinPTY(pty) => Self::on_winpty(pty.spawn(appname, cmdline, cwd, env)),
        }
    }

    /// The start of a resize, as the backend does it.
    pub open spec fn set_size(self, cols: i32, rows: i32) -> (PTYView, StepView<OutputView>) {
        match self {
            PTYView::ConPTY(pty) => Self::on_conpty(pty.set_size(cols, rows)),
            PTYView::WinPTY(pty) => Self::on_winpty(pty.set_size(cols, rows)),
        }
    }

    /// The start of a read, as the backend does it.
    pub open spec fn read(self, length: u32, blocking: bool) -> (PTYView, StepView<OutputView>) {
        match self {
            PTYView::ConPTY(pty) => Self::on_conpty(
                pty.through_core(pty.io.read(length, blocking)),
            ),
            PTYView::WinPTY(pty) => Self::on_winpty(
                pty.through_core(pty.io.read(length, blocking)),
            ),
        }
    }

    /// The start of a write, as the backend does it.
    pub open spec fn write(self, text: Seq<u16>) -> (PTYView, StepView<OutputView>) {
        match self {
            PTYView::ConPTY(pty) => Self::on_conpty(pty.through_core(pty.io.write(text))),
            PTYView::WinPTY(pty) => Self::on_winpty(pty.through_core(pty.io.write(text))),
        }
    }

    /// The start of an end-of-file query, as the backend does it.
    pub open spec fn is_eof(self) -> (PTYView, StepView<OutputView>) {
        match self {
            PTYView::ConPTY(pty) => Self::on_conpty(pty.through_core(pty.io.is_eof())),
            PTYView::WinPTY(pty) => Self::on_winpty(pty.through_core(pty.io.is_eof())),
        }
    }

    /// The start of an exit status query, as the backend does it.
    pub open spec fn get_exitstatus(self) -> (PTYView, StepView<OutputView>) {
        match self {
            PTYView::ConPTY(pty) => Self::on_conpty(pty.through_core(pty.io.get_exitstatus())),
            PTYView::WinPTY(pty) => Self::on_winpty(pty.through_core(pty.io.get_exitstatus())),
        }
    }

    /// The start of a liveness query, as the backend does it.
    pub open spec fn is_alive(self) -> (PTYView, StepView<OutputView>) {
        match self {
            PTYView::ConPTY(pty) => Self::on_conpty(pty.through_core(pty.io.is_alive())),
            PTYView::WinPTY(pty) => Self::on_winpty(pty.through_core(pty.io.is_alive())),
        }
    }

    /// What an event does, as the backend takes it.
    pub open spec fn resume(self, event: EventView) -> (PTYView, StepView<OutputView>) {
        match self {
            PTYView::ConPTY(pty) => Self::on_conpty(pty.resume(event)),
            PTYView::WinPTY(pty) => Self::on_winpty(pty.resume(event)),
        }
    }

    /// What the host gives back when the pseudoterminal goes, as the backend
    /// says it.
    pub open spec fn teardown(self) -> Seq<ActionView> {
        match self {
            PTYView::ConPTY(pty) => pty.teardown(),
            PTYView::WinPTY(pty) => pty.teardown(),
        }
    }

    /// The identifier of the process, if one was spawned.
    pub open spec fn pid(self) -> Option<u32> {
        if self.io().pid == 0 {
            None
        } else {
            Some(self.io().pid)
        }
    }

    /// The handle of the process, if one was spawned.
    pub open spec fn fd(self) -> Option<isize> {
        if handle_is_invalid(self.io().process) {
            None
        } else {
            Some(self.io().process)
        }
    }
}

} // verus!
