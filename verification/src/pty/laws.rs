//! What holds of every construction of a pseudoterminal and of the
//! pseudoterminal itself.

use vstd::prelude::*;

use super::conpty::laws as conpty_laws;
use super::conpty::model::{ConPTYView, SetupView as ConPTYSetupView};
use super::messages::size_error_text;
use super::model::{
    backend_name, errors_heading, no_backend_text, with_error, CandidateView, PTYSetupView,
    PTYView,
};
use super::protocol::{failed, finished, ActionView, EventView, OutputView, StepView};
use super::winpty::bindings::winpty_s;
use super::winpty::laws as winpty_laws;
use super::winpty::model::{SetupView as WinPTYSetupView, WinPTYView};
use super::{Features, PTYArgs, PTYBackend};

verus! {

impl PTYView {
    /// What every reachable pseudoterminal satisfies: its backend is well
    /// formed.
    pub open spec fn wf(self) -> bool {
        match self {
            PTYView::ConPTY(pty) => pty.wf(),
            PTYView::WinPTY(pty) => pty.wf(),
        }
    }
}

impl PTYSetupView {
    /// What every reachable construction satisfies: the construction of the
    /// backend that it is at is well formed.
    pub open spec fn wf(self) -> bool {
        match self.candidate {
            CandidateView::ConPTY(setup) => setup.wf() && !(setup.phase is Ended),
            CandidateView::WinPTY(setup) => setup.wf() && !(setup.phase is Ended),
            CandidateView::Ended => true,
        }
    }

    /// The number of events that the construction can still take: those of
    /// the backend that it is at, and, while that is the native one, those
    /// of the agent backend that may follow.
    pub open spec fn steps_left(self) -> nat {
        match self.candidate {
            CandidateView::ConPTY(setup) => setup.steps_left() + 16,
            CandidateView::WinPTY(setup) => setup.steps_left(),
            CandidateView::Ended => 0,
        }
    }
}

/// Every construction of a pseudoterminal ends: with every event it either
/// ends or has fewer events left, and it never has more than thirty-one.
pub proof fn lemma_construction_ends(
    setup: PTYSetupView,
    event: EventView,
    args: PTYArgs,
    backend: PTYBackend,
    features: Features,
)
    requires
        setup.wf(),
    ensures
        setup.resume(event).0.wf(),
        PTYSetupView::begin_with_backend(args, backend, features).0.wf(),
        PTYSetupView::begin_with_backend(args, backend, features).0.steps_left() <= 31,
        PTYSetupView::begin_with_backend(args, backend, features).1 is Finished
            <==> PTYSetupView::begin_with_backend(args, backend, features).0.candidate is Ended,
        setup.resume(event).1 is Perform ==> setup.resume(event).0.steps_left()
            < setup.steps_left(),
        !(setup.candidate is Ended) ==> (setup.resume(event).1 is Finished <==> setup.resume(
            event,
        ).0.candidate is Ended),
{
    conpty_laws::lemma_construction_ends(
        ConPTYSetupView::start(args.cols, args.rows),
        event,
        args.cols,
        args.rows,
        features.conpty,
    );
    conpty_laws::lemma_starts_with_empty_hands(args.cols, args.rows, features.conpty);
    winpty_laws::lemma_construction_ends(
        WinPTYSetupView::start(args),
        event,
        args,
        features.winpty,
    );
    winpty_laws::lemma_construction_ends(
        WinPTYSetupView::start(setup.args),
        event,
        setup.args,
        setup.features.winpty,
    );
    winpty_laws::lemma_starts_with_empty_hands(args, features.winpty);
    winpty_laws::lemma_starts_with_empty_hands(setup.args, setup.features.winpty);
    match setup.candidate {
        CandidateView::ConPTY(native) => {
            conpty_laws::lemma_construction_ends(
                native,
                event,
                args.cols,
                args.rows,
                features.conpty,
            );
            conpty_laws::lemma_holds_what_its_phase_says(native, event);
        },
        CandidateView::WinPTY(emulated) => {
            winpty_laws::lemma_construction_ends(emulated, event, args, features.winpty);
            winpty_laws::lemma_holds_what_its_phase_says(emulated, event);
        },
        CandidateView::Ended => {},
    }
}

/// Whether one text stands somewhere inside another.
pub open spec fn occurs_in(part: Seq<char>, whole: Seq<char>) -> bool {
    exists|at: int|
        0 <= at && at + part.len() <= whole.len() && #[trigger] whole.subrange(
            at,
            at + part.len(),
        ) == part
}

/// A list of errors holds the error that was added to it, and everything that
/// it held before.
pub proof fn lemma_list_holds_errors(
    prior: Seq<char>,
    backend: PTYBackend,
    error: Seq<char>,
    earlier: Seq<char>,
)
    ensures
        occurs_in(error, with_error(prior, backend, error)),
        occurs_in(earlier, prior) ==> occurs_in(earlier, with_error(prior, backend, error)),
{
    let list = with_error(prior, backend, error);
    let front = prior + " ("@ + backend_name(backend) + ") -> "@;
    assert(list == front + error + ";"@);
    assert(list.subrange(front.len() as int, (front.len() + error.len()) as int) =~= error);
    if occurs_in(earlier, prior) {
        let at = choose|at: int|
            0 <= at && at + earlier.len() <= prior.len() && #[trigger] prior.subrange(
                at,
                at + earlier.len(),
            ) == earlier;
        assert(list.subrange(at, at + earlier.len()) =~= prior.subrange(at, at + earlier.len()));
    }
}

/// Where neither backend can be had, the automatic choice ends at once with
/// one error that lists what each backend said, the native one first.
pub proof fn lemma_both_failures_are_listed(args: PTYArgs, features: Features)
    requires
        !features.conpty || !PTYArgs::valid_size(args.cols, args.rows),
        !features.winpty || !PTYArgs::valid_size(args.cols, args.rows),
    ensures
        ({
            let native = ConPTYSetupView::begin(args.cols, args.rows, features.conpty).1;
            let agent = WinPTYSetupView::begin(args, features.winpty).1;
            let ended = PTYSetupView::begin(args, features);
            &&& native matches StepView::Finished(Err(first))
            &&& agent matches StepView::Finished(Err(second))
            &&& ended.1 matches StepView::Finished(Err(list))
            &&& list == with_error(
                with_error(errors_heading(), PTYBackend::ConPTY, first),
                PTYBackend::WinPTY,
                second,
            )
            &&& occurs_in(first, list)
            &&& occurs_in(second, list)
            &&& ended.0.candidate is Ended
        }),
{
    let native = ConPTYSetupView::begin(args.cols, args.rows, features.conpty).1;
    let agent = WinPTYSetupView::begin(args, features.winpty).1;
    let first = native->Finished_0->Err_0;
    let second = agent->Finished_0->Err_0;
    let prior = with_error(errors_heading(), PTYBackend::ConPTY, first);
    lemma_list_holds_errors(errors_heading(), PTYBackend::ConPTY, first, first);
    lemma_list_holds_errors(prior, PTYBackend::WinPTY, second, first);
}

/// A size that is not positive in both dimensions is refused before the host
/// is asked for anything, whichever backend is asked for and whichever is
/// available: the construction ends at once with an error.
pub proof fn lemma_bad_size_is_refused(args: PTYArgs, backend: PTYBackend, features: Features)
    requires
        args.cols <= 0 || args.rows <= 0,
    ensures
        PTYSetupView::begin(args, features).1 matches StepView::Finished(Err(_)),
        PTYSetupView::begin(args, features).0.candidate is Ended,
        PTYSetupView::begin_with_backend(args, backend, features).1 matches StepView::Finished(
            Err(_),
        ),
        PTYSetupView::begin_with_backend(args, backend, features).0.candidate is Ended,
        features.conpty ==> PTYSetupView::begin_with_backend(args, PTYBackend::ConPTY, features).1
            == failed::<PTYView>(size_error_text(args.cols, args.rows)),
        features.winpty ==> PTYSetupView::begin_with_backend(args, PTYBackend::WinPTY, features).1
            == failed::<PTYView>(size_error_text(args.cols, args.rows)),
{
}

/// A resize to a size that is not positive is refused before the host is
/// asked for anything, and the pseudoterminal stays as it is.
pub proof fn lemma_bad_resize_is_refused(pty: PTYView, cols: i32, rows: i32)
    requires
        cols <= 0 || rows <= 0,
    ensures
        pty.set_size(cols, rows).0 == pty,
        pty.set_size(cols, rows).1 matches StepView::Finished(Err(_)),
{
}

/// The automatic choice starts with the native backend: where that backend
/// is available and the size is good, the first thing that the host is asked
/// for is the first action of the native construction, and the agent backend
/// is not the one under construction.
pub proof fn lemma_native_backend_comes_first(args: PTYArgs, features: Features)
    requires
        features.conpty,
        args.cols > 0,
        args.rows > 0,
    ensures
        PTYSetupView::begin(args, features).1 == StepView::<PTYView>::Perform(
            ActionView::AllocConsole,
        ),
        PTYSetupView::begin(args, features).0.candidate == CandidateView::ConPTY(
            ConPTYSetupView::start(args.cols, args.rows),
        ),
        PTYSetupView::begin(args, features).0.auto,
{
}

/// The agent backend is tried when, and only when, the native backend has
/// failed. While the native construction goes on, its actions are what the
/// host is asked for. When it succeeds, the construction ends with a
/// pseudoterminal on the native backend, and the agent backend was never
/// asked for anything. Only when it fails, and only where the choice is
/// automatic, the construction of the agent backend starts, with the native
/// failure on the list.
pub proof fn lemma_agent_backend_only_after_failure(setup: PTYSetupView, event: EventView)
    requires
        setup.candidate is ConPTY,
    ensures
        ({
            let native = setup.candidate->ConPTY_0.resume(event);
            let moved = setup.resume(event);
            &&& native.1 matches StepView::Perform(action) ==> moved.1 == StepView::<
                PTYView,
            >::Perform(action) && moved.0.candidate == CandidateView::ConPTY(native.0)
                && moved.0.errors == setup.errors
            &&& native.1 matches StepView::Finished(Ok(pty)) ==> moved.1 == StepView::Finished(
                Ok::<PTYView, Seq<char>>(PTYView::ConPTY(pty)),
            ) && moved.0.candidate is Ended
            &&& native.1 matches StepView::Finished(Err(error)) ==> {
                if setup.auto {
                    moved == (PTYSetupView {
                        errors: with_error(setup.errors, PTYBackend::ConPTY, error),
                        ..setup
                    }).after_winpty(WinPTYSetupView::begin(setup.args, setup.features.winpty))
                } else {
                    moved == (setup.ended(), failed::<PTYView>(error))
                }
            }
            &&& moved.0.candidate is WinPTY ==> setup.auto && native.1 matches StepView::Finished(
                Err(_),
            )
        }),
{
}

/// A pseudoterminal runs on the backend that was asked for: a construction on
/// a given backend never ends with a pseudoterminal on the other one, and one
/// on no backend ends at once with an error.
pub proof fn lemma_backend_is_kept(
    args: PTYArgs,
    backend: PTYBackend,
    features: Features,
    setup: PTYSetupView,
    event: EventView,
)
    ensures
        PTYSetupView::begin_with_backend(args, PTYBackend::NoBackend, features).1 == failed::<
            PTYView,
        >(no_backend_text()),
        PTYSetupView::begin_with_backend(args, PTYBackend::Auto, features) == PTYSetupView::begin(
            args,
            features,
        ),
        !PTYSetupView::begin_with_backend(args, PTYBackend::ConPTY, features).0.auto,
        !PTYSetupView::begin_with_backend(args, PTYBackend::WinPTY, features).0.auto,
        !(PTYSetupView::begin_with_backend(args, PTYBackend::ConPTY, features).0.candidate
            is WinPTY),
        !(PTYSetupView::begin_with_backend(args, PTYBackend::WinPTY, features).0.candidate
            is ConPTY),
        setup.resume(event).0.auto == setup.auto,
        !setup.auto && setup.candidate is ConPTY ==> !(setup.resume(event).0.candidate is WinPTY)
            && (setup.resume(event).1 matches StepView::Finished(Ok(pty)) ==> pty.backend()
            == PTYBackend::ConPTY),
        setup.candidate is WinPTY ==> !(setup.resume(event).0.candidate is ConPTY) && (
        setup.resume(event).1 matches StepView::Finished(Ok(pty)) ==> pty.backend()
            == PTYBackend::WinPTY),
{
}

/// Before a process is spawned a pseudoterminal has no exit status, on either
/// backend: a pseudoterminal as it comes out of its construction answers the
/// query at once, with nothing, and so does every pseudoterminal whose core
/// knows no process.
pub proof fn lemma_no_exit_status_before_spawn(
    pty: PTYView,
    console: isize,
    agent: winpty_s,
    conin: isize,
    conout: isize,
)
    ensures
        PTYView::ConPTY(ConPTYView::built(console, conin, conout)).get_exitstatus().1
            == finished(OutputView::ExitStatus(None)),
        PTYView::WinPTY(WinPTYView::built(agent, conin, conout)).get_exitstatus().1
            == finished(OutputView::ExitStatus(None)),
        PTYView::ConPTY(ConPTYView::built(console, conin, conout)).pid() is None,
        PTYView::WinPTY(WinPTYView::built(agent, conin, conout)).pid() is None,
        pty.io().pid == 0 && pty.io().pending is Idle && (pty matches PTYView::ConPTY(native)
            ==> native.enabled && native.pending is Idle) && (pty matches PTYView::WinPTY(
            emulated,
        ) ==> emulated.enabled && emulated.pending is Idle) ==> pty.get_exitstatus().1
            == finished(OutputView::ExitStatus(None)),
{
}

} // verus!
