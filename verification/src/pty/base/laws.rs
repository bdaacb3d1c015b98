//! What holds of every operation of the process I/O core.

use vstd::prelude::*;

use super::model::{Pending, ProcessState, STILL_ACTIVE};
use crate::pty::encoding::{lemma_wide_round_trip, well_formed_wide};
use crate::pty::protocol::{
    busy_text, failed, finished, ActionView, EventView, OutputView, StepView,
};

verus! {

impl ProcessState {
    /// The number of events that the operation under way can still take.
    pub open spec fn steps_left(self) -> nat {
        match self.pending {
            Pending::Idle => 0,
            Pending::ReadAvailable { .. } | Pending::EofAvailable => 2,
            _ => 1,
        }
    }
}

/// No operation of the core goes on for ever, and none asks twice: each ends
/// after two events at most, one for what can be read or for the bytes, one
/// for the bytes or for the exit code. With every event the operation either
/// ends, and the core waits for nothing, or has fewer events left.
pub proof fn lemma_core_operations_end(
    state: ProcessState,
    event: EventView,
    length: u32,
    blocking: bool,
    text: Seq<u16>,
    process: isize,
    close_process: bool,
)
    requires
        state.pending is Idle,
    ensures
        state.read(length, blocking).0.steps_left() <= 2,
        blocking ==> state.read(length, blocking).0.steps_left() <= 1,
        state.write(text).0.steps_left() == 1,
        state.is_eof().0.steps_left() == 2,
        state.is_alive().0.steps_left() <= 1,
        state.get_exitstatus().0.steps_left() <= 1,
        state.set_process(process, close_process).0.steps_left() == 1,
        state.read(length, blocking).1 is Finished <==> state.read(length, blocking).0.pending
            is Idle,
        state.is_alive().1 is Finished <==> state.is_alive().0.pending is Idle,
        state.get_exitstatus().1 is Finished <==> state.get_exitstatus().0.pending is Idle,
{
}

/// With every event the operation under way either ends, and the core waits
/// for nothing, or has fewer events left.
pub proof fn lemma_core_events_count_down(state: ProcessState, event: EventView)
    ensures
        state.resume(event).1 is Perform ==> state.resume(event).0.steps_left()
            < state.steps_left(),
        state.resume(event).1 is Finished <==> state.resume(event).0.pending is Idle,
{
}

/// While an operation is under way no other can be started: the attempt is
/// refused with one fixed error, the host is asked for nothing, and the core
/// stays as it is, so that the operation under way goes on undisturbed.
pub proof fn lemma_core_refuses_while_busy(
    state: ProcessState,
    length: u32,
    blocking: bool,
    text: Seq<u16>,
)
    requires
        !(state.pending is Idle),
    ensures
        state.read(length, blocking) == (state, failed::<OutputView>(busy_text())),
        state.write(text) == (state, failed::<OutputView>(busy_text())),
        state.is_eof() == (state, failed::<OutputView>(busy_text())),
        state.is_alive() == (state, failed::<OutputView>(busy_text())),
        state.get_exitstatus() == (state, failed::<OutputView>(busy_text())),
{
}

/// Every move of the core keeps its state well formed.
pub proof fn lemma_core_stays_well_formed(
    state: ProcessState,
    event: EventView,
    length: u32,
    blocking: bool,
    text: Seq<u16>,
    process: isize,
    close_process: bool,
)
    requires
        state.wf(),
    ensures
        ProcessState::new(state.conin, state.conout, state.using_pipes).wf(),
        ProcessState::new(state.conin, state.conout, state.using_pipes).borrowing().wf(),
        state.read(length, blocking).0.wf(),
        state.write(text).0.wf(),
        state.is_eof().0.wf(),
        state.is_alive().0.wf(),
        state.get_exitstatus().0.wf(),
        state.pid == 0 ==> state.set_process(process, close_process).0.wf(),
        state.resume(event).0.wf(),
{
}

/// Once the core has seen the process exit, it does not ask the system about
/// it again: a liveness query answers `false` at once, an exit status query
/// answers with the exit code that the core holds, and an end-of-file query
/// stops after its peek. None of them changes what the core holds.
pub proof fn lemma_exit_is_cached(state: ProcessState, code: u32, available: u32)
    requires
        state.pid != 0,
        code != STILL_ACTIVE,
    ensures
        ({
            let exited = state.observe(code);
            &&& !exited.running()
            &&& exited.is_alive() == (exited, finished(OutputView::Flag(false)))
            &&& exited.get_exitstatus() == (exited, finished(OutputView::ExitStatus(Some(code))))
            &&& exited.is_eof().0.resume(exited.available(available)) == (
                exited,
                finished(OutputView::Flag(available != 0)),
            )
        }),
{
}

/// A core that does not believe that a process runs asks the system for no
/// exit code, whatever comes first: the liveness query and the exit status
/// query end at once, and the core holds what it held.
pub proof fn lemma_no_query_unless_running(state: ProcessState)
    requires
        !state.running(),
        state.pending is Idle,
    ensures
        state.is_alive() == (state.waiting(Pending::Idle), finished(OutputView::Flag(false))),
        state.get_exitstatus() == (
            state.waiting(Pending::Idle),
            finished(OutputView::ExitStatus(state.status())),
        ),
{
}

/// Before a process is bound there is no exit status: a new core answers the
/// query with nothing, and so does every core that knows no process
/// identifier. The identifier changes only when a process is bound.
pub proof fn lemma_no_exit_status_before_spawn(
    state: ProcessState,
    conin: isize,
    conout: isize,
    using_pipes: bool,
    event: EventView,
    length: u32,
    blocking: bool,
    text: Seq<u16>,
)
    ensures
        ProcessState::new(conin, conout, using_pipes).pid == 0,
        ProcessState::new(conin, conout, using_pipes).pending is Idle,
        state.pid == 0 && state.pending is Idle ==> state.get_exitstatus().1 == finished(
            OutputView::ExitStatus(None),
        ),
        state.pid == 0 && state.pending is Idle ==> state.is_alive().1 == finished(
            OutputView::Flag(false),
        ),
        state.read(length, blocking).0.pid == state.pid,
        state.write(text).0.pid == state.pid,
        state.is_eof().0.pid == state.pid,
        state.is_alive().0.pid == state.pid,
        state.get_exitstatus().0.pid == state.pid,
        state.pending != Pending::ProcessId ==> state.resume(event).0.pid == state.pid,
{
}

/// A read that does not block never waits: where nothing is there to read, it
/// ends with the empty text and no read is issued; where something is there,
/// no more than that is asked for.
pub proof fn lemma_nonblocking_read(state: ProcessState, length: u32, available: u32)
    requires
        state.pending is Idle,
    ensures
        ({
            let asked = state.read(length, false);
            let answered = asked.0.resume(state.available(available));
            &&& asked.1 == StepView::<OutputView>::Perform(state.availability_query())
            &&& (available == 0 || length == 0) ==> answered.1 == finished(
                OutputView::Text(Seq::empty()),
            )
            &&& (available != 0 && length != 0) ==> (answered.1 matches StepView::Perform(
                ActionView::ReadFile { handle, length: asked_for },
            ) && handle == state.conout && 0 < asked_for <= length && asked_for <= available)
        }),
{
}

/// A core that reads from a file asks for the size of the file, and takes any
/// size that is not positive for nothing to read.
pub proof fn lemma_nonblocking_read_of_file(state: ProcessState, length: u32, size: i64)
    requires
        !state.using_pipes,
        state.pending is Idle,
    ensures
        ({
            let asked = state.read(length, false);
            let answered = asked.0.resume(EventView::Size(size));
            &&& asked.1 == StepView::<OutputView>::Perform(
                ActionView::GetFileSize { handle: state.conout },
            )
            &&& (size <= 0 || length == 0) ==> answered.1 == finished(
                OutputView::Text(Seq::empty()),
            )
            &&& (size > 0 && length != 0) ==> (answered.1 matches StepView::Perform(
                ActionView::ReadFile { handle, length: asked_for },
            ) && handle == state.conout && 0 < asked_for <= length && asked_for <= size)
        }),
{
}

/// The end of the stream is reported unless nothing waits and the process no
/// longer runs. While the process runs, the answer is `true`; when it is seen
/// to have exited, the answer says whether bytes still wait.
pub proof fn lemma_end_of_file(state: ProcessState, available: u32, code: u32)
    requires
        state.running(),
        state.pending is Idle,
    ensures
        ({
            let peeked = state.is_eof().0.resume(state.available(available));
            let answered = peeked.0.resume(EventView::ExitCode(code));
            &&& peeked.1 == state.exit_code_query()
            &&& code == STILL_ACTIVE ==> answered.1 == finished(OutputView::Flag(true))
            &&& code != STILL_ACTIVE ==> answered.1 == finished(OutputView::Flag(available != 0))
            &&& code != STILL_ACTIVE ==> answered.0.exitstatus == Some(code) && !answered.0.alive
        }),
{
}

/// What is written comes back as it was: when the bytes of a write of
/// well-formed text are what a later read receives, that read ends with the
/// same text, unit for unit.
pub proof fn lemma_echo(state: ProcessState, reader: ProcessState, text: Seq<u16>)
    requires
        well_formed_wide(text),
        state.pending is Idle,
        reader.pending == Pending::ReadBytes,
    ensures
        state.write(text).1 matches StepView::Perform(ActionView::WriteFile { handle, bytes })
            && handle == state.conin && reader.resume(EventView::Bytes(bytes)).1 == finished(
            OutputView::Text(text),
        ),
{
    lemma_wide_round_trip(text);
}

} // verus!
