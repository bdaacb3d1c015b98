//! What holds of every construction and of every operation of the backend on
//! the native pseudoconsole.

use vstd::prelude::*;

use super::model::{
    not_enabled_text, ConPTYView, ConPending, SetupPhase, SetupView,
    ENABLE_VIRTUAL_TERMINAL_PROCESSING,
};
use crate::pty::base::{lemma_core_events_count_down, lemma_core_stays_well_formed};
use crate::pty::messages::size_error_text;
use crate::pty::protocol::{
    failed, failure_text, finished, handle_is_invalid, ActionView, EventView, OutputView,
    StdStream, StepView,
};
use crate::pty::resources::{lemma_tally_last, lemma_tally_short, released, tally, Resource};
use crate::pty::wide::{command_line, environment_block, terminated};

verus! {

impl SetupView {
    /// The steps that a run of events brings, one for each event.
    pub open spec fn trace(self, events: Seq<EventView>) -> Seq<StepView<ConPTYView>>
        decreases events.len(),
    {
        if events.len() == 0 {
            Seq::empty()
        } else {
            seq![self.resume(events[0]).1] + self.resume(events[0]).0.trace(events.drop_first())
        }
    }

    /// The construction after a run of events.
    pub open spec fn after(self, events: Seq<EventView>) -> SetupView
        decreases events.len(),
    {
        if events.len() == 0 {
            self
        } else {
            self.resume(events[0]).0.after(events.drop_first())
        }
    }

    /// The releases of what the construction holds, last first, and then the
    /// report of the error.
    pub open spec fn unwinding(self) -> Seq<StepView<ConPTYView>> {
        Seq::new(
            self.owned.len() + 1,
            |i: int|
                if i < self.owned.len() {
                    StepView::Perform(self.owned[self.owned.len() - 1 - i].release())
                } else {
                    failed(self.failure)
                },
        )
    }

    /// Whether an action of the phase can fail: the construction looks at the
    /// answer and gives up where it is no success.
    pub open spec fn fallible(self) -> bool {
        !(self.phase is Console || self.phase is CloseInputRead || self.phase is CloseOutputWrite
            || self.phase is Unwinding || self.phase is Ended)
    }
}

impl SetupView {
    /// What the construction holds while it waits in its phase, in the order
    /// in which it got them. A stream of the console leaves this list when it
    /// becomes a standard stream: from then on it belongs to the host process.
    pub open spec fn holds(self) -> Seq<Resource> {
        match self.phase {
            SetupPhase::Console
            | SetupPhase::Output
            | SetupPhase::InputPipe
            | SetupPhase::Ended => Seq::empty(),
            SetupPhase::Input => seq![Resource::Handle(self.console_out)],
            SetupPhase::Mode | SetupPhase::SetMode | SetupPhase::BindOutput => seq![
                Resource::Handle(self.console_out),
                Resource::Handle(self.console_in),
            ],
            SetupPhase::BindError | SetupPhase::BindInput => seq![
                Resource::Handle(self.console_in),
            ],
            SetupPhase::OutputPipe => seq![
                Resource::Handle(self.input_read),
                Resource::Handle(self.input_write),
            ],
            SetupPhase::PseudoConsole => seq![
                Resource::Handle(self.input_read),
                Resource::Handle(self.input_write),
                Resource::Handle(self.output_read),
                Resource::Handle(self.output_write),
            ],
            SetupPhase::CloseInputRead => seq![
                Resource::Handle(self.input_write),
                Resource::Handle(self.output_read),
                Resource::Handle(self.output_write),
                Resource::PseudoConsole(self.console),
            ],
            SetupPhase::CloseOutputWrite => seq![
                Resource::Handle(self.input_write),
                Resource::Handle(self.output_read),
                Resource::PseudoConsole(self.console),
            ],
            SetupPhase::Unwinding => self.owned,
        }
    }

    /// What every reachable construction satisfies: it holds what its phase
    /// says.
    pub open spec fn wf(self) -> bool {
        self.owned == self.holds()
    }

    /// What an event hands to the construction: the handles and the
    /// pseudoconsole that the system has made for it.
    pub open spec fn gained(self, event: EventView) -> Seq<Resource> {
        match (self.phase, event) {
            (SetupPhase::Output, EventView::Handle(handle)) => seq![Resource::Handle(handle)],
            (SetupPhase::Input, EventView::Handle(handle)) => seq![Resource::Handle(handle)],
            (SetupPhase::InputPipe, EventView::Pipe { read, write }) => seq![
                Resource::Handle(read),
                Resource::Handle(write),
            ],
            (SetupPhase::OutputPipe, EventView::Pipe { read, write }) => seq![
                Resource::Handle(read),
                Resource::Handle(write),
            ],
            (SetupPhase::PseudoConsole, EventView::Handle(console)) => seq![
                Resource::PseudoConsole(console),
            ],
            _ => Seq::empty(),
        }
    }

    /// What passes from the construction to the host process with an event:
    /// a stream of the console that has become a standard stream.
    pub open spec fn passed_on(self, event: EventView) -> Seq<Resource> {
        match (self.phase, event) {
            (SetupPhase::BindOutput, EventView::Done) => seq![Resource::Handle(self.console_out)],
            (SetupPhase::BindInput, EventView::Done) => seq![Resource::Handle(self.console_in)],
            _ => Seq::empty(),
        }
    }
}

/// What a step hands over to the backend that it finishes with: the
/// pseudoconsole and the two pipe ends of the backend.
pub open spec fn handed_over(step: StepView<ConPTYView>) -> Seq<Resource> {
    match step {
        StepView::Finished(Ok(pty)) => seq![
            Resource::Handle(pty.io.conin),
            Resource::Handle(pty.io.conout),
            Resource::PseudoConsole(pty.handle),
        ],
        _ => Seq::empty(),
    }
}

/// With every event a construction goes on holding what its phase says.
pub proof fn lemma_holds_what_its_phase_says(setup: SetupView, event: EventView)
    requires
        setup.wf(),
    ensures
        setup.resume(event).0.wf(),
        setup.resume(event).0.phase is Ended ==> setup.resume(event).0.owned.len() == 0,
{
    assert(setup.resume(event).0.owned =~= setup.resume(event).0.holds());
}

/// A construction holds nothing when it starts.
pub proof fn lemma_starts_with_empty_hands(cols: i32, rows: i32, enabled: bool)
    ensures
        SetupView::start(cols, rows).wf(),
        SetupView::begin(cols, rows, enabled).0.wf(),
        SetupView::begin(cols, rows, enabled).0.owned.len() == 0,
{
}

/// Nothing is lost and nothing is given back twice. With every event, what
/// the construction held and what the event has handed to it is what the
/// construction holds afterwards, what the next action gives back, what has
/// passed to the host process, and what goes to the finished backend: each
/// resource occurs as often on one side as on the other.
pub proof fn lemma_nothing_is_lost(setup: SetupView, event: EventView, one: Resource)
    requires
        setup.wf(),
    ensures
        tally(setup.owned, one) + tally(setup.gained(event), one) == tally(
            setup.resume(event).0.owned,
            one,
        ) + tally(released(setup.resume(event).1), one) + tally(setup.passed_on(event), one)
            + tally(handed_over(setup.resume(event).1), one),
{
    let next = setup.resume(event).0;
    let step = setup.resume(event).1;
    let out = Resource::Handle(setup.console_out);
    let inp = Resource::Handle(setup.console_in);
    let ir = Resource::Handle(setup.input_read);
    let iw = Resource::Handle(setup.input_write);
    let or = Resource::Handle(setup.output_read);
    let ow = Resource::Handle(setup.output_write);
    let pc = Resource::PseudoConsole(setup.console);
    lemma_tally_short(out, inp, ir, iw, one);
    if setup.phase is Unwinding || (setup.fallible() && step == setup.fail_on(event).1 && next
        == setup.fail_on(event).0) {
        lemma_unwinding_loses_nothing(SetupView { failure: next.failure, ..setup }, one);
        assert(setup.gained(event) =~= Seq::<Resource>::empty());
    } else {
        match setup.phase {
            SetupPhase::Output => {
                let h = Resource::Handle(event->Handle_0);
                lemma_tally_short(h, h, h, h, one);
            },
            SetupPhase::Input => {
                let h = Resource::Handle(event->Handle_0);
                lemma_tally_short(out, h, h, h, one);
                lemma_tally_short(h, h, h, h, one);
            },
            SetupPhase::BindOutput => {
                lemma_tally_short(inp, out, out, out, one);
            },
            SetupPhase::BindInput => {
                lemma_tally_short(inp, inp, inp, inp, one);
            },
            SetupPhase::InputPipe => {
                let r = Resource::Handle(event->Pipe_read);
                let w = Resource::Handle(event->Pipe_write);
                lemma_tally_short(r, w, w, w, one);
            },
            SetupPhase::OutputPipe => {
                let r = Resource::Handle(event->Pipe_read);
                let w = Resource::Handle(event->Pipe_write);
                lemma_tally_short(ir, iw, r, w, one);
                lemma_tally_short(r, w, w, w, one);
                lemma_tally_short(ir, iw, iw, iw, one);
            },
            SetupPhase::PseudoConsole => {
                let c = Resource::PseudoConsole(event->Handle_0);
                lemma_tally_short(ir, iw, or, ow, one);
                lemma_tally_short(iw, or, ow, c, one);
                lemma_tally_short(c, c, c, c, one);
                lemma_tally_short(ir, ir, ir, ir, one);
            },
            SetupPhase::CloseInputRead => {
                lemma_tally_short(iw, or, ow, pc, one);
                lemma_tally_short(iw, or, pc, pc, one);
                lemma_tally_short(ow, ow, ow, ow, one);
            },
            SetupPhase::CloseOutputWrite => {
                lemma_tally_short(iw, or, pc, pc, one);
            },
            _ => {},
        }
    }
}

/// The step of giving back loses nothing: what was held is what is still
/// held and what the step gives back.
proof fn lemma_unwinding_loses_nothing(failing: SetupView, one: Resource)
    ensures
        tally(failing.owned, one) == tally(failing.unwind().0.owned, one) + tally(
            released(failing.unwind().1),
            one,
        ),
        handed_over(failing.unwind().1) == Seq::<Resource>::empty(),
{
    if failing.owned.len() > 0 {
        let last = failing.owned.last();
        lemma_tally_last(failing.owned, one);
        lemma_tally_short(last, last, last, last, one);
    } else {
        assert(released(failing.unwind().1) =~= Seq::<Resource>::empty());
    }
}

impl SetupView {
    /// The number of events that the construction can still take: those of
    /// the actions that are still to come, and of giving back what it holds
    /// should the last of them fail.
    pub open spec fn steps_left(self) -> nat {
        match self.phase {
            SetupPhase::Console => 15,
            SetupPhase::Output => 14,
            SetupPhase::Input => 13,
            SetupPhase::Mode => 12,
            SetupPhase::SetMode => 11,
            SetupPhase::BindOutput => 10,
            SetupPhase::BindError => 9,
            SetupPhase::BindInput => 8,
            SetupPhase::InputPipe => 7,
            SetupPhase::OutputPipe => 6,
            SetupPhase::PseudoConsole => 5,
            SetupPhase::CloseInputRead => 2,
            SetupPhase::CloseOutputWrite => 1,
            SetupPhase::Unwinding => self.owned.len() + 1,
            SetupPhase::Ended => 0,
        }
    }
}

/// Every construction ends, after fifteen events at most: with every event
/// it either ends or has fewer events left.
pub proof fn lemma_construction_ends(
    setup: SetupView,
    event: EventView,
    cols: i32,
    rows: i32,
    enabled: bool,
)
    requires
        setup.wf(),
    ensures
        SetupView::begin(cols, rows, enabled).0.steps_left() <= 15,
        SetupView::begin(cols, rows, enabled).1 is Finished <==> SetupView::begin(
            cols,
            rows,
            enabled,
        ).0.phase is Ended,
        setup.resume(event).1 is Perform ==> setup.resume(event).0.steps_left()
            < setup.steps_left(),
        setup.resume(event).1 is Finished <==> setup.resume(event).0.phase is Ended,
{
}

/// A construction is refused before the host is asked for anything where the
/// backend is not available, and where the size is not positive in both
/// dimensions: the first step is the error, and nothing is held. Any other
/// construction starts with the console.
pub proof fn lemma_refused_before_anything(cols: i32, rows: i32, enabled: bool)
    ensures
        ({
            let started = SetupView::begin(cols, rows, enabled);
            &&& !enabled ==> started.1 == failed::<ConPTYView>(not_enabled_text())
            &&& enabled && (cols <= 0 || rows <= 0) ==> started.1 == failed::<ConPTYView>(
                size_error_text(cols, rows),
            )
            &&& !enabled || cols <= 0 || rows <= 0 ==> started.0.owned.len() == 0
                && started.0.phase is Ended
            &&& enabled && cols > 0 && rows > 0 ==> started.1 == StepView::<ConPTYView>::Perform(
                ActionView::AllocConsole,
            ) && started.0.owned.len() == 0
        }),
{
}

/// A construction that ends, ends with empty hands: whether it ends with the
/// backend or with an error, it holds nothing after its last step.
pub proof fn lemma_ends_with_empty_hands(setup: SetupView, event: EventView)
    ensures
        setup.resume(event).1 is Finished && !(setup.phase is Ended) ==> setup.resume(
            event,
        ).0.owned.len() == 0 && setup.resume(event).0.phase is Ended,
{
}

/// Once an action has failed, the construction gives back what it holds, last
/// first, and then reports the error of that action: these are its next
/// steps whatever the host answers, and after them it has ended and holds
/// nothing.
pub proof fn lemma_unwinds_after_failure(
    setup: SetupView,
    failure: EventView,
    events: Seq<EventView>,
)
    requires
        setup.fallible(),
        failure is Failed,
        events.len() == setup.owned.len(),
    ensures
        ({
            let failing = SetupView { failure: failure_text(failure), ..setup };
            &&& seq![setup.resume(failure).1] + setup.resume(failure).0.trace(events)
                == failing.unwinding()
            &&& setup.resume(failure).0.after(events).phase is Ended
            &&& setup.resume(failure).0.after(events).owned.len() == 0
        }),
{
    let failing = SetupView { failure: failure_text(failure), ..setup };
    assert(setup.resume(failure) == failing.unwind());
    lemma_unwinding(failing, events);
}

/// The steps of giving back, from a construction that has just failed.
proof fn lemma_unwinding(failing: SetupView, events: Seq<EventView>)
    requires
        events.len() == failing.owned.len(),
    ensures
        seq![failing.unwind().1] + failing.unwind().0.trace(events) == failing.unwinding(),
        failing.unwind().0.after(events).phase is Ended,
        failing.unwind().0.after(events).owned.len() == 0,
    decreases events.len(),
{
    let next = failing.unwind().0;
    if events.len() == 0 {
        assert(seq![failing.unwind().1] + next.trace(events) =~= failing.unwinding());
    } else {
        assert(next.phase is Unwinding);
        assert(next.resume(events[0]) == next.unwind());
        lemma_unwinding(next, events.drop_first());
        let rest = next.unwinding();
        assert(seq![next.unwind().1] + next.unwind().0.trace(events.drop_first()) == rest);
        assert(next.trace(events) == rest);
        assert(seq![failing.unwind().1] + rest =~= failing.unwinding());
    }
}

/// The construction in full, where every action succeeds: a console for the
/// host process; the console's output and input streams; the mode of the
/// output stream, and that mode with virtual terminal processing; the streams
/// as standard output, error and input; the two pipes; the pseudoconsole on
/// the read end of the input pipe and the write end of the output pipe; and
/// the closing of those two ends. The backend that comes out holds the
/// pseudoconsole, writes to the input pipe and reads from the output pipe.
pub proof fn lemma_construction_sequence(
    cols: i32,
    rows: i32,
    console_out: isize,
    console_in: isize,
    mode: u32,
    input_read: isize,
    input_write: isize,
    output_read: isize,
    output_write: isize,
    console: isize,
)
    requires
        cols > 0,
        rows > 0,
    ensures
        SetupView::begin(cols, rows, true).1 == StepView::<ConPTYView>::Perform(
            ActionView::AllocConsole,
        ),
        SetupView::begin(cols, rows, true).0.trace(
            seq![
                EventView::Done,
                EventView::Handle(console_out),
                EventView::Handle(console_in),
                EventView::ConsoleMode(mode),
                EventView::Done,
                EventView::Done,
                EventView::Done,
                EventView::Done,
                EventView::Pipe { read: input_read, write: input_write },
                EventView::Pipe { read: output_read, write: output_write },
                EventView::Handle(console),
                EventView::Done,
                EventView::Done,
            ],
        ) == seq![
            StepView::<ConPTYView>::Perform(ActionView::OpenConsoleOutput),
            StepView::Perform(ActionView::OpenConsoleInput),
            StepView::Perform(ActionView::GetConsoleMode { handle: console_out }),
            StepView::Perform(
                ActionView::SetConsoleMode {
                    handle: console_out,
                    mode: mode | ENABLE_VIRTUAL_TERMINAL_PROCESSING,
                },
            ),
            StepView::Perform(
                ActionView::SetStdHandle { stream: StdStream::Output, handle: console_out },
            ),
            StepView::Perform(
                ActionView::SetStdHandle { stream: StdStream::Error, handle: console_out },
            ),
            StepView::Perform(
                ActionView::SetStdHandle { stream: StdStream::Input, handle: console_in },
            ),
            StepView::Perform(ActionView::CreatePipe),
            StepView::Perform(ActionView::CreatePipe),
            StepView::Perform(
                ActionView::CreatePseudoConsole {
                    cols,
                    rows,
                    input: input_read,
                    output: output_write,
                },
            ),
            StepView::Perform(ActionView::CloseHandle { handle: input_read }),
            StepView::Perform(ActionView::CloseHandle { handle: output_write }),
            StepView::Finished(Ok(ConPTYView::built(console, input_write, output_read))),
        ],
{
    let events = seq![
        EventView::Done,
        EventView::Handle(console_out),
        EventView::Handle(console_in),
        EventView::ConsoleMode(mode),
        EventView::Done,
        EventView::Done,
        EventView::Done,
        EventView::Done,
        EventView::Pipe { read: input_read, write: input_write },
        EventView::Pipe { read: output_read, write: output_write },
        EventView::Handle(console),
        EventView::Done,
        EventView::Done,
    ];
    let start = SetupView::begin(cols, rows, true).0;
    let trace = start.trace(events);
    lemma_trace_indexed(start, events);
    assert(events.take(0) =~= Seq::<EventView>::empty());
    let a0 = start.after(events.take(0));
    assert(a0 == start);
    lemma_after_take(start, events, 0);
    let a1 = start.after(events.take(1));
    lemma_after_take(start, events, 1);
    let a2 = start.after(events.take(2));
    lemma_after_take(start, events, 2);
    let a3 = start.after(events.take(3));
    lemma_after_take(start, events, 3);
    let a4 = start.after(events.take(4));
    lemma_after_take(start, events, 4);
    let a5 = start.after(events.take(5));
    lemma_after_take(start, events, 5);
    let a6 = start.after(events.take(6));
    lemma_after_take(start, events, 6);
    let a7 = start.after(events.take(7));
    lemma_after_take(start, events, 7);
    let a8 = start.after(events.take(8));
    lemma_after_take(start, events, 8);
    let a9 = start.after(events.take(9));
    lemma_after_take(start, events, 9);
    let a10 = start.after(events.take(10));
    lemma_after_take(start, events, 10);
    let a11 = start.after(events.take(11));
    lemma_after_take(start, events, 11);
    let a12 = start.after(events.take(12));
    assert(a1.phase is Output);
    assert(a2.phase is Input && a2.console_out == console_out);
    assert(a3.phase is Mode && a3.console_in == console_in && a3.console_out == console_out);
    assert(a4.phase is SetMode);
    assert(a5.phase is BindOutput);
    assert(a6.phase is BindError);
    assert(a7.phase is BindInput && a7.console_in == console_in);
    assert(a8.phase is InputPipe && a8.cols == cols && a8.rows == rows);
    assert(a9.phase is OutputPipe && a9.input_read == input_read && a9.input_write == input_write);
    assert(a10.phase is PseudoConsole && a10.output_read == output_read && a10.output_write
        == output_write);
    assert(a11.phase is CloseInputRead && a11.console == console);
    assert(a12.phase is CloseOutputWrite && a12.input_write == input_write && a12.output_read
        == output_read && a12.console == console);
    assert(trace[0] == a0.resume(events[0]).1);
    assert(trace[1] == a1.resume(events[1]).1);
    assert(trace[2] == a2.resume(events[2]).1);
    assert(trace[3] == a3.resume(events[3]).1);
    assert(trace[4] == a4.resume(events[4]).1);
    assert(trace[5] == a5.resume(events[5]).1);
    assert(trace[6] == a6.resume(events[6]).1);
    assert(trace[7] == a7.resume(events[7]).1);
    assert(trace[8] == a8.resume(events[8]).1);
    assert(trace[9] == a9.resume(events[9]).1);
    assert(trace[10] == a10.resume(events[10]).1);
    assert(trace[11] == a11.resume(events[11]).1);
    assert(trace[12] == a12.resume(events[12]).1);
    assert(trace =~= seq![
        StepView::<ConPTYView>::Perform(ActionView::OpenConsoleOutput),
        StepView::Perform(ActionView::OpenConsoleInput),
        StepView::Perform(ActionView::GetConsoleMode { handle: console_out }),
        StepView::Perform(
            ActionView::SetConsoleMode {
                handle: console_out,
                mode: mode | ENABLE_VIRTUAL_TERMINAL_PROCESSING,
            },
        ),
        StepView::Perform(
            ActionView::SetStdHandle { stream: StdStream::Output, handle: console_out },
        ),
        StepView::Perform(
            ActionView::SetStdHandle { stream: StdStream::Error, handle: console_out },
        ),
        StepView::Perform(
            ActionView::SetStdHandle { stream: StdStream::Input, handle: console_in },
        ),
        StepView::Perform(ActionView::CreatePipe),
        StepView::Perform(ActionView::CreatePipe),
        StepView::Perform(
            ActionView::CreatePseudoConsole { cols, rows, input: input_read, output: output_write },
        ),
        StepView::Perform(ActionView::CloseHandle { handle: input_read }),
        StepView::Perform(ActionView::CloseHandle { handle: output_write }),
        StepView::Finished(Ok(ConPTYView::built(console, input_write, output_read))),
    ]);
}

/// The construction after one more event is the move on that event of the
/// construction as the events before have left it.
proof fn lemma_after_push(setup: SetupView, events: Seq<EventView>, event: EventView)
    ensures
        setup.after(events.push(event)) == setup.after(events).resume(event).0,
    decreases events.len(),
{
    let all = events.push(event);
    if events.len() == 0 {
        assert(all.drop_first() =~= Seq::<EventView>::empty());
        assert(all[0] == event);
        assert(setup.resume(event).0.after(Seq::<EventView>::empty()) == setup.resume(event).0);
    } else {
        assert(all[0] == events[0]);
        assert(all.drop_first() =~= events.drop_first().push(event));
        lemma_after_push(setup.resume(events[0]).0, events.drop_first(), event);
    }
}

/// The same, for the first events of a run.
proof fn lemma_after_take(setup: SetupView, events: Seq<EventView>, i: int)
    requires
        0 <= i < events.len(),
    ensures
        setup.after(events.take(i + 1)) == setup.after(events.take(i)).resume(events[i]).0,
{
    assert(events.take(i + 1) =~= events.take(i).push(events[i]));
    lemma_after_push(setup, events.take(i), events[i]);
}

/// Each step of a trace is the move on its event of the construction as the
/// events before have left it.
proof fn lemma_trace_indexed(setup: SetupView, events: Seq<EventView>)
    ensures
        setup.trace(events).len() == events.len(),
        forall|i: int|
            0 <= i < events.len() ==> #[trigger] setup.trace(events)[i] == setup.after(
                events.take(i),
            ).resume(events[i]).1,
    decreases events.len(),
{
    if events.len() > 0 {
        let next = setup.resume(events[0]).0;
        let rest = events.drop_first();
        lemma_trace_indexed(next, rest);
        assert forall|i: int| 0 <= i < events.len() implies #[trigger] setup.trace(events)[i]
            == setup.after(events.take(i)).resume(events[i]).1 by {
            if i == 0 {
                assert(events.take(0) =~= Seq::<EventView>::empty());
            } else {
                assert(events.take(i).drop_first() =~= rest.take(i - 1));
                assert(events.take(i)[0] == events[0]);
                assert(setup.after(events.take(i)) == next.after(rest.take(i - 1)));
                assert(setup.trace(events)[i] == next.trace(rest)[i - 1]);
            }
        }
    }
}

/// A spawn in full, where every call succeeds: an attribute list; the
/// pseudoconsole in that list; the process, created from the command line,
/// the working directory and the environment block, with the list; and the
/// identifier of the process. The spawn ends with `true`. The backend then
/// holds the process, its thread and the list, and its core knows the process
/// as running but leaves the closing of its handle to the backend.
pub proof fn lemma_spawn_sequence(
    pty: ConPTYView,
    appname: Seq<u16>,
    cmdline: Option<Seq<u16>>,
    cwd: Option<Seq<u16>>,
    env: Option<Seq<u16>>,
    list: isize,
    process: isize,
    thread: isize,
    pid: u32,
)
    requires
        pty.enabled,
        pty.pending is Idle,
        !pty.spawned(),
    ensures
        ({
            let asked = pty.spawn(appname, cmdline, cwd, env);
            let listed = asked.0.resume(EventView::Handle(list));
            let updated = listed.0.resume(EventView::Done);
            let created = updated.0.resume(EventView::Process { process, thread });
            let bound = created.0.resume(EventView::ProcessId(pid));
            &&& asked.1 == StepView::<OutputView>::Perform(ActionView::InitializeAttributeList)
            &&& listed.1 == StepView::<OutputView>::Perform(
                ActionView::UpdateAttributeList { list, console: pty.handle },
            )
            &&& updated.1 == StepView::<OutputView>::Perform(
                ActionView::CreateProcess {
                    command_line: command_line(appname, cmdline),
                    working_dir: match cwd {
                        Some(dir) => Some(terminated(dir)),
                        None => None,
                    },
                    environment: match env {
                        Some(entries) => Some(environment_block(entries)),
                        None => None,
                    },
                    attribute_list: list,
                },
            )
            &&& created.1 == StepView::<OutputView>::Perform(ActionView::GetProcessId { process })
            &&& bound.1 == finished(OutputView::Flag(true))
            &&& bound.0.process == process && bound.0.thread == thread && bound.0.attribute_list
                == list && bound.0.handle == pty.handle
            &&& bound.0.io.process == process && bound.0.io.pid == pid && bound.0.io.alive
                && !bound.0.io.close_process
            &&& bound.0.pending is Idle && bound.0.owned.len() == 0
        }),
{
}

/// A spawn that fails gives back its attribute list before it reports the
/// error, and leaves the backend without a process and without a list, ready
/// for another spawn: this holds when the pseudoconsole cannot be put into
/// the list, and when the process cannot be created.
pub proof fn lemma_failed_spawn_gives_back(
    pty: ConPTYView,
    appname: Seq<u16>,
    cmdline: Option<Seq<u16>>,
    cwd: Option<Seq<u16>>,
    env: Option<Seq<u16>>,
    list: isize,
    message: Seq<char>,
    ignored: EventView,
    late: bool,
)
    requires
        pty.enabled,
        pty.pending is Idle,
        !pty.spawned(),
    ensures
        ({
            let listed = pty.spawn(appname, cmdline, cwd, env).0.resume(EventView::Handle(list));
            let refused = if late {
                listed.0.resume(EventView::Done).0.resume(EventView::Failed(message))
            } else {
                listed.0.resume(EventView::Failed(message))
            };
            let ended = refused.0.resume(ignored);
            &&& refused.1 == StepView::<OutputView>::Perform(
                ActionView::DeleteAttributeList { list },
            )
            &&& ended.1 == failed::<OutputView>(message)
            &&& ended.0.pending is Idle && ended.0.owned.len() == 0
            &&& ended.0.attribute_list == 0 && ended.0.process == pty.process && ended.0.thread
                == pty.thread
            &&& ended.0.io == pty.io && ended.0.handle == pty.handle && !ended.0.spawned()
        }),
{
    let listed = pty.spawn(appname, cmdline, cwd, env).0.resume(EventView::Handle(list));
    assert(listed.0.owned =~= seq![Resource::AttributeList(list)]);
    assert(listed.0.owned.drop_last() =~= Seq::<Resource>::empty());
}

impl ConPTYView {
    /// What the backend holds for the spawn under way while it waits: the
    /// attribute list, from when it is there until the process is.
    pub open spec fn holds(self) -> Seq<Resource> {
        match self.pending {
            ConPending::AttributeUpdate | ConPending::Process => seq![
                Resource::AttributeList(self.attribute_list),
            ],
            ConPending::Unwind => self.owned,
            _ => Seq::empty(),
        }
    }

    /// What every reachable backend satisfies: its core is well formed and
    /// never has the duty to close the process, which is the backend's; and
    /// the backend holds for a spawn what its state says.
    pub open spec fn wf(self) -> bool {
        &&& self.io.wf()
        &&& !self.io.close_process
        &&& self.pending is Bind ==> self.io.pending is ProcessId
        &&& self.pending is Io ==> !(self.io.pending is Idle)
        &&& !(self.pending is Io || self.pending is Bind) ==> self.io.pending is Idle
        &&& self.owned == self.holds()
    }

    /// The number of events that the operation under way can still take.
    pub open spec fn steps_left(self) -> nat {
        match self.pending {
            ConPending::Idle => 0,
            ConPending::Io => self.io.steps_left(),
            ConPending::Resize | ConPending::Bind => 1,
            ConPending::AttributeList => 6,
            ConPending::AttributeUpdate => 5,
            ConPending::Process => 4,
            ConPending::Unwind => self.owned.len() + 1,
        }
    }

    /// What an event hands to the backend: the attribute list, and the
    /// process with its thread.
    pub open spec fn gained(self, event: EventView) -> Seq<Resource> {
        match (self.pending, event) {
            (ConPending::AttributeList, EventView::Handle(list)) => seq![
                Resource::AttributeList(list),
            ],
            (ConPending::Process, EventView::Process { process, thread }) => seq![
                Resource::Handle(process),
                Resource::Handle(thread),
            ],
            _ => Seq::empty(),
        }
    }

    /// What the backend keeps for its life when an event ends a spawn well:
    /// the attribute list, the process and its thread. They are given back
    /// when the backend goes.
    pub open spec fn kept(self, event: EventView) -> Seq<Resource> {
        match (self.pending, event) {
            (ConPending::Process, EventView::Process { process, thread }) => if self.spawned() {
                Seq::empty()
            } else {
                seq![
                    Resource::AttributeList(self.attribute_list),
                    Resource::Handle(process),
                    Resource::Handle(thread),
                ]
            },
            _ => Seq::empty(),
        }
    }

    /// The closing of a handle, where the handle stands for something.
    pub open spec fn closing(handle: isize) -> Seq<ActionView> {
        if handle_is_invalid(handle) {
            Seq::empty()
        } else {
            seq![ActionView::CloseHandle { handle }]
        }
    }
}

/// Every move of the backend keeps it well formed.
pub proof fn lemma_stays_well_formed(
    pty: ConPTYView,
    event: EventView,
    appname: Seq<u16>,
    cmdline: Option<Seq<u16>>,
    cwd: Option<Seq<u16>>,
    env: Option<Seq<u16>>,
    cols: i32,
    rows: i32,
    length: u32,
    blocking: bool,
    text: Seq<u16>,
    console: isize,
    conin: isize,
    conout: isize,
)
    requires
        pty.wf(),
    ensures
        ConPTYView::built(console, conin, conout).wf(),
        ConPTYView::disabled().wf(),
        pty.spawn(appname, cmdline, cwd, env).0.wf(),
        pty.set_size(cols, rows).0.wf(),
        pty.through_core(pty.io.read(length, blocking)).0.wf(),
        pty.through_core(pty.io.write(text)).0.wf(),
        pty.through_core(pty.io.is_eof()).0.wf(),
        pty.through_core(pty.io.is_alive()).0.wf(),
        pty.through_core(pty.io.get_exitstatus()).0.wf(),
{
    lemma_core_stays_well_formed(pty.io, event, length, blocking, text, 0, false);
    assert(ConPTYView::built(console, conin, conout).owned =~= Seq::<Resource>::empty());
}

/// A backend is well formed as it comes out of its construction, and so is
/// one that is not available.
pub proof fn lemma_built_is_well_formed(console: isize, conin: isize, conout: isize)
    ensures
        ConPTYView::built(console, conin, conout).wf(),
        ConPTYView::disabled().wf(),
{
    assert(ConPTYView::built(console, conin, conout).owned =~= Seq::<Resource>::empty());
    assert(ConPTYView::disabled().owned =~= Seq::<Resource>::empty());
}

/// Every event keeps the backend well formed.
pub proof fn lemma_event_keeps_well_formed(pty: ConPTYView, event: EventView)
    requires
        pty.wf(),
    ensures
        pty.resume(event).0.wf(),
{
    lemma_core_stays_well_formed(pty.io, event, 0, false, Seq::empty(), 0, false);
    assert(pty.resume(event).0.owned =~= pty.resume(event).0.holds());
}

/// No operation of the backend goes on for ever: a spawn ends after six
/// events at most, a resize after one, and what goes through the core after
/// two. With every event the operation either ends, and the backend waits
/// for nothing, or has fewer events left.
pub proof fn lemma_operations_end(
    pty: ConPTYView,
    event: EventView,
    appname: Seq<u16>,
    cmdline: Option<Seq<u16>>,
    cwd: Option<Seq<u16>>,
    env: Option<Seq<u16>>,
    cols: i32,
    rows: i32,
)
    requires
        pty.wf(),
    ensures
        pty.spawn(appname, cmdline, cwd, env).1 is Perform ==> pty.spawn(
            appname,
            cmdline,
            cwd,
            env,
        ).0.steps_left() == 6,
        pty.set_size(cols, rows).1 is Perform ==> pty.set_size(cols, rows).0.steps_left() == 1,
        pty.resume(event).1 is Perform ==> pty.resume(event).0.steps_left() < pty.steps_left(),
        !(pty.pending is Idle) ==> (pty.resume(event).1 is Finished <==> pty.resume(
            event,
        ).0.pending is Idle),
{
    lemma_core_events_count_down(pty.io, event);
}

/// A spawn loses nothing and gives nothing back twice. With every event, what
/// the backend held for the spawn and what the event has handed to it is
/// what the backend holds afterwards, what the next action gives back, and
/// what the backend keeps for its life: each resource occurs as often on one
/// side as on the other.
pub proof fn lemma_spawn_loses_nothing(pty: ConPTYView, event: EventView, one: Resource)
    requires
        pty.wf(),
        !(pty.pending is Idle),
    ensures
        tally(pty.owned, one) + tally(pty.gained(event), one) == tally(
            pty.resume(event).0.owned,
            one,
        ) + tally(released(pty.resume(event).1), one) + tally(pty.kept(event), one),
{
    let list = Resource::AttributeList(pty.attribute_list);
    lemma_tally_short(list, list, list, list, one);
    match (pty.pending, event) {
        (ConPending::AttributeList, EventView::Handle(fresh)) => {
            let l = Resource::AttributeList(fresh);
            lemma_tally_short(l, l, l, l, one);
        },
        (ConPending::Process, EventView::Process { process, thread }) => {
            let p = Resource::Handle(process);
            let t = Resource::Handle(thread);
            lemma_tally_short(p, t, t, t, one);
            lemma_tally_short(list, p, t, t, one);
            lemma_tally_short(list, p, p, p, one);
            lemma_tally_short(t, t, t, t, one);
            if pty.spawned() {
                let all = pty.owned.push(p).push(t);
                assert(all =~= seq![list, p, t]);
                assert(all.drop_last() =~= seq![list, p]);
            }
        },
        (ConPending::AttributeUpdate, EventView::Done) => {},
        (ConPending::Io, _) => {},
        (ConPending::Bind, _) => {},
        (ConPending::Resize, _) => {},
        (ConPending::AttributeList, _) => {},
        _ => {
            if pty.owned.len() > 0 {
                lemma_tally_last(pty.owned, one);
                let last = pty.owned.last();
                lemma_tally_short(last, last, last, last, one);
            }
        },
    }
}

/// The order in which a backend gives back what it holds: the thread of the
/// process, the process, the attribute list, the pseudoconsole, the input
/// pipe and the output pipe. The handle of the process is closed by the
/// backend and not again by its core.
pub proof fn lemma_teardown_order(pty: ConPTYView)
    requires
        pty.wf(),
        pty.enabled,
    ensures
        pty.teardown() == ConPTYView::closing(pty.thread) + ConPTYView::closing(pty.process) + (
        if pty.attribute_list == 0 {
            Seq::<ActionView>::empty()
        } else {
            seq![ActionView::DeleteAttributeList { list: pty.attribute_list }]
        }) + seq![ActionView::ClosePseudoConsole { console: pty.handle }] + ConPTYView::closing(
            pty.io.conin,
        ) + ConPTYView::closing(pty.io.conout),
{
    assert(pty.io.teardown() =~= ConPTYView::closing(pty.io.conin) + ConPTYView::closing(
        pty.io.conout,
    ));
    assert(pty.teardown() =~= ConPTYView::closing(pty.thread) + ConPTYView::closing(pty.process)
        + (if pty.attribute_list == 0 {
        Seq::<ActionView>::empty()
    } else {
        seq![ActionView::DeleteAttributeList { list: pty.attribute_list }]
    }) + seq![ActionView::ClosePseudoConsole { console: pty.handle }] + ConPTYView::closing(
        pty.io.conin,
    ) + ConPTYView::closing(pty.io.conout));
}

/// From its construction to its end a backend gives back all that it got,
/// and each thing once. A backend that was built on a pseudoconsole and two
/// pipe ends, and in which a process was spawned, gives back at its end the
/// thread, the process, the attribute list, the pseudoconsole and the two
/// pipe ends: what its construction handed over and what its spawn kept.
pub proof fn lemma_life_cycle(
    console: isize,
    conin: isize,
    conout: isize,
    appname: Seq<u16>,
    list: isize,
    process: isize,
    thread: isize,
    pid: u32,
)
    requires
        !handle_is_invalid(conin),
        !handle_is_invalid(conout),
        !handle_is_invalid(process),
        !handle_is_invalid(thread),
        list != 0,
    ensures
        ({
            let built = ConPTYView::built(console, conin, conout);
            let spawned = built.spawn(appname, None, None, None).0.resume(
                EventView::Handle(list),
            ).0.resume(EventView::Done).0.resume(EventView::Process { process, thread }).0.resume(
                EventView::ProcessId(pid),
            ).0;
            &&& built.teardown() == seq![
                ActionView::ClosePseudoConsole { console },
                ActionView::CloseHandle { handle: conin },
                ActionView::CloseHandle { handle: conout },
            ]
            &&& spawned.teardown() == seq![
                ActionView::CloseHandle { handle: thread },
                ActionView::CloseHandle { handle: process },
                ActionView::DeleteAttributeList { list },
                ActionView::ClosePseudoConsole { console },
                ActionView::CloseHandle { handle: conin },
                ActionView::CloseHandle { handle: conout },
            ]
        }),
{
    let built = ConPTYView::built(console, conin, conout);
    lemma_spawn_sequence(built, appname, None, None, None, list, process, thread, pid);
    let spawned = built.spawn(appname, None, None, None).0.resume(EventView::Handle(list)).0.resume(
        EventView::Done,
    ).0.resume(EventView::Process { process, thread }).0.resume(EventView::ProcessId(pid)).0;
    assert(built.wf());
    lemma_teardown_order(built);
    assert(built.teardown() =~= seq![
        ActionView::ClosePseudoConsole { console },
        ActionView::CloseHandle { handle: conin },
        ActionView::CloseHandle { handle: conout },
    ]);
    assert(spawned.io.conin == conin && spawned.io.conout == conout);
    assert(spawned.teardown() =~= seq![
        ActionView::CloseHandle { handle: thread },
        ActionView::CloseHandle { handle: process },
        ActionView::DeleteAttributeList { list },
        ActionView::ClosePseudoConsole { console },
        ActionView::CloseHandle { handle: conin },
        ActionView::CloseHandle { handle: conout },
    ]);
}

/// A backend that is not available fails every operation with the same error,
/// asks the host for nothing and stays as it is.
pub proof fn lemma_disabled_fails_everything(
    pty: ConPTYView,
    appname: Seq<u16>,
    cmdline: Option<Seq<u16>>,
    cwd: Option<Seq<u16>>,
    env: Option<Seq<u16>>,
    cols: i32,
    rows: i32,
    length: u32,
    blocking: bool,
    text: Seq<u16>,
)
    requires
        !pty.enabled,
    ensures
        pty.spawn(appname, cmdline, cwd, env) == (pty, failed::<OutputView>(not_enabled_text())),
        pty.set_size(cols, rows) == (pty, failed::<OutputView>(not_enabled_text())),
        pty.through_core(pty.io.read(length, blocking)) == (
            pty,
            failed::<OutputView>(not_enabled_text()),
        ),
        pty.through_core(pty.io.write(text)) == (pty, failed::<OutputView>(not_enabled_text())),
        pty.through_core(pty.io.is_eof()) == (pty, failed::<OutputView>(not_enabled_text())),
        pty.through_core(pty.io.is_alive()) == (pty, failed::<OutputView>(not_enabled_text())),
        pty.through_core(pty.io.get_exitstatus()) == (
            pty,
            failed::<OutputView>(not_enabled_text()),
        ),
        !ConPTYView::disabled().enabled,
{
}

/// A resize to a size that is not positive is refused before the host is
/// asked for anything, and the backend stays as it is; any other resize asks
/// for exactly the size that was given.
pub proof fn lemma_resize(pty: ConPTYView, cols: i32, rows: i32)
    requires
        pty.enabled,
        pty.pending is Idle,
    ensures
        cols <= 0 || rows <= 0 ==> pty.set_size(cols, rows) == (
            pty,
            failed::<OutputView>(size_error_text(cols, rows)),
        ),
        cols > 0 && rows > 0 ==> pty.set_size(cols, rows).1 == StepView::<OutputView>::Perform(
            ActionView::ResizePseudoConsole { console: pty.handle, cols, rows },
        ) && pty.set_size(cols, rows).0.resume(EventView::Done).1 == finished(OutputView::Unit),
{
}

} // verus!
