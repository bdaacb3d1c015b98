//! What holds of every construction and of every operation of the backend on
//! the winpty agent.

use vstd::prelude::*;

use super::bindings::{
    winpty_config_s, winpty_error_s, winpty_s, winpty_spawn_config_s, WINPTY_SPAWN_FLAG_MASK,
};
use super::model::{not_enabled_text, SetupPhase, SetupView, WinPTYView, WinPending};
use crate::pty::base::{lemma_core_events_count_down, lemma_core_stays_well_formed};
use crate::pty::messages::size_error_text;
use crate::pty::protocol::{
    failed, failure_text, finished, handle_is_invalid, Access, ActionView, EventView, OutputView,
    StepView,
};
use crate::pty::resources::{
    lemma_tally_last, lemma_tally_push, lemma_tally_short, released, tally, Resource,
};
use crate::pty::wide::{environment_block, terminated};
use crate::pty::PTYArgs;

verus! {

impl SetupView {
    /// The steps that a run of events brings, one for each event.
    pub open spec fn trace(self, events: Seq<EventView>) -> Seq<StepView<WinPTYView>>
        decreases events.len(),
    {
        if events.len() == 0 {
            Seq::empty()
        } else {
            seq![self.resume(events[0]).1] + self.resume(events[0]).0.trace(events.drop_first())
        }
    }

    /// The construction after a run of events.
    pub open spec fn after(self, events: Seq<EventView>) -> SetupView
        decreases events.len(),
    {
        if events.len() == 0 {
            self
        } else {
            self.resume(events[0]).0.after(events.drop_first())
        }
    }

    /// The releases of what the construction holds, last first, and then the
    /// report of the error.
    pub open spec fn unwinding(self) -> Seq<StepView<WinPTYView>> {
        Seq::new(
            self.owned.len() + 1,
            |i: int|
                if i < self.owned.len() {
                    StepView::Perform(self.owned[self.owned.len() - 1 - i].release())
                } else {
                    failed(self.failure)
                },
        )
    }

    /// Whether an action of the phase can fail: the construction looks at the
    /// answer and gives up where it is no success.
    pub open spec fn fallible(self) -> bool {
        self.phase is Config || self.phase is Open || self.phase is ConinName
            || self.phase is OpenConin || self.phase is ConoutName || self.phase is OpenConout
    }
}

impl SetupView {
    /// What the construction holds while it waits in its phase, in the order
    /// in which it got them.
    pub open spec fn holds(self) -> Seq<Resource> {
        match self.phase {
            SetupPhase::Config | SetupPhase::Ended => Seq::empty(),
            SetupPhase::InitialSize | SetupPhase::MouseMode | SetupPhase::Timeout
            | SetupPhase::Open => seq![Resource::Config(self.config)],
            SetupPhase::FreeConfig | SetupPhase::ConinName | SetupPhase::OpenConin => seq![
                Resource::Agent(self.agent),
            ],
            SetupPhase::ConoutName | SetupPhase::OpenConout => seq![
                Resource::Agent(self.agent),
                Resource::Handle(self.conin),
            ],
            SetupPhase::ErrorText | SetupPhase::Unwinding => self.owned,
        }
    }

    /// What every reachable construction satisfies: it holds what its phase
    /// says.
    pub open spec fn wf(self) -> bool {
        self.owned == self.holds()
    }

    /// What an event hands to the construction: the objects that the agent
    /// library has made for it, an error object among them, and the handles
    /// of the pipes.
    pub open spec fn gained(self, event: EventView) -> Seq<Resource> {
        match (self.phase, event) {
            (SetupPhase::Config, EventView::Config(config)) => seq![Resource::Config(config)],
            (SetupPhase::Open, EventView::Agent(agent)) => seq![Resource::Agent(agent)],
            (SetupPhase::OpenConin, EventView::Handle(handle)) => seq![Resource::Handle(handle)],
            (SetupPhase::OpenConout, EventView::Handle(handle)) => seq![Resource::Handle(handle)],
            (_, EventView::AgentFailed(error)) => if self.fallible() {
                seq![Resource::Error(error)]
            } else {
                Seq::empty()
            },
            _ => Seq::empty(),
        }
    }
}

/// What a step hands over to the backend that it finishes with: the agent and
/// the two pipes of the backend.
pub open spec fn handed_over(step: StepView<WinPTYView>) -> Seq<Resource> {
    match step {
        StepView::Finished(Ok(pty)) => seq![
            Resource::Agent(pty.agent),
            Resource::Handle(pty.io.conin),
            Resource::Handle(pty.io.conout),
        ],
        _ => Seq::empty(),
    }
}

/// With every event a construction goes on holding what its phase says.
pub proof fn lemma_holds_what_its_phase_says(setup: SetupView, event: EventView)
    requires
        setup.wf(),
    ensures
        setup.resume(event).0.wf(),
        setup.resume(event).0.phase is Ended ==> setup.resume(event).0.owned.len() == 0,
{
    assert(setup.resume(event).0.owned =~= setup.resume(event).0.holds());
}

/// A construction holds nothing when it starts.
pub proof fn lemma_starts_with_empty_hands(args: PTYArgs, enabled: bool)
    ensures
        SetupView::start(args).wf(),
        SetupView::begin(args, enabled).0.wf(),
        SetupView::begin(args, enabled).0.owned.len() == 0,
{
}

/// The step of giving back loses nothing: what was held is what is still
/// held and what the step gives back.
proof fn lemma_unwinding_loses_nothing(failing: SetupView, one: Resource)
    ensures
        tally(failing.owned, one) == tally(failing.unwind().0.owned, one) + tally(
            released(failing.unwind().1),
            one,
        ),
        handed_over(failing.unwind().1) == Seq::<Resource>::empty(),
{
    if failing.owned.len() > 0 {
        let last = failing.owned.last();
        lemma_tally_last(failing.owned, one);
        lemma_tally_short(last, last, last, last, one);
    } else {
        assert(released(failing.unwind().1) =~= Seq::<Resource>::empty());
    }
}

/// Nothing is lost and nothing is given back twice. With every event, what
/// the construction held and what the event has handed to it is what the
/// construction holds afterwards, what the next action gives back, and what
/// goes to the finished backend: each resource occurs as often on one side as
/// on the other.
pub proof fn lemma_nothing_is_lost(setup: SetupView, event: EventView, one: Resource)
    requires
        setup.wf(),
    ensures
        tally(setup.owned, one) + tally(setup.gained(event), one) == tally(
            setup.resume(event).0.owned,
            one,
        ) + tally(released(setup.resume(event).1), one) + tally(
            handed_over(setup.resume(event).1),
            one,
        ),
{
    let next = setup.resume(event).0;
    let step = setup.resume(event).1;
    let config = Resource::Config(setup.config);
    let agent = Resource::Agent(setup.agent);
    let conin = Resource::Handle(setup.conin);
    lemma_tally_short(config, agent, conin, conin, one);
    lemma_tally_short(agent, conin, conin, conin, one);
    if setup.phase is Unwinding || setup.phase is ErrorText || (setup.fallible() && !(
    event is AgentFailed) && step == setup.fail_on(event).1 && next == setup.fail_on(event).0) {
        lemma_unwinding_loses_nothing(SetupView { failure: next.failure, ..setup }, one);
        assert(setup.gained(event) =~= Seq::<Resource>::empty());
    } else if setup.fallible() && event is AgentFailed {
        let error = Resource::Error(event->AgentFailed_0);
        lemma_tally_push(setup.owned, error, one);
        lemma_tally_short(error, error, error, error, one);
    } else {
        match setup.phase {
            SetupPhase::Config => {
                let c = Resource::Config(event->Config_0);
                lemma_tally_short(c, c, c, c, one);
            },
            SetupPhase::Open => {
                let a = Resource::Agent(event->Agent_0);
                lemma_tally_short(a, a, a, a, one);
            },
            SetupPhase::OpenConin => {
                let h = Resource::Handle(event->Handle_0);
                lemma_tally_short(agent, h, h, h, one);
                lemma_tally_short(h, h, h, h, one);
            },
            SetupPhase::OpenConout => {
                let h = Resource::Handle(event->Handle_0);
                lemma_tally_short(agent, conin, h, h, one);
                lemma_tally_short(h, h, h, h, one);
            },
            _ => {},
        }
    }
}

impl SetupView {
    /// The number of events that the construction can still take: those of
    /// the actions that are still to come, and of reading an error and giving
    /// back what it holds should the last of them fail.
    pub open spec fn steps_left(self) -> nat {
        match self.phase {
            SetupPhase::Config => 15,
            SetupPhase::InitialSize => 14,
            SetupPhase::MouseMode => 13,
            SetupPhase::Timeout => 12,
            SetupPhase::Open => 11,
            SetupPhase::FreeConfig => 10,
            SetupPhase::ConinName => 9,
            SetupPhase::OpenConin => 8,
            SetupPhase::ConoutName => 7,
            SetupPhase::OpenConout => 6,
            SetupPhase::ErrorText => self.owned.len() + 2,
            SetupPhase::Unwinding => self.owned.len() + 1,
            SetupPhase::Ended => 0,
        }
    }
}

/// Every construction ends, after fifteen events at most: with every event
/// it either ends or has fewer events left.
pub proof fn lemma_construction_ends(
    setup: SetupView,
    event: EventView,
    args: PTYArgs,
    enabled: bool,
)
    requires
        setup.wf(),
    ensures
        SetupView::begin(args, enabled).0.steps_left() <= 15,
        SetupView::begin(args, enabled).1 is Finished <==> SetupView::begin(
            args,
            enabled,
        ).0.phase is Ended,
        setup.resume(event).1 is Perform ==> setup.resume(event).0.steps_left()
            < setup.steps_left(),
        setup.resume(event).1 is Finished <==> setup.resume(event).0.phase is Ended,
{
}

/// A construction is refused before the host is asked for anything where the
/// backend is not available, and where the size is not positive in both
/// dimensions: the first step is the error, and nothing is held. Any other
/// construction starts with a configuration that carries the flags asked for.
pub proof fn lemma_refused_before_anything(args: PTYArgs, enabled: bool)
    ensures
        ({
            let started = SetupView::begin(args, enabled);
            &&& !enabled ==> started.1 == failed::<WinPTYView>(not_enabled_text())
            &&& enabled && (args.cols <= 0 || args.rows <= 0) ==> started.1 == failed::<
                WinPTYView,
            >(size_error_text(args.cols, args.rows))
            &&& !enabled || args.cols <= 0 || args.rows <= 0 ==> started.0.owned.len() == 0
                && started.0.phase is Ended
            &&& enabled && args.cols > 0 && args.rows > 0 ==> started.1 == StepView::<
                WinPTYView,
            >::Perform(ActionView::ConfigNew { flags: args.agent_config.spec_bits() })
                && started.0.owned.len() == 0
        }),
{
}

/// A construction that ends, ends with empty hands: whether it ends with the
/// backend or with an error, it holds nothing after its last step.
pub proof fn lemma_ends_with_empty_hands(setup: SetupView, event: EventView)
    ensures
        setup.resume(event).1 is Finished && !(setup.phase is Ended) ==> setup.resume(
            event,
        ).0.owned.len() == 0 && setup.resume(event).0.phase is Ended,
{
}

/// The steps of giving back, from a construction that has just failed.
proof fn lemma_unwinding(failing: SetupView, events: Seq<EventView>)
    requires
        events.len() == failing.owned.len(),
    ensures
        seq![failing.unwind().1] + failing.unwind().0.trace(events) == failing.unwinding(),
        failing.unwind().0.after(events).phase is Ended,
        failing.unwind().0.after(events).owned.len() == 0,
    decreases events.len(),
{
    let next = failing.unwind().0;
    if events.len() == 0 {
        assert(seq![failing.unwind().1] + next.trace(events) =~= failing.unwinding());
    } else {
        assert(next.phase is Unwinding);
        assert(next.resume(events[0]) == next.unwind());
        lemma_unwinding(next, events.drop_first());
        let rest = next.unwinding();
        assert(seq![next.unwind().1] + next.unwind().0.trace(events.drop_first()) == rest);
        assert(next.trace(events) == rest);
        assert(seq![failing.unwind().1] + rest =~= failing.unwinding());
    }
}

/// Once a call of the system has failed, the construction gives back what it
/// holds, last first, and then reports the error of that call: these are its
/// next steps whatever the host answers, and after them it has ended and
/// holds nothing.
pub proof fn lemma_unwinds_after_failure(
    setup: SetupView,
    failure: EventView,
    events: Seq<EventView>,
)
    requires
        setup.fallible(),
        failure is Failed,
        events.len() == setup.owned.len(),
    ensures
        ({
            let failing = SetupView { failure: failure_text(failure), ..setup };
            &&& seq![setup.resume(failure).1] + setup.resume(failure).0.trace(events)
                == failing.unwinding()
            &&& setup.resume(failure).0.after(events).phase is Ended
            &&& setup.resume(failure).0.after(events).owned.len() == 0
        }),
{
    let failing = SetupView { failure: failure_text(failure), ..setup };
    assert(setup.resume(failure) == failing.unwind());
    lemma_unwinding(failing, events);
}

/// An error object of the agent library is read once and freed right after:
/// when a call leaves one, the next step asks for its text, and the step
/// after the text frees the object. Then the construction gives back what it
/// held before, last first, and reports the text as its error.
pub proof fn lemma_error_object_is_read_and_freed(
    setup: SetupView,
    error: winpty_error_s,
    message: Seq<char>,
    events: Seq<EventView>,
)
    requires
        setup.fallible(),
        events.len() == setup.owned.len() + 1,
    ensures
        ({
            let asked = setup.resume(EventView::AgentFailed(error));
            let told = asked.0.resume(EventView::Message(message));
            let failing = SetupView { failure: message, ..setup };
            &&& asked.1 == StepView::<WinPTYView>::Perform(ActionView::ErrorMessage { error })
            &&& told.1 == StepView::<WinPTYView>::Perform(ActionView::ErrorFree { error })
            &&& told.0.trace(events) == failing.unwinding()
            &&& told.0.after(events).phase is Ended
            &&& told.0.after(events).owned.len() == 0
        }),
{
    let asked = setup.resume(EventView::AgentFailed(error));
    let held = SetupView { failure: message, ..asked.0 };
    let told = asked.0.resume(EventView::Message(message));
    assert(told == held.unwind());
    assert(held.owned.drop_last() =~= setup.owned);
    let failing = SetupView { failure: message, ..setup };
    let next = told.0;
    assert(next.owned == setup.owned);
    assert(next.resume(events[0]) == next.unwind());
    let resumed = SetupView { phase: setup.phase, ..next };
    assert(resumed == failing);
    assert(next.unwind() == failing.unwind());
    lemma_unwinding(failing, events.drop_first());
    assert(next.trace(events) == seq![failing.unwind().1] + failing.unwind().0.trace(
        events.drop_first(),
    ));
}

/// The construction after one more event is the move on that event of the
/// construction as the events before have left it.
proof fn lemma_after_push(setup: SetupView, events: Seq<EventView>, event: EventView)
    ensures
        setup.after(events.push(event)) == setup.after(events).resume(event).0,
    decreases events.len(),
{
    let all = events.push(event);
    if events.len() == 0 {
        assert(all.drop_first() =~= Seq::<EventView>::empty());
        assert(all[0] == event);
        assert(setup.resume(event).0.after(Seq::<EventView>::empty()) == setup.resume(event).0);
    } else {
        assert(all[0] == events[0]);
        assert(all.drop_first() =~= events.drop_first().push(event));
        lemma_after_push(setup.resume(events[0]).0, events.drop_first(), event);
    }
}

/// The same, for the first events of a run.
proof fn lemma_after_take(setup: SetupView, events: Seq<EventView>, i: int)
    requires
        0 <= i < events.len(),
    ensures
        setup.after(events.take(i + 1)) == setup.after(events.take(i)).resume(events[i]).0,
{
    assert(events.take(i + 1) =~= events.take(i).push(events[i]));
    lemma_after_push(setup, events.take(i), events[i]);
}

/// Each step of a trace is the move on its event of the construction as the
/// events before have left it.
proof fn lemma_trace_indexed(setup: SetupView, events: Seq<EventView>)
    ensures
        setup.trace(events).len() == events.len(),
        forall|i: int|
            0 <= i < events.len() ==> #[trigger] setup.trace(events)[i] == setup.after(
                events.take(i),
            ).resume(events[i]).1,
    decreases events.len(),
{
    if events.len() > 0 {
        let next = setup.resume(events[0]).0;
        let rest = events.drop_first();
        lemma_trace_indexed(next, rest);
        assert forall|i: int| 0 <= i < events.len() implies #[trigger] setup.trace(events)[i]
            == setup.after(events.take(i)).resume(events[i]).1 by {
            if i == 0 {
                assert(events.take(0) =~= Seq::<EventView>::empty());
            } else {
                assert(events.take(i).drop_first() =~= rest.take(i - 1));
                assert(events.take(i)[0] == events[0]);
                assert(setup.after(events.take(i)) == next.after(rest.take(i - 1)));
                assert(setup.trace(events)[i] == next.trace(rest)[i - 1]);
            }
        }
    }
}

/// The construction in full, where every call succeeds: a configuration with
/// the flags asked for; the size, the mouse mode and the timeout in it; the
/// agent; the freeing of the configuration; the name of the input pipe and
/// that pipe, opened for writing; the name of the output pipe and that pipe,
/// opened for reading. The backend that comes out holds the agent and the two
/// pipes, and its core reads from a file and closes the process that it will
/// be given.
pub proof fn lemma_construction_sequence(
    args: PTYArgs,
    config: winpty_config_s,
    agent: winpty_s,
    conin_name: Seq<u16>,
    conin: isize,
    conout_name: Seq<u16>,
    conout: isize,
)
    requires
        args.cols > 0,
        args.rows > 0,
    ensures
        SetupView::begin(args, true).1 == StepView::<WinPTYView>::Perform(
            ActionView::ConfigNew { flags: args.agent_config.spec_bits() },
        ),
        SetupView::begin(args, true).0.trace(
            seq![
                EventView::Config(config),
                EventView::Done,
                EventView::Done,
                EventView::Done,
                EventView::Agent(agent),
                EventView::Done,
                EventView::Name(conin_name),
                EventView::Handle(conin),
                EventView::Name(conout_name),
                EventView::Handle(conout),
            ],
        ) == seq![
            StepView::<WinPTYView>::Perform(
                ActionView::ConfigSetInitialSize { config, cols: args.cols, rows: args.rows },
            ),
            StepView::Perform(
                ActionView::ConfigSetMouseMode {
                    config,
                    mouse_mode: args.mouse_mode.spec_to_i32(),
                },
            ),
            StepView::Perform(ActionView::ConfigSetAgentTimeout { config, timeout: args.timeout }),
            StepView::Perform(ActionView::Open { config }),
            StepView::Perform(ActionView::ConfigFree { config }),
            StepView::Perform(ActionView::ConinName { agent }),
            StepView::Perform(
                ActionView::OpenPipe { name: terminated(conin_name), access: Access::Write },
            ),
            StepView::Perform(ActionView::ConoutName { agent }),
            StepView::Perform(
                ActionView::OpenPipe { name: terminated(conout_name), access: Access::Read },
            ),
            StepView::Finished(Ok(WinPTYView::built(agent, conin, conout))),
        ],
        WinPTYView::built(agent, conin, conout).io.close_process,
        !WinPTYView::built(agent, conin, conout).io.using_pipes,
{
    let events = seq![
        EventView::Config(config),
        EventView::Done,
        EventView::Done,
        EventView::Done,
        EventView::Agent(agent),
        EventView::Done,
        EventView::Name(conin_name),
        EventView::Handle(conin),
        EventView::Name(conout_name),
        EventView::Handle(conout),
    ];
    let start = SetupView::begin(args, true).0;
    let trace = start.trace(events);
    lemma_trace_indexed(start, events);
    assert(events.take(0) =~= Seq::<EventView>::empty());
    let a0 = start.after(events.take(0));
    assert(a0 == start);
    lemma_after_take(start, events, 0);
    let a1 = start.after(events.take(1));
    lemma_after_take(start, events, 1);
    let a2 = start.after(events.take(2));
    lemma_after_take(start, events, 2);
    let a3 = start.after(events.take(3));
    lemma_after_take(start, events, 3);
    let a4 = start.after(events.take(4));
    lemma_after_take(start, events, 4);
    let a5 = start.after(events.take(5));
    lemma_after_take(start, events, 5);
    let a6 = start.after(events.take(6));
    lemma_after_take(start, events, 6);
    let a7 = start.after(events.take(7));
    lemma_after_take(start, events, 7);
    let a8 = start.after(events.take(8));
    lemma_after_take(start, events, 8);
    let a9 = start.after(events.take(9));
    assert(a1.phase is InitialSize && a1.config == config);
    assert(a2.phase is MouseMode && a2.config == config);
    assert(a3.phase is Timeout && a3.config == config);
    assert(a4.phase is Open && a4.config == config);
    assert(a5.phase is FreeConfig && a5.agent == agent);
    assert(a6.phase is ConinName && a6.agent == agent);
    assert(a7.phase is OpenConin && a7.agent == agent);
    assert(a8.phase is ConoutName && a8.agent == agent && a8.conin == conin);
    assert(a9.phase is OpenConout && a9.agent == agent && a9.conin == conin);
    assert(trace[0] == a0.resume(events[0]).1);
    assert(trace[1] == a1.resume(events[1]).1);
    assert(trace[2] == a2.resume(events[2]).1);
    assert(trace[3] == a3.resume(events[3]).1);
    assert(trace[4] == a4.resume(events[4]).1);
    assert(trace[5] == a5.resume(events[5]).1);
    assert(trace[6] == a6.resume(events[6]).1);
    assert(trace[7] == a7.resume(events[7]).1);
    assert(trace[8] == a8.resume(events[8]).1);
    assert(trace[9] == a9.resume(events[9]).1);
    assert(trace =~= seq![
        StepView::<WinPTYView>::Perform(
            ActionView::ConfigSetInitialSize { config, cols: args.cols, rows: args.rows },
        ),
        StepView::Perform(
            ActionView::ConfigSetMouseMode { config, mouse_mode: args.mouse_mode.spec_to_i32() },
        ),
        StepView::Perform(ActionView::ConfigSetAgentTimeout { config, timeout: args.timeout }),
        StepView::Perform(ActionView::Open { config }),
        StepView::Perform(ActionView::ConfigFree { config }),
        StepView::Perform(ActionView::ConinName { agent }),
        StepView::Perform(
            ActionView::OpenPipe { name: terminated(conin_name), access: Access::Write },
        ),
        StepView::Perform(ActionView::ConoutName { agent }),
        StepView::Perform(
            ActionView::OpenPipe { name: terminated(conout_name), access: Access::Read },
        ),
        StepView::Finished(Ok(WinPTYView::built(agent, conin, conout))),
    ]);
}

/// A spawn in full, where every call succeeds: a spawn configuration from
/// the path, the arguments, the working directory and the environment block;
/// the process; the freeing of the configuration; and the identifier of the
/// process. The spawn ends with `true`. The core of the backend then knows
/// the process as running, and the closing of its handle is the core's.
pub proof fn lemma_spawn_sequence(
    pty: WinPTYView,
    appname: Seq<u16>,
    cmdline: Option<Seq<u16>>,
    cwd: Option<Seq<u16>>,
    env: Option<Seq<u16>>,
    config: winpty_spawn_config_s,
    process: isize,
    pid: u32,
    ignored: EventView,
)
    requires
        pty.enabled,
        pty.pending is Idle,
        !pty.spawned(),
    ensures
        ({
            let asked = pty.spawn(appname, cmdline, cwd, env);
            let configured = asked.0.resume(EventView::SpawnConfig(config));
            let spawned = configured.0.resume(EventView::Handle(process));
            let freed = spawned.0.resume(ignored);
            let bound = freed.0.resume(EventView::ProcessId(pid));
            &&& asked.1 == StepView::<OutputView>::Perform(
                ActionView::SpawnConfigNew {
                    flags: WINPTY_SPAWN_FLAG_MASK,
                    appname: terminated(appname),
                    cmdline: match cmdline {
                        Some(arguments) => Some(terminated(arguments)),
                        None => None,
                    },
                    cwd: match cwd {
                        Some(dir) => Some(terminated(dir)),
                        None => None,
                    },
                    env: match env {
                        Some(entries) => Some(environment_block(entries)),
                        None => None,
                    },
                },
            )
            &&& configured.1 == StepView::<OutputView>::Perform(
                ActionView::Spawn { agent: pty.agent, spawn_config: config },
            )
            &&& spawned.1 == StepView::<OutputView>::Perform(
                ActionView::SpawnConfigFree { spawn_config: config },
            )
            &&& freed.1 == StepView::<OutputView>::Perform(ActionView::GetProcessId { process })
            &&& bound.1 == finished(OutputView::Flag(true))
            &&& bound.0.agent == pty.agent && bound.0.io.process == process && bound.0.io.pid
                == pid && bound.0.io.alive && bound.0.io.close_process
            &&& bound.0.pending is Idle && bound.0.owned.len() == 0
        }),
{
}

/// A spawn that the agent refuses frees its configuration all the same: the
/// text of the error object is read, the object is freed, the configuration
/// is freed, and only then the spawn ends, with that text as its error. The
/// backend is left without a process, ready for another spawn.
pub proof fn lemma_refused_spawn_gives_back(
    pty: WinPTYView,
    appname: Seq<u16>,
    cmdline: Option<Seq<u16>>,
    cwd: Option<Seq<u16>>,
    env: Option<Seq<u16>>,
    config: winpty_spawn_config_s,
    error: winpty_error_s,
    message: Seq<char>,
    first: EventView,
    second: EventView,
)
    requires
        pty.enabled,
        pty.pending is Idle,
        !pty.spawned(),
    ensures
        ({
            let configured = pty.spawn(appname, cmdline, cwd, env).0.resume(
                EventView::SpawnConfig(config),
            );
            let refused = configured.0.resume(EventView::AgentFailed(error));
            let told = refused.0.resume(EventView::Message(message));
            let freed = told.0.resume(first);
            let ended = freed.0.resume(second);
            &&& refused.1 == StepView::<OutputView>::Perform(ActionView::ErrorMessage { error })
            &&& told.1 == StepView::<OutputView>::Perform(ActionView::ErrorFree { error })
            &&& freed.1 == StepView::<OutputView>::Perform(
                ActionView::SpawnConfigFree { spawn_config: config },
            )
            &&& ended.1 == failed::<OutputView>(message)
            &&& ended.0.pending is Idle && ended.0.owned.len() == 0
            &&& ended.0.io == pty.io && ended.0.agent == pty.agent && !ended.0.spawned()
        }),
{
    let configured = pty.spawn(appname, cmdline, cwd, env).0.resume(
        EventView::SpawnConfig(config),
    );
    let refused = configured.0.resume(EventView::AgentFailed(error));
    let told = refused.0.resume(EventView::Message(message));
    assert(configured.0.owned =~= seq![Resource::SpawnConfig(config)]);
    assert(refused.0.owned =~= seq![Resource::SpawnConfig(config), Resource::Error(error)]);
    assert(told.0.owned =~= seq![Resource::SpawnConfig(config)]);
    assert(told.0.owned.drop_last() =~= Seq::<Resource>::empty());
}

impl WinPTYView {
    /// What the backend holds for the operation under way while it waits: the
    /// spawn configuration, from when it is there until the agent has
    /// answered the spawn.
    pub open spec fn holds(self) -> Seq<Resource> {
        match self.pending {
            WinPending::Spawn => seq![Resource::SpawnConfig(self.spawn_config)],
            WinPending::ErrorText | WinPending::Unwinding => self.owned,
            _ => Seq::empty(),
        }
    }

    /// The process that a spawn has brought and that is on its way to the
    /// core.
    pub open spec fn carried(self) -> Seq<Resource> {
        match self.pending {
            WinPending::FreeSpawnConfig { process } => seq![Resource::Handle(process)],
            _ => Seq::empty(),
        }
    }

    /// What every reachable backend satisfies: its core is well formed; it
    /// waits for the core only while the core waits for the host; and it
    /// holds for the operation under way what its state says.
    pub open spec fn wf(self) -> bool {
        &&& self.io.wf()
        &&& self.pending is Bind ==> self.io.pending is ProcessId
        &&& self.pending is Io ==> !(self.io.pending is Idle)
        &&& !(self.pending is Io || self.pending is Bind) ==> self.io.pending is Idle
        &&& self.owned == self.holds()
    }

    /// The number of events that the operation under way can still take.
    pub open spec fn steps_left(self) -> nat {
        match self.pending {
            WinPending::Idle => 0,
            WinPending::Io => self.io.steps_left(),
            WinPending::Bind => 1,
            WinPending::FreeSpawnConfig { .. } => 2,
            WinPending::Resize => 4,
            WinPending::Spawn => 5,
            WinPending::SpawnConfig => 6,
            WinPending::ErrorText => self.owned.len() + 2,
            WinPending::Unwinding => self.owned.len() + 1,
        }
    }

    /// Whether the backend looks at the answer of the call that it waits for
    /// and takes an error object from it.
    pub open spec fn fallible(self) -> bool {
        self.pending is Resize || self.pending is SpawnConfig || self.pending is Spawn
    }

    /// What an event hands to the backend: the spawn configuration, the
    /// process, or an error object.
    pub open spec fn gained(self, event: EventView) -> Seq<Resource> {
        match (self.pending, event) {
            (WinPending::SpawnConfig, EventView::SpawnConfig(config)) => seq![
                Resource::SpawnConfig(config),
            ],
            (WinPending::Spawn, EventView::Handle(process)) => seq![Resource::Handle(process)],
            (_, EventView::AgentFailed(error)) => if self.fallible() {
                seq![Resource::Error(error)]
            } else {
                Seq::empty()
            },
            _ => Seq::empty(),
        }
    }

    /// What the core of the backend keeps for its life when an event ends a
    /// spawn well: the process. It is given back when the backend goes.
    pub open spec fn kept(self, event: EventView) -> Seq<Resource> {
        match self.pending {
            WinPending::FreeSpawnConfig { process } => if self.spawned() {
                Seq::empty()
            } else {
                seq![Resource::Handle(process)]
            },
            _ => Seq::empty(),
        }
    }
}

/// Every move of the backend keeps it well formed.
pub proof fn lemma_stays_well_formed(
    pty: WinPTYView,
    event: EventView,
    appname: Seq<u16>,
    cmdline: Option<Seq<u16>>,
    cwd: Option<Seq<u16>>,
    env: Option<Seq<u16>>,
    cols: i32,
    rows: i32,
    length: u32,
    blocking: bool,
    text: Seq<u16>,
    agent: winpty_s,
    conin: isize,
    conout: isize,
)
    requires
        pty.wf(),
    ensures
        WinPTYView::built(agent, conin, conout).wf(),
        WinPTYView::disabled().wf(),
        pty.spawn(appname, cmdline, cwd, env).0.wf(),
        pty.set_size(cols, rows).0.wf(),
        pty.through_core(pty.io.read(length, blocking)).0.wf(),
        pty.through_core(pty.io.write(text)).0.wf(),
        pty.through_core(pty.io.is_eof()).0.wf(),
        pty.through_core(pty.io.is_alive()).0.wf(),
        pty.through_core(pty.io.get_exitstatus()).0.wf(),
{
    lemma_core_stays_well_formed(pty.io, event, length, blocking, text, 0, true);
    assert(WinPTYView::built(agent, conin, conout).owned =~= Seq::<Resource>::empty());
}

/// A backend is well formed as it comes out of its construction, and so is
/// one that is not available.
pub proof fn lemma_built_is_well_formed(agent: winpty_s, conin: isize)
    ensures
        forall|conout: isize| #[trigger] WinPTYView::built(agent, conin, conout).wf(),
        WinPTYView::disabled().wf(),
{
    assert forall|conout: isize| #[trigger] WinPTYView::built(agent, conin, conout).wf() by {
        assert(WinPTYView::built(agent, conin, conout).owned =~= Seq::<Resource>::empty());
    }
    assert(WinPTYView::disabled().owned =~= Seq::<Resource>::empty());
}

/// Every event keeps the backend well formed.
pub proof fn lemma_event_keeps_well_formed(pty: WinPTYView, event: EventView)
    requires
        pty.wf(),
    ensures
        pty.resume(event).0.wf(),
{
    lemma_core_stays_well_formed(pty.io, event, 0, false, Seq::empty(), 0, true);
    assert(pty.resume(event).0.owned =~= pty.resume(event).0.holds());
}

/// No operation of the backend goes on for ever: a spawn ends after six
/// events at most, a resize after four, and what goes through the core after
/// two. With every event the operation either ends, and the backend waits
/// for nothing, or has fewer events left.
pub proof fn lemma_operations_end(
    pty: WinPTYView,
    event: EventView,
    appname: Seq<u16>,
    cmdline: Option<Seq<u16>>,
    cwd: Option<Seq<u16>>,
    env: Option<Seq<u16>>,
    cols: i32,
    rows: i32,
)
    requires
        pty.wf(),
    ensures
        pty.spawn(appname, cmdline, cwd, env).1 is Perform ==> pty.spawn(
            appname,
            cmdline,
            cwd,
            env,
        ).0.steps_left() == 6,
        pty.set_size(cols, rows).1 is Perform ==> pty.set_size(cols, rows).0.steps_left() == 4,
        pty.resume(event).1 is Perform ==> pty.resume(event).0.steps_left() < pty.steps_left(),
        !(pty.pending is Idle) ==> (pty.resume(event).1 is Finished <==> pty.resume(
            event,
        ).0.pending is Idle),
{
    lemma_core_events_count_down(pty.io, event);
}

/// An operation loses nothing and gives nothing back twice. With every event,
/// what the backend held for the operation and what the event has handed to
/// it is what the backend holds afterwards, what the next action gives back,
/// and what the core keeps for its life: each resource occurs as often on one
/// side as on the other.
pub proof fn lemma_operation_loses_nothing(pty: WinPTYView, event: EventView, one: Resource)
    requires
        pty.wf(),
        !(pty.pending is Idle),
    ensures
        tally(pty.owned, one) + tally(pty.carried(), one) + tally(pty.gained(event), one) == tally(
            pty.resume(event).0.owned,
            one,
        ) + tally(pty.resume(event).0.carried(), one) + tally(released(pty.resume(event).1), one)
            + tally(pty.kept(event), one),
{
    let config = Resource::SpawnConfig(pty.spawn_config);
    lemma_tally_short(config, config, config, config, one);
    if pty.pending is Unwinding || pty.pending is ErrorText || (pty.fallible() && !(
    event is AgentFailed) && pty.resume(event) == pty.fail_on(event)) {
        if pty.owned.len() > 0 {
            lemma_tally_last(pty.owned, one);
            let last = pty.owned.last();
            lemma_tally_short(last, last, last, last, one);
        } else {
            assert(released(pty.resume(event).1) =~= Seq::<Resource>::empty());
        }
        assert(pty.gained(event) =~= Seq::<Resource>::empty());
    } else if pty.fallible() && event is AgentFailed {
        let error = Resource::Error(event->AgentFailed_0);
        lemma_tally_push(pty.owned, error, one);
        lemma_tally_short(error, error, error, error, one);
    } else {
        match pty.pending {
            WinPending::SpawnConfig => {
                let c = Resource::SpawnConfig(event->SpawnConfig_0);
                lemma_tally_short(c, c, c, c, one);
            },
            WinPending::Spawn => {
                let p = Resource::Handle(event->Handle_0);
                lemma_tally_short(p, p, p, p, one);
            },
            WinPending::FreeSpawnConfig { process } => {
                let p = Resource::Handle(process);
                lemma_tally_short(p, p, p, p, one);
                if pty.spawned() {
                    assert(seq![p].drop_last() =~= Seq::<Resource>::empty());
                }
            },
            _ => {},
        }
    }
}

/// The order in which a backend gives back what it holds: the handles of its
/// core first, and the agent last.
pub proof fn lemma_teardown_order(pty: WinPTYView)
    requires
        pty.enabled,
    ensures
        pty.teardown() == pty.io.teardown() + seq![ActionView::Free { agent: pty.agent }],
{
    assert(pty.teardown() =~= pty.io.teardown() + seq![ActionView::Free { agent: pty.agent }]);
}

/// From its construction to its end a backend gives back all that it got,
/// and each thing once. A backend that was built on an agent and its two
/// pipes, and in which a process was spawned, gives back at its end the two
/// pipes, the process, and then the agent: what its construction handed over
/// and what its spawn kept.
pub proof fn lemma_life_cycle(
    agent: winpty_s,
    conin: isize,
    conout: isize,
    appname: Seq<u16>,
    config: winpty_spawn_config_s,
    process: isize,
    pid: u32,
    ignored: EventView,
)
    requires
        !handle_is_invalid(conin),
        !handle_is_invalid(conout),
        !handle_is_invalid(process),
    ensures
        ({
            let built = WinPTYView::built(agent, conin, conout);
            let spawned = built.spawn(appname, None, None, None).0.resume(
                EventView::SpawnConfig(config),
            ).0.resume(EventView::Handle(process)).0.resume(ignored).0.resume(
                EventView::ProcessId(pid),
            ).0;
            &&& built.teardown() == seq![
                ActionView::CloseHandle { handle: conin },
                ActionView::CloseHandle { handle: conout },
                ActionView::Free { agent },
            ]
            &&& spawned.teardown() == seq![
                ActionView::CloseHandle { handle: conin },
                ActionView::CloseHandle { handle: conout },
                ActionView::CloseHandle { handle: process },
                ActionView::Free { agent },
            ]
        }),
{
    let built = WinPTYView::built(agent, conin, conout);
    lemma_spawn_sequence(built, appname, None, None, None, config, process, pid, ignored);
    let spawned = built.spawn(appname, None, None, None).0.resume(
        EventView::SpawnConfig(config),
    ).0.resume(EventView::Handle(process)).0.resume(ignored).0.resume(
        EventView::ProcessId(pid),
    ).0;
    assert(spawned.io.conin == conin && spawned.io.conout == conout);
    assert(built.teardown() =~= seq![
        ActionView::CloseHandle { handle: conin },
        ActionView::CloseHandle { handle: conout },
        ActionView::Free { agent },
    ]);
    assert(spawned.teardown() =~= seq![
        ActionView::CloseHandle { handle: conin },
        ActionView::CloseHandle { handle: conout },
        ActionView::CloseHandle { handle: process },
        ActionView::Free { agent },
    ]);
}

/// A backend that is not available fails every operation with the same error,
/// asks the host for nothing and stays as it is.
pub proof fn lemma_disabled_fails_everything(
    pty: WinPTYView,
    appname: Seq<u16>,
    cmdline: Option<Seq<u16>>,
    cwd: Option<Seq<u16>>,
    env: Option<Seq<u16>>,
    cols: i32,
    rows: i32,
    length: u32,
    blocking: bool,
    text: Seq<u16>,
)
    requires
        !pty.enabled,
    ensures
        pty.spawn(appname, cmdline, cwd, env) == (pty, failed::<OutputView>(not_enabled_text())),
        pty.set_size(cols, rows) == (pty, failed::<OutputView>(not_enabled_text())),
        pty.through_core(pty.io.read(length, blocking)) == (
            pty,
            failed::<OutputView>(not_enabled_text()),
        ),
        pty.through_core(pty.io.write(text)) == (pty, failed::<OutputView>(not_enabled_text())),
        pty.through_core(pty.io.is_eof()) == (pty, failed::<OutputView>(not_enabled_text())),
        pty.through_core(pty.io.is_alive()) == (pty, failed::<OutputView>(not_enabled_text())),
        pty.through_core(pty.io.get_exitstatus()) == (
            pty,
            failed::<OutputView>(not_enabled_text()),
        ),
        !WinPTYView::disabled().enabled,
{
}

/// A resize to a size that is not positive is refused before the host is
/// asked for anything, and the backend stays as it is; any other resize asks
/// the agent for exactly the size that was given.
pub proof fn lemma_resize(pty: WinPTYView, cols: i32, rows: i32)
    requires
        pty.enabled,
        pty.pending is Idle,
    ensures
        cols <= 0 || rows <= 0 ==> pty.set_size(cols, rows) == (
            pty,
            failed::<OutputView>(size_error_text(cols, rows)),
        ),
        cols > 0 && rows > 0 ==> pty.set_size(cols, rows).1 == StepView::<OutputView>::Perform(
            ActionView::SetSize { agent: pty.agent, cols, rows },
        ) && pty.set_size(cols, rows).0.resume(EventView::Done).1 == finished(OutputView::Unit),
{
}

} // verus!
