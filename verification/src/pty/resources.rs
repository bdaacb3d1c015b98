//! What a session holds and has to give back, and the count that shows that
//! nothing is lost on the way.

use vstd::prelude::*;

use super::protocol::{Action, ActionView, StepView};
use super::winpty::bindings::{winpty_config_s, winpty_error_s, winpty_s, winpty_spawn_config_s};

verus! {

/// Something that the session holds and has to give back to the system or to
/// the agent library.
#[derive(Copy, Clone, Debug, PartialEq, Eq, Structural)]
pub enum Resource {
    /// A handle of a stream, a pipe end or a process.
    Handle(isize),
    /// A pseudoconsole.
    PseudoConsole(isize),
    /// An attribute list.
    AttributeList(isize),
    /// An agent configuration.
    Config(winpty_config_s),
    /// A spawn configuration.
    SpawnConfig(winpty_spawn_config_s),
    /// A running agent.
    Agent(winpty_s),
    /// An error object.
    Error(winpty_error_s),
}

impl Resource {
    /// The action that gives the resource back.
    pub open spec fn release(self) -> ActionView {
        match self {
            Resource::Handle(handle) => ActionView::CloseHandle { handle },
            Resource::PseudoConsole(console) => ActionView::ClosePseudoConsole { console },
            Resource::AttributeList(list) => ActionView::DeleteAttributeList { list },
            Resource::Config(config) => ActionView::ConfigFree { config },
            Resource::SpawnConfig(config) => ActionView::SpawnConfigFree { spawn_config: config },
            Resource::Agent(agent) => ActionView::Free { agent },
            Resource::Error(error) => ActionView::ErrorFree { error },
        }
    }

    /// The action that gives the resource back.
    pub fn release_action(&self) -> (action: Action)
        ensures
            action@ == self.release(),
    {
        match *self {
            Resource::Handle(handle) => Action::CloseHandle { handle },
            Resource::PseudoConsole(console) => Action::ClosePseudoConsole { console },
            Resource::AttributeList(list) => Action::DeleteAttributeList { list },
            Resource::Config(config) => Action::ConfigFree { config },
            Resource::SpawnConfig(config) => Action::SpawnConfigFree { spawn_config: config },
            Resource::Agent(agent) => Action::Free { agent },
            Resource::Error(error) => Action::ErrorFree { error },
        }
    }
}

/// How often a resource occurs in a list.
pub open spec fn tally(resources: Seq<Resource>, one: Resource) -> nat
    decreases resources.len(),
{
    if resources.len() == 0 {
        0
    } else if resources.last() == one {
        tally(resources.drop_last(), one) + 1
    } else {
        tally(resources.drop_last(), one)
    }
}

/// What an action gives back: the resource that it releases, if it releases
/// one.
pub open spec fn released_by(action: ActionView) -> Seq<Resource> {
    match action {
        ActionView::CloseHandle { handle } => seq![Resource::Handle(handle)],
        ActionView::ClosePseudoConsole { console } => seq![Resource::PseudoConsole(console)],
        ActionView::DeleteAttributeList { list } => seq![Resource::AttributeList(list)],
        ActionView::ConfigFree { config } => seq![Resource::Config(config)],
        ActionView::SpawnConfigFree { spawn_config } => seq![Resource::SpawnConfig(spawn_config)],
        ActionView::Free { agent } => seq![Resource::Agent(agent)],
        ActionView::ErrorFree { error } => seq![Resource::Error(error)],
        _ => Seq::empty(),
    }
}

/// What a step gives back: what its action releases.
pub open spec fn released<V>(step: StepView<V>) -> Seq<Resource> {
    match step {
        StepView::Perform(action) => released_by(action),
        StepView::Finished(_) => Seq::empty(),
    }
}

/// One if the two resources are the same, zero if not.
pub open spec fn same(a: Resource, one: Resource) -> nat {
    if a == one {
        1
    } else {
        0
    }
}

/// The occurrences in a list with one more at its end.
pub proof fn lemma_tally_push(resources: Seq<Resource>, a: Resource, one: Resource)
    ensures
        tally(resources.push(a), one) == tally(resources, one) + same(a, one),
{
    assert(resources.push(a).drop_last() =~= resources);
}

/// The occurrences in short lists.
pub proof fn lemma_tally_short(a: Resource, b: Resource, c: Resource, d: Resource, one: Resource)
    ensures
        tally(Seq::empty(), one) == 0,
        tally(seq![a], one) == same(a, one),
        tally(seq![a, b], one) == same(a, one) + same(b, one),
        tally(seq![a, b, c], one) == same(a, one) + same(b, one) + same(c, one),
        tally(seq![a, b, c, d], one) == same(a, one) + same(b, one) + same(c, one) + same(d, one),
{
    let none = Seq::<Resource>::empty();
    assert(none.push(a) =~= seq![a]);
    assert(seq![a].push(b) =~= seq![a, b]);
    assert(seq![a, b].push(c) =~= seq![a, b, c]);
    assert(seq![a, b, c].push(d) =~= seq![a, b, c, d]);
    lemma_tally_push(none, a, one);
    lemma_tally_push(seq![a], b, one);
    lemma_tally_push(seq![a, b], c, one);
    lemma_tally_push(seq![a, b, c], d, one);
}

/// A list is what it is without its last resource, and that resource.
pub proof fn lemma_tally_last(resources: Seq<Resource>, one: Resource)
    requires
        resources.len() > 0,
    ensures
        tally(resources, one) == tally(resources.drop_last(), one) + same(resources.last(), one),
        released_by(resources.last().release()) == seq![resources.last()],
{
}

} // verus!
