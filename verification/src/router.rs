//! Routing of a command to the services of the network that a descriptor
//! belongs to.
//!
//! Building services, running a command and waiting for a shutdown signal are
//! the work of the host. The router decides: [`route`] selects the variant
//! and names the first action, the host performs each action and reports what
//! came of it, and [`Invocation::step`] answers every report with the next
//! action, until the action is to finish.

use crate::command::{Command, ExecutionMode, Resource, ServiceNeeds};
use crate::descriptor::NetworkDescriptor;
use crate::error::{Error, ExecutionOutcome};
use crate::identify::{classify, standard_prefixes};
use crate::variant::{ChainVariant, VariantModel};
use vstd::prelude::*;

verus! {

/// How far an invocation has come.
#[derive(Clone, Copy, Debug, PartialEq, Eq, Structural)]
pub enum Phase {
    /// The services are being built.
    Constructing,
    /// A blocking command is running.
    Executing,
    /// The node is serving.
    Serving,
    /// The tasks of the node were asked to stop.
    Draining,
    /// A part of the bundle is being released.
    Releasing,
    /// The invocation is over.
    Done,
}

/// What the host reports to the router.
#[derive(Clone, Copy, Debug, PartialEq, Eq, Structural)]
pub enum Event {
    /// The services that were asked for are built.
    Constructed,
    /// The services could not be built.
    ConstructionFailed,
    /// The command ran to its end.
    BodySucceeded,
    /// The command, or the serving node, reported a failure.
    BodyFailed,
    /// The process was told to stop.
    ShutdownSignal,
    /// The tasks of the node have stopped, or the time allowed for it is over.
    Drained,
    /// The part that was to be released is released.
    Released,
}

/// What the router asks of the host.
#[derive(Clone, Copy, Debug, PartialEq, Eq, Structural)]
pub enum Action {
    /// Build these parts of the bundle with the factory of the selected variant.
    Construct(ServiceNeeds),
    /// Run the command against the parts that were built.
    Execute,
    /// Start the surfaces of the node and wait for a shutdown signal.
    Serve,
    /// Ask the scheduler to stop all tasks and wait until they have.
    Drain,
    /// Release this part of the bundle.
    Release(Resource),
    /// End the invocation with this outcome.
    Finish(ExecutionOutcome),
}

impl Action {
    /// The part that the action releases, if it releases one.
    pub open spec fn released(self) -> Seq<Resource> {
        match self {
            Action::Release(resource) => seq![resource],
            _ => Seq::empty(),
        }
    }

    /// How many times the action has services built: once or not at all.
    pub open spec fn constructions(self) -> nat {
        if self is Construct {
            1
        } else {
            0
        }
    }
}

/// The mathematical value of an [`Invocation`].
pub struct InvocationModel {
    /// The command that was asked for.
    pub command: Command,
    /// The variant that was selected.
    pub variant: VariantModel,
    /// How far the invocation has come.
    pub phase: Phase,
    /// The parts of the bundle that are held, in the order of their acquisition.
    pub held: Seq<Resource>,
    /// The outcome that the invocation will end with, as far as it is known.
    pub outcome: ExecutionOutcome,
}

impl InvocationModel {
    /// The state in which the command starts to work, and the action that
    /// makes it: a blocking command is executed, the node is set to serve.
    pub open spec fn start_body(self) -> (InvocationModel, Action) {
        if self.command.declared_mode() is Blocking {
            (InvocationModel { phase: Phase::Executing, ..self }, Action::Execute)
        } else {
            (InvocationModel { phase: Phase::Serving, ..self }, Action::Serve)
        }
    }

    /// One step of giving back what is held: the part that was acquired last
    /// is released, and when nothing is held the invocation finishes.
    pub open spec fn teardown(self) -> (InvocationModel, Action) {
        if self.held.len() == 0 {
            (InvocationModel { phase: Phase::Done, ..self }, Action::Finish(self.outcome))
        } else {
            (
                InvocationModel { phase: Phase::Releasing, held: self.held.drop_last(), ..self },
                Action::Release(self.held.last()),
            )
        }
    }

    /// The state that routing a command to a variant leaves, and the first
    /// action. A command that needs no part of the bundle starts at once;
    /// for any other the needed parts are built first.
    pub open spec fn begin(command: Command, variant: VariantModel) -> (InvocationModel, Action) {
        let fresh = InvocationModel {
            command,
            variant,
            phase: Phase::Constructing,
            held: Seq::empty(),
            outcome: ExecutionOutcome::Success,
        };
        if command.declared_needs().nothing() {
            fresh.start_body()
        } else {
            (fresh, Action::Construct(command.declared_needs()))
        }
    }

    /// The answer to a report of the host: the next state and the next
    /// action, or nothing where the report does not fit the phase.
    pub open spec fn next(self, event: Event) -> Option<(InvocationModel, Action)> {
        match (self.phase, event) {
            (Phase::Constructing, Event::Constructed) => Some(
                (InvocationModel {
                    held: self.command.declared_needs().acquisition_order(),
                    ..self
                }).start_body(),
            ),
            (Phase::Constructing, Event::ConstructionFailed) => Some(
                (
                    InvocationModel {
                        phase: Phase::Done,
                        outcome: ExecutionOutcome::Aborted(Error::ServiceConstructionFailure),
                        ..self
                    },
                    Action::Finish(ExecutionOutcome::Aborted(Error::ServiceConstructionFailure)),
                ),
            ),
            (Phase::Executing, Event::BodySucceeded) => Some(self.teardown()),
            (Phase::Executing, Event::BodyFailed) => Some(
                (InvocationModel { outcome: ExecutionOutcome::CommandFailed, ..self }).teardown(),
            ),
            (Phase::Serving, Event::ShutdownSignal) => Some(
                (InvocationModel { phase: Phase::Draining, ..self }, Action::Drain),
            ),
            (Phase::Serving, Event::BodyFailed) => Some(
                (
                    InvocationModel {
                        phase: Phase::Draining,
                        outcome: ExecutionOutcome::CommandFailed,
                        ..self
                    },
                    Action::Drain,
                ),
            ),
            (Phase::Draining, Event::Drained) => Some(self.teardown()),
            (Phase::Releasing, Event::Released) => Some(self.teardown()),
            _ => None,
        }
    }

    /// The state after a sequence of reports. A report that does not fit
    /// the phase changes nothing.
    pub open spec fn after(self, events: Seq<Event>) -> InvocationModel
        decreases events.len(),
    {
        if events.len() == 0 {
            self
        } else {
            match self.next(events[0]) {
                Some((state, _)) => state.after(events.drop_first()),
                None => self.after(events.drop_first()),
            }
        }
    }

    /// The parts that the router asks the host to release, one after the
    /// other, while it answers a sequence of reports.
    pub open spec fn released_by(self, events: Seq<Event>) -> Seq<Resource>
        decreases events.len(),
    {
        if events.len() == 0 {
            Seq::empty()
        } else {
            match self.next(events[0]) {
                Some((state, action)) => action.released() + state.released_by(
                    events.drop_first(),
                ),
                None => self.released_by(events.drop_first()),
            }
        }
    }

    /// How often the router asks the host to build services while it
    /// answers a sequence of reports.
    pub open spec fn constructions_by(self, events: Seq<Event>) -> nat
        decreases events.len(),
    {
        if events.len() == 0 {
            0
        } else {
            match self.next(events[0]) {
                Some((state, action)) => action.constructions() + state.constructions_by(
                    events.drop_first(),
                ),
                None => self.constructions_by(events.drop_first()),
            }
        }
    }

    /// What holds of every state that routing and reports lead to.
    pub open spec fn consistent(self) -> bool {
        let order = self.command.declared_needs().acquisition_order();
        &&& self.outcome is Aborted ==> self.phase is Done
        &&& match self.phase {
            Phase::Constructing => self.held.len() == 0 && self.outcome is Success && order.len()
                > 0,
            Phase::Executing => self.held == order && self.outcome is Success
                && self.command.declared_mode() is Blocking,
            Phase::Serving => self.held == order && self.outcome is Success
                && self.command.declared_mode() is LongRunning,
            Phase::Draining => self.held == order && self.command.declared_mode() is LongRunning,
            Phase::Releasing => self.held.is_prefix_of(order),
            Phase::Done => self.held.len() == 0,
        }
    }

    /// The parts that are still to be released before the invocation can
    /// finish, in the order of their release: the reverse of what is held,
    /// or of what is about to be built.
    pub open spec fn owed(self) -> Seq<Resource> {
        match self.phase {
            Phase::Constructing => self.command.declared_needs().acquisition_order().reverse(),
            Phase::Done => Seq::empty(),
            _ => self.held.reverse(),
        }
    }
}

/// An invocation of the node: the command, the variant that was selected for
/// it, and how far its execution has come.
#[derive(Debug)]
pub struct Invocation {
    command: Command,
    variant: ChainVariant,
    phase: Phase,
    held: Vec<Resource>,
    outcome: ExecutionOutcome,
}

impl View for Invocation {
    type V = InvocationModel;

    closed spec fn view(&self) -> InvocationModel {
        InvocationModel {
            command: self.command,
            variant: self.variant@,
            phase: self.phase,
            held: self.held@,
            outcome: self.outcome,
        }
    }
}

impl Invocation {
    /// Routes a command to a variant that was selected already.
    pub fn begin(command: Command, variant: ChainVariant) -> (start: (Invocation, Action))
        ensures
            (start.0@, start.1) == InvocationModel::begin(command, variant@),
            start.0@.consistent(),
    {
        let needs = command.needs();
        let mut invocation = Invocation {
            command,
            variant,
            phase: Phase::Constructing,
            held: Vec::new(),
            outcome: ExecutionOutcome::Success,
        };
        if needs.is_empty() {
            let action = invocation.start_body();
            (invocation, action)
        } else {
            (invocation, Action::Construct(needs))
        }
    }

    fn start_body(&mut self) -> (action: Action)
        ensures
            (final(self)@, action) == old(self)@.start_body(),
    {
        match self.command.mode() {
            ExecutionMode::Blocking => {
                self.phase = Phase::Executing;
                Action::Execute
            },
            ExecutionMode::LongRunning => {
                self.phase = Phase::Serving;
                Action::Serve
            },
        }
    }

    fn teardown(&mut self) -> (action: Action)
        ensures
            (final(self)@, action) == old(self)@.teardown(),
    {
        match self.held.pop() {
            Some(resource) => {
                self.phase = Phase::Releasing;
                Action::Release(resource)
            },
            None => {
                self.phase = Phase::Done;
                Action::Finish(self.outcome)
            },
        }
    }

    /// The command that was asked for.
    pub fn command(&self) -> (command: Command)
        ensures
            command == self@.command,
    {
        self.command
    }

    /// The variant that was selected when the command was routed.
    pub fn variant(&self) -> (variant: &ChainVariant)
        ensures
            variant@ == self@.variant,
    {
        &self.variant
    }

    /// How far the invocation has come.
    pub fn phase(&self) -> (phase: Phase)
        ensures
            phase == self@.phase,
    {
        self.phase
    }

    /// The parts of the bundle that are held, in the order of their acquisition.
    pub fn held(&self) -> (held: &Vec<Resource>)
        ensures
            held@ == self@.held,
    {
        &self.held
    }

    /// The outcome that the invocation ends with, as far as it is known.
    pub fn outcome(&self) -> (outcome: ExecutionOutcome)
        ensures
            outcome == self@.outcome,
    {
        self.outcome
    }

    /// Whether the invocation is over.
    pub fn is_done(&self) -> (done: bool)
        ensures
            done == (self@.phase is Done),
    {
        match self.phase {
            Phase::Done => true,
            _ => false,
        }
    }

    /// Answers a report of the host with the next action. A report that
    /// does not fit the phase is answered with nothing and changes nothing.
    /// The command and the variant stay what routing made them.
    pub fn step(&mut self, event: Event) -> (action: Option<Action>)
        ensures
            match old(self)@.next(event) {
                Some((state, act)) => final(self)@ == state && action == Some(act),
                None => final(self)@ == old(self)@ && action is None,
            },
            final(self)@.command == old(self)@.command,
            final(self)@.variant == old(self)@.variant,
            old(self)@.consistent() ==> final(self)@.consistent(),
    {
        proof {
            step_keeps_consistency(self@, event);
        }
        match self.phase {
            Phase::Constructing => match event {
                Event::Constructed => {
                    self.held = self.command.needs().in_acquisition_order();
                    Some(self.start_body())
                },
                Event::ConstructionFailed => {
                    let outcome = ExecutionOutcome::Aborted(Error::ServiceConstructionFailure);
                    self.phase = Phase::Done;
                    self.outcome = outcome;
                    Some(Action::Finish(outcome))
                },
                _ => None,
            },
            Phase::Executing => match event {
                Event::BodySucceeded => Some(self.teardown()),
                Event::BodyFailed => {
                    self.outcome = ExecutionOutcome::CommandFailed;
                    Some(self.teardown())
                },
                _ => None,
            },
            Phase::Serving => match event {
                Event::ShutdownSignal => {
                    self.phase = Phase::Draining;
                    Some(Action::Drain)
                },
                Event::BodyFailed => {
                    self.phase = Phase::Draining;
                    self.outcome = ExecutionOutcome::CommandFailed;
                    Some(Action::Drain)
                },
                _ => None,
            },
            Phase::Draining => match event {
                Event::Drained => Some(self.teardown()),
                _ => None,
            },
            Phase::Releasing => match event {
                Event::Released => Some(self.teardown()),
                _ => None,
            },
            Phase::Done => None,
        }
    }
}

/// Routes a command: classifies the descriptor by the standard prefixes,
/// selects the variant for the whole invocation and names the first action.
pub fn route(command: Command, descriptor: &NetworkDescriptor) -> (start: (Invocation, Action))
    ensures
        (start.0@, start.1) == InvocationModel::begin(
            command,
            standard_prefixes().classify(descriptor@),
        ),
        start.0@.consistent(),
{
    Invocation::begin(command, classify(descriptor))
}

/// Routing leaves a consistent state.
pub proof fn routing_is_consistent(command: Command, variant: VariantModel)
    ensures
        InvocationModel::begin(command, variant).0.consistent(),
        InvocationModel::begin(command, variant).0.command == command,
        InvocationModel::begin(command, variant).0.variant == variant,
        InvocationModel::begin(command, variant).0.owed()
            == command.declared_needs().acquisition_order().reverse(),
{
}

/// A step keeps the state consistent, keeps the command and the variant,
/// never asks for services to be built, and releases only the part that was
/// acquired last.
pub proof fn step_keeps_consistency(state: InvocationModel, event: Event)
    ensures
        match state.next(event) {
            Some((after, action)) => {
                &&& after.command == state.command
                &&& after.variant == state.variant
                &&& state.consistent() ==> after.consistent()
                &&& !(action is Construct)
                &&& !(state.phase is Done)
                &&& action is Finish <==> after.phase is Done
                &&& action is Finish ==> action == Action::Finish(after.outcome)
                &&& action is Release ==> state.held.len() > 0 && action == Action::Release(
                    state.held.last(),
                ) && after.held == state.held.drop_last()
            },
            None => true,
        },
{
}

/// What a step asks to release, followed by what is owed after it, is what
/// was owed before it. The one exception is a failed construction, after
/// which nothing is held and nothing is released.
pub proof fn step_accounts_for_releases(state: InvocationModel, event: Event)
    requires
        state.consistent(),
    ensures
        match state.next(event) {
            Some((after, action)) => {
                &&& !(after.phase is Constructing)
                &&& after.outcome is Aborted ==> state.phase is Constructing
                    && action.released().len() == 0
                &&& !(after.outcome is Aborted) ==> action.released() + after.owed()
                    == state.owed()
            },
            None => true,
        },
{
}

/// While the router answers reports, it asks for no services to be built,
/// and what it asks to release, followed by what is still owed at the end, is
/// what was owed at the start. Only a failed construction ends an invocation
/// without a release.
pub proof fn releases_follow_what_is_owed(state: InvocationModel, events: Seq<Event>)
    requires
        state.consistent(),
    ensures
        state.after(events).consistent(),
        state.after(events).command == state.command,
        state.after(events).variant == state.variant,
        state.constructions_by(events) == 0,
        state.phase is Done ==> state.after(events) == state,
        state.after(events).outcome is Aborted ==> state.phase is Constructing
            || state.outcome is Aborted,
        if state.after(events).outcome is Aborted {
            state.released_by(events).len() == 0
        } else {
            state.released_by(events) + state.after(events).owed() == state.owed()
        },
    decreases events.len(),
{
    if events.len() > 0 {
        step_keeps_consistency(state, events[0]);
        step_accounts_for_releases(state, events[0]);
        match state.next(events[0]) {
            Some((then, _)) => releases_follow_what_is_owed(then, events.drop_first()),
            None => releases_follow_what_is_owed(state, events.drop_first()),
        }
    }
}

/// From routing to the end, whatever the host reports and in whatever order:
/// the services are built at most once, by the first action; the parts are
/// released in the reverse of the order of their acquisition and none twice;
/// an invocation that is over has released every part that was built, also
/// when the command failed; and where the services could not be built,
/// nothing is released. The command and the variant stay as they were routed.
pub proof fn every_held_part_is_released_once(
    command: Command,
    variant: VariantModel,
    events: Seq<Event>,
)
    ensures
        ({
            let start = InvocationModel::begin(command, variant);
            let end = start.0.after(events);
            let released = start.0.released_by(events);
            let order = command.declared_needs().acquisition_order();
            &&& start.1 is Construct <==> !command.declared_needs().nothing()
            &&& start.0.constructions_by(events) == 0
            &&& released.is_prefix_of(order.reverse())
            &&& released.no_duplicates()
            &&& end.phase is Done && !(end.outcome is Aborted) ==> released == order.reverse()
            &&& end.outcome is Aborted ==> released.len() == 0
            &&& end.command == command
            &&& end.variant == variant
        }),
{
    let start = InvocationModel::begin(command, variant);
    let end = start.0.after(events);
    let released = start.0.released_by(events);
    let order = command.declared_needs().acquisition_order();
    routing_is_consistent(command, variant);
    releases_follow_what_is_owed(start.0, events);
    crate::command::acquisition_order_lists_each_need_once(command.declared_needs());
    if end.outcome is Aborted {
        assert(released =~= order.reverse().subrange(0, 0));
    } else {
        assert(released + end.owed() == order.reverse());
        assert(released =~= order.reverse().subrange(0, released.len() as int));
        if end.phase is Done {
            assert(released + Seq::<Resource>::empty() =~= released);
        }
    }
    assert forall|i: int, j: int|
        0 <= i < released.len() && 0 <= j < released.len() && i != j implies released[i]
        != released[j] by {
        assert(released[i] == order[order.len() - 1 - i]);
        assert(released[j] == order[order.len() - 1 - j]);
    }
}

/// Reverting on any variant builds the client, the backend and the
/// scheduler, and an invocation that is over has released the scheduler, the
/// backend and the client, each once, whether reverting succeeded or failed.
pub proof fn revert_gives_back_what_it_acquired(variant: VariantModel, events: Seq<Event>)
    ensures
        ({
            let start = InvocationModel::begin(Command::Revert, variant);
            let end = start.0.after(events);
            &&& start.1 == Action::Construct(
                ServiceNeeds {
                    client: true,
                    backend: true,
                    import_pipeline: false,
                    scheduler: true,
                    database: false,
                },
            )
            &&& end.phase is Done && !(end.outcome is Aborted) ==> start.0.released_by(events)
                == seq![Resource::Scheduler, Resource::Backend, Resource::Client]
        }),
{
    every_held_part_is_released_once(Command::Revert, variant, events);
}

} // verus!
