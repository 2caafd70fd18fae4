//! The operations that an operator can ask for, and what each of them needs
//! of the services of a network.

use vstd::prelude::*;

verus! {

/// What a benchmark measures.
#[derive(Clone, Copy, Debug, PartialEq, Eq, Structural)]
pub enum BenchmarkKind {
    Pallet,
    Block,
    Storage,
    Overhead,
    Extrinsic,
    Machine,
}

/// An operation that an operator can ask for.
#[derive(Clone, Copy, Debug, PartialEq, Eq, Structural)]
pub enum Command {
    BuildSpec,
    CheckBlock,
    ExportBlocks,
    ExportState,
    ImportBlocks,
    PurgeChain,
    Revert,
    Key,
    Sign,
    Verify,
    Vanity,
    Benchmark(BenchmarkKind),
    /// Start the node and serve until the process is told to stop.
    Run,
}

/// The shape in which a command executes.
#[derive(Clone, Copy, Debug, PartialEq, Eq, Structural)]
pub enum ExecutionMode {
    /// The command runs to its end and hands its result to the caller.
    Blocking,
    /// The command serves and gives control back only on a shutdown signal.
    LongRunning,
}

/// One part of the bundle of services of a network. The parts are listed in
/// the order in which they are acquired.
#[derive(Clone, Copy, Debug, PartialEq, Eq, Structural)]
pub enum Resource {
    Client,
    Backend,
    ImportPipeline,
    Scheduler,
    Database,
}

/// The parts of the bundle of services that a command declares it needs.
#[derive(Clone, Copy, Debug, PartialEq, Eq, Structural)]
pub struct ServiceNeeds {
    pub client: bool,
    pub backend: bool,
    pub import_pipeline: bool,
    pub scheduler: bool,
    pub database: bool,
}

/// The sequence that holds `resource` if `wanted`, and nothing else.
pub open spec fn one_if(wanted: bool, resource: Resource) -> Seq<Resource> {
    if wanted {
        seq![resource]
    } else {
        Seq::empty()
    }
}

impl ServiceNeeds {
    /// Whether the part is among the needs.
    pub open spec fn contains(self, resource: Resource) -> bool {
        match resource {
            Resource::Client => self.client,
            Resource::Backend => self.backend,
            Resource::ImportPipeline => self.import_pipeline,
            Resource::Scheduler => self.scheduler,
            Resource::Database => self.database,
        }
    }

    /// Whether no part is needed.
    pub open spec fn nothing(self) -> bool {
        !self.client && !self.backend && !self.import_pipeline && !self.scheduler && !self.database
    }

    /// The needed parts in the order in which they are acquired: client,
    /// backend, import pipeline, scheduler, database.
    pub open spec fn acquisition_order(self) -> Seq<Resource> {
        one_if(self.client, Resource::Client) + one_if(self.backend, Resource::Backend) + one_if(
            self.import_pipeline,
            Resource::ImportPipeline,
        ) + one_if(self.scheduler, Resource::Scheduler) + one_if(self.database, Resource::Database)
    }

    /// Whether the part is among the needs.
    pub fn has(&self, resource: Resource) -> (needed: bool)
        ensures
            needed == self.contains(resource),
    {
        match resource {
            Resource::Client => self.client,
            Resource::Backend => self.backend,
            Resource::ImportPipeline => self.import_pipeline,
            Resource::Scheduler => self.scheduler,
            Resource::Database => self.database,
        }
    }

    /// Whether no part is needed.
    pub fn is_empty(&self) -> (empty: bool)
        ensures
            empty == self.nothing(),
            empty == (self.acquisition_order().len() == 0),
    {
        !(self.client || self.backend || self.import_pipeline || self.scheduler || self.database)
    }

    /// The needed parts in the order in which they are acquired.
    pub fn in_acquisition_order(&self) -> (order: Vec<Resource>)
        ensures
            order@ == self.acquisition_order(),
    {
        let mut order: Vec<Resource> = Vec::new();
        if self.client {
            order.push(Resource::Client);
        }
        if self.backend {
            order.push(Resource::Backend);
        }
        if self.import_pipeline {
            order.push(Resource::ImportPipeline);
        }
        if self.scheduler {
            order.push(Resource::Scheduler);
        }
        if self.database {
            order.push(Resource::Database);
        }
        order
    }
}

/// The acquisition order lists each needed part once, lists no other part,
/// and has at most five entries.
pub proof fn acquisition_order_lists_each_need_once(needs: ServiceNeeds)
    ensures
        needs.acquisition_order().no_duplicates(),
        forall|resource: Resource|
            needs.acquisition_order().contains(resource) <==> needs.contains(resource),
        needs.acquisition_order().len() <= 5,
{
    let order = needs.acquisition_order();
    assert forall|resource: Resource| needs.contains(resource) implies order.contains(
        resource,
    ) by {
        let before: int = match resource {
            Resource::Client => 0,
            Resource::Backend => one_if(needs.client, Resource::Client).len() as int,
            Resource::ImportPipeline => (one_if(needs.client, Resource::Client) + one_if(
                needs.backend,
                Resource::Backend,
            )).len() as int,
            Resource::Scheduler => (one_if(needs.client, Resource::Client) + one_if(
                needs.backend,
                Resource::Backend,
            ) + one_if(needs.import_pipeline, Resource::ImportPipeline)).len() as int,
            Resource::Database => order.len() - 1,
        };
        assert(order[before] == resource);
    }
}

impl Command {
    /// Whether the command needs the given part of the bundle of services.
    pub open spec fn uses(self, resource: Resource) -> bool {
        match resource {
            Resource::Client => {
                ||| self is CheckBlock
                ||| self is ExportBlocks
                ||| self is ExportState
                ||| self is ImportBlocks
                ||| self is Revert
                ||| self is Run
                ||| self == Command::Benchmark(BenchmarkKind::Block)
                ||| self == Command::Benchmark(BenchmarkKind::Storage)
                ||| self == Command::Benchmark(BenchmarkKind::Overhead)
                ||| self == Command::Benchmark(BenchmarkKind::Extrinsic)
            },
            Resource::Backend => {
                ||| self is Revert
                ||| self is Run
                ||| self == Command::Benchmark(BenchmarkKind::Storage)
            },
            Resource::ImportPipeline => {
                ||| self is CheckBlock
                ||| self is ImportBlocks
                ||| self is Run
            },
            Resource::Scheduler => {
                ||| self is CheckBlock
                ||| self is ExportBlocks
                ||| self is ExportState
                ||| self is ImportBlocks
                ||| self is Revert
                ||| self is Run
            },
            Resource::Database => {
                ||| self is ExportBlocks
                ||| self is PurgeChain
                ||| self is Run
            },
        }
    }

    /// The parts of the bundle of services that the command needs.
    pub open spec fn declared_needs(self) -> ServiceNeeds {
        ServiceNeeds {
            client: self.uses(Resource::Client),
            backend: self.uses(Resource::Backend),
            import_pipeline: self.uses(Resource::ImportPipeline),
            scheduler: self.uses(Resource::Scheduler),
            database: self.uses(Resource::Database),
        }
    }

    /// The shape in which the command executes: the node serves for as long
    /// as it is left to, every other command runs to its end.
    pub open spec fn declared_mode(self) -> ExecutionMode {
        if self is Run {
            ExecutionMode::LongRunning
        } else {
            ExecutionMode::Blocking
        }
    }

    /// The parts of the bundle of services that the command needs.
    pub fn needs(&self) -> (needs: ServiceNeeds)
        ensures
            needs == self.declared_needs(),
            forall|resource: Resource| needs.contains(resource) == self.uses(resource),
    {
        let nothing = ServiceNeeds {
            client: false,
            backend: false,
            import_pipeline: false,
            scheduler: false,
            database: false,
        };
        match self {
            Command::BuildSpec | Command::Key | Command::Sign | Command::Verify | Command::Vanity => nothing,
            Command::CheckBlock | Command::ImportBlocks => ServiceNeeds {
                client: true,
                import_pipeline: true,
                scheduler: true,
                ..nothing
            },
            Command::ExportBlocks => ServiceNeeds {
                client: true,
                scheduler: true,
                database: true,
                ..nothing
            },
            Command::ExportState => ServiceNeeds { client: true, scheduler: true, ..nothing },
            Command::PurgeChain => ServiceNeeds { database: true, ..nothing },
            Command::Revert => ServiceNeeds {
                client: true,
                backend: true,
                scheduler: true,
                ..nothing
            },
            Command::Benchmark(kind) => match kind {
                BenchmarkKind::Pallet | BenchmarkKind::Machine => nothing,
                BenchmarkKind::Storage => ServiceNeeds { client: true, backend: true, ..nothing },
                BenchmarkKind::Block | BenchmarkKind::Overhead | BenchmarkKind::Extrinsic => ServiceNeeds {
                    client: true,
                    ..nothing
                },
            },
            Command::Run => ServiceNeeds {
                client: true,
                backend: true,
                import_pipeline: true,
                scheduler: true,
                database: true,
            },
        }
    }

    /// The shape in which the command executes.
    pub fn mode(&self) -> (mode: ExecutionMode)
        ensures
            mode == self.declared_mode(),
    {
        match self {
            Command::Run => ExecutionMode::LongRunning,
            _ => ExecutionMode::Blocking,
        }
    }
}

/// Only the long-running command needs the whole bundle, and it needs all of it.
pub proof fn long_running_needs_everything(command: Command)
    ensures
        command.declared_mode() is LongRunning <==> command is Run,
        command is Run ==> forall|resource: Resource| command.uses(resource),
{
}

} // verus!
