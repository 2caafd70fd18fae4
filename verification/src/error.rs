//! The ways in which the control layer fails.

use vstd::prelude::*;

verus! {

/// Why a descriptor could not be produced from a name or a path.
#[derive(Clone, Copy, Debug, PartialEq, Eq, Structural)]
pub enum DescriptorFault {
    /// The path does not lead to a file.
    NotFound,
    /// The file is there and is no descriptor.
    MalformedDescriptor,
}

/// A failure of the control layer.
#[derive(Clone, Copy, Debug, PartialEq, Eq, Structural)]
pub enum Error {
    /// The requested network could not be found or parsed.
    UnresolvableDescriptor(DescriptorFault),
    /// Two known networks have prefixes that one identity string can both begin with.
    AmbiguousClassification,
    /// The services of the selected network could not be built.
    ServiceConstructionFailure,
    /// A second extension was registered under an identifier that is taken.
    DuplicateExtensionId(u16),
    /// A contract called an identifier under which nothing is registered.
    ExtensionNotFound(u16),
}

impl Error {
    /// Whether the failure is the node's own and ends the invocation. An
    /// unknown extension identifier is not: it fails the call of the contract
    /// that presented it.
    pub open spec fn node_fault(self) -> bool {
        !(self is ExtensionNotFound)
    }

    /// Whether the failure ends the invocation.
    pub fn is_node_fault(&self) -> (fatal: bool)
        ensures
            fatal == self.node_fault(),
    {
        match self {
            Error::ExtensionNotFound(_) => false,
            _ => true,
        }
    }
}

/// How an invocation ended.
#[derive(Clone, Copy, Debug, PartialEq, Eq, Structural)]
pub enum ExecutionOutcome {
    /// The command ran to its end, or the node served until it was told to stop.
    Success,
    /// The command itself reported a failure.
    CommandFailed,
    /// The invocation was given up before the command could run.
    Aborted(Error),
}

impl ExecutionOutcome {
    /// The exit code of the process: zero for success and for nothing else.
    pub open spec fn exit_code_of(self) -> int {
        if self is Success {
            0
        } else {
            1
        }
    }

    /// The exit code of the process.
    pub fn exit_code(&self) -> (code: i32)
        ensures
            code == self.exit_code_of(),
    {
        match self {
            ExecutionOutcome::Success => 0,
            _ => 1,
        }
    }
}

} // verus!
