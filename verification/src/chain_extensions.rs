//! The chain extensions of the local runtime and their identifiers.

use crate::registry::{ExtensionRegistry, RegistryBuilder};
use vstd::prelude::*;

verus! {

/// A chain extension that contracts of the local runtime can call.
#[derive(Clone, Copy, Debug, PartialEq, Eq, Structural)]
pub enum ChainExtension {
    /// Operations on assets.
    Assets,
    /// Unified accounts.
    UnifiedAccounts,
}

/// The identifier of the assets extension.
pub const ASSETS_EXTENSION_ID: u16 = 2;

/// The identifier of the unified accounts extension.
pub const UNIFIED_ACCOUNTS_EXTENSION_ID: u16 = 3;

impl ChainExtension {
    /// The identifier that contracts call the extension by.
    pub open spec fn identifier(self) -> u16 {
        match self {
            ChainExtension::Assets => ASSETS_EXTENSION_ID,
            ChainExtension::UnifiedAccounts => UNIFIED_ACCOUNTS_EXTENSION_ID,
        }
    }

    /// The identifier that contracts call the extension by.
    pub fn id(&self) -> (id: u16)
        ensures
            id == self.identifier(),
    {
        match self {
            ChainExtension::Assets => ASSETS_EXTENSION_ID,
            ChainExtension::UnifiedAccounts => UNIFIED_ACCOUNTS_EXTENSION_ID,
        }
    }
}

/// The table of the local runtime: every extension under its identifier, and
/// nothing else.
pub open spec fn local_table() -> Map<u16, ChainExtension> {
    Map::empty().insert(ASSETS_EXTENSION_ID, ChainExtension::Assets).insert(
        UNIFIED_ACCOUNTS_EXTENSION_ID,
        ChainExtension::UnifiedAccounts,
    )
}

/// Registers the extensions of the local runtime and seals the table.
pub fn local_chain_extensions() -> (registry: ExtensionRegistry<ChainExtension>)
    ensures
        registry@ == local_table(),
        forall|extension: ChainExtension|
            registry@.contains_key(extension.identifier()) && registry@[extension.identifier()]
                == extension,
{
    let mut builder: RegistryBuilder<ChainExtension> = RegistryBuilder::new();
    let assets = builder.register(ChainExtension::Assets, ChainExtension::Assets.id());
    let accounts = builder.register(
        ChainExtension::UnifiedAccounts,
        ChainExtension::UnifiedAccounts.id(),
    );
    assert(assets is Ok && accounts is Ok);
    builder.seal()
}

} // verus!
