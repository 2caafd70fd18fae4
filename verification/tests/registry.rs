use uomi_node::chain_extensions::{
    local_chain_extensions, ChainExtension, ASSETS_EXTENSION_ID, UNIFIED_ACCOUNTS_EXTENSION_ID,
};
use uomi_node::error::Error;
use uomi_node::registry::{
    ExtensionRegistration, ExtensionRegistry, RegistryBuilder, FIRST_EXTENSION_ID,
};

fn registration(extension: &'static str, id: u16) -> ExtensionRegistration<&'static str> {
    ExtensionRegistration { extension, id }
}

fn outcome(
    registrations: Vec<ExtensionRegistration<&'static str>>,
) -> Result<Vec<(u16, &'static str)>, Error> {
    let ids: Vec<u16> = registrations.iter().map(|r| r.id).collect();
    let registry = ExtensionRegistry::from_registrations(registrations)?;
    let mut entries = Vec::new();
    for id in ids {
        entries.push((id, *registry.lookup(id).unwrap()));
    }
    assert_eq!(registry.len(), entries.len());
    Ok(entries)
}

#[test]
fn assets_is_found_under_two_and_nothing_under_one() {
    let mut builder = RegistryBuilder::new();
    assert_eq!(builder.register(ChainExtension::Assets, 2), Ok(()));
    assert_eq!(builder.register(ChainExtension::UnifiedAccounts, 3), Ok(()));
    let registry = builder.seal();
    assert_eq!(registry.lookup(2), Ok(&ChainExtension::Assets));
    assert_eq!(registry.lookup(1), Err(Error::ExtensionNotFound(1)));
}

#[test]
fn local_table_holds_assets_and_unified_accounts() {
    assert_eq!(ASSETS_EXTENSION_ID, 2);
    assert_eq!(UNIFIED_ACCOUNTS_EXTENSION_ID, 3);
    assert_eq!(ChainExtension::Assets.id(), 2);
    assert_eq!(ChainExtension::UnifiedAccounts.id(), 3);
    let registry = local_chain_extensions();
    assert_eq!(registry.len(), 2);
    assert_eq!(registry.lookup(2), Ok(&ChainExtension::Assets));
    assert_eq!(registry.lookup(3), Ok(&ChainExtension::UnifiedAccounts));
}

#[test]
fn lookup_answers_for_every_identifier_in_range() {
    let registry = local_chain_extensions();
    for id in 0..=u16::MAX {
        let expected = match id {
            2 => Ok(&ChainExtension::Assets),
            3 => Ok(&ChainExtension::UnifiedAccounts),
            other => Err(Error::ExtensionNotFound(other)),
        };
        assert_eq!(registry.lookup(id), expected);
        assert_eq!(registry.contains(id), id == 2 || id == 3);
    }
}

#[test]
fn lookup_after_full_registration_finds_each_extension() {
    let entries = vec![
        registration("last", u16::MAX),
        registration("assets", 2),
        registration("accounts", 3),
        registration("far", 40_000),
        registration("near", 4),
    ];
    let registry = ExtensionRegistry::from_registrations(entries).unwrap();
    assert_eq!(registry.len(), 5);
    for id in 0..=u16::MAX {
        let expected = match id {
            2 => Ok(&"assets"),
            3 => Ok(&"accounts"),
            4 => Ok(&"near"),
            40_000 => Ok(&"far"),
            u16::MAX => Ok(&"last"),
            other => Err(Error::ExtensionNotFound(other)),
        };
        assert_eq!(registry.lookup(id), expected);
    }
}

#[test]
fn same_identifier_twice_fails_in_either_order() {
    let forward = vec![registration("assets", 2), registration("accounts", 2)];
    let backward = vec![registration("accounts", 2), registration("assets", 2)];
    assert_eq!(outcome(forward), Err(Error::DuplicateExtensionId(2)));
    assert_eq!(outcome(backward), Err(Error::DuplicateExtensionId(2)));
}

#[test]
fn same_identifier_twice_fails_in_every_order_of_four() {
    let entries = [("a", 2u16), ("b", 7), ("c", 2), ("d", 9)];
    let orders: [[usize; 4]; 24] = [
        [0, 1, 2, 3], [0, 1, 3, 2], [0, 2, 1, 3], [0, 2, 3, 1], [0, 3, 1, 2], [0, 3, 2, 1],
        [1, 0, 2, 3], [1, 0, 3, 2], [1, 2, 0, 3], [1, 2, 3, 0], [1, 3, 0, 2], [1, 3, 2, 0],
        [2, 0, 1, 3], [2, 0, 3, 1], [2, 1, 0, 3], [2, 1, 3, 0], [2, 3, 0, 1], [2, 3, 1, 0],
        [3, 0, 1, 2], [3, 0, 2, 1], [3, 1, 0, 2], [3, 1, 2, 0], [3, 2, 0, 1], [3, 2, 1, 0],
    ];
    for order in orders {
        let registrations: Vec<_> =
            order.iter().map(|at| registration(entries[*at].0, entries[*at].1)).collect();
        assert_eq!(outcome(registrations), Err(Error::DuplicateExtensionId(2)));
    }
}

#[test]
fn distinct_identifiers_register_in_every_order() {
    let entries = [("a", 2u16), ("b", 7), ("c", 3)];
    let orders: [[usize; 3]; 6] =
        [[0, 1, 2], [0, 2, 1], [1, 0, 2], [1, 2, 0], [2, 0, 1], [2, 1, 0]];
    for order in orders {
        let registrations: Vec<_> =
            order.iter().map(|at| registration(entries[*at].0, entries[*at].1)).collect();
        let mut made = outcome(registrations).unwrap();
        made.sort();
        assert_eq!(made, vec![(2, "a"), (3, "c"), (7, "b")]);
    }
}

#[test]
fn the_first_clash_in_order_is_reported() {
    let registrations = vec![
        registration("a", 5),
        registration("b", 6),
        registration("c", 6),
        registration("d", 5),
    ];
    assert_eq!(outcome(registrations), Err(Error::DuplicateExtensionId(6)));
    let registrations = vec![
        registration("a", 5),
        registration("b", 1),
        registration("c", 5),
    ];
    assert_eq!(outcome(registrations), Err(Error::DuplicateExtensionId(1)));
}

#[test]
fn framework_identifiers_are_taken_from_the_start() {
    assert_eq!(FIRST_EXTENSION_ID, 2);
    for id in [0u16, 1] {
        let mut builder = RegistryBuilder::new();
        assert_eq!(builder.register("mine", id), Err(Error::DuplicateExtensionId(id)));
        let registry = builder.seal();
        assert_eq!(registry.len(), 0);
        assert_eq!(registry.lookup(id), Err(Error::ExtensionNotFound(id)));
        assert_eq!(outcome(vec![registration("mine", id)]), Err(Error::DuplicateExtensionId(id)));
    }
    let mut builder = RegistryBuilder::new();
    assert_eq!(builder.register("mine", 2), Ok(()));
}

#[test]
fn refused_registration_leaves_the_table_as_it_was() {
    let mut builder = RegistryBuilder::new();
    assert_eq!(builder.register("first", 8), Ok(()));
    assert_eq!(builder.register("second", 8), Err(Error::DuplicateExtensionId(8)));
    assert_eq!(builder.register("third", 9), Ok(()));
    let registry = builder.seal();
    assert_eq!(registry.len(), 2);
    assert_eq!(registry.lookup(8), Ok(&"first"));
    assert_eq!(registry.lookup(9), Ok(&"third"));
}

#[test]
fn empty_registry_finds_nothing() {
    let registry: ExtensionRegistry<&'static str> =
        ExtensionRegistry::from_registrations(Vec::new()).unwrap();
    assert_eq!(registry.len(), 0);
    for id in [0u16, 1, 2, 3, u16::MAX] {
        assert_eq!(registry.lookup(id), Err(Error::ExtensionNotFound(id)));
        assert!(!registry.contains(id));
    }
}
