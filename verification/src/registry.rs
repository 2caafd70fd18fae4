//! The table that gives every chain extension its numeric identifier.
//!
//! Contracts call an extension by number. The table is filled at startup,
//! one registration after the other, and is then sealed: what is sealed can
//! only be looked up in.

use crate::error::Error;
use std::collections::HashMap;
use vstd::prelude::*;

verus! {

broadcast use vstd::std_specs::hash::group_hash_axioms;

/// The first identifier that the table gives out. The two below it belong to
/// the extensions of the framework.
pub const FIRST_EXTENSION_ID: u16 = 2;

/// Whether an identifier belongs to the extensions of the framework.
pub open spec fn reserved(id: u16) -> bool {
    id < FIRST_EXTENSION_ID
}

/// An extension together with the identifier that it is to be called by.
#[derive(Debug)]
pub struct ExtensionRegistration<E> {
    pub extension: E,
    pub id: u16,
}

/// Whether an identifier can no longer be given out: the framework has it, or
/// an extension is registered under it.
pub open spec fn taken<E>(table: Map<u16, E>, id: u16) -> bool {
    reserved(id) || table.contains_key(id)
}

/// Whether the registration at index `at` asks for an identifier that the
/// framework has or that an earlier registration asked for.
pub open spec fn clashes_at<E>(registrations: Seq<ExtensionRegistration<E>>, at: int) -> bool {
    ||| reserved(registrations[at].id)
    ||| exists|before: int|
        0 <= before < at && #[trigger] registrations[before].id == registrations[at].id
}

/// Whether the registrations can all be made: none asks for an identifier of
/// the framework and no two ask for the same.
pub open spec fn registrable<E>(registrations: Seq<ExtensionRegistration<E>>) -> bool {
    forall|at: int| 0 <= at < registrations.len() ==> !clashes_at(registrations, at)
}

/// The table under construction, during startup.
pub struct RegistryBuilder<E> {
    table: HashMap<u16, E>,
}

/// The sealed table.
pub struct ExtensionRegistry<E> {
    table: HashMap<u16, E>,
}

impl<E> View for RegistryBuilder<E> {
    type V = Map<u16, E>;

    closed spec fn view(&self) -> Map<u16, E> {
        self.table@
    }
}

impl<E> View for ExtensionRegistry<E> {
    type V = Map<u16, E>;

    closed spec fn view(&self) -> Map<u16, E> {
        self.table@
    }
}

impl<E> RegistryBuilder<E> {
    #[verifier::type_invariant]
    spec fn gives_out_no_reserved_identifier(self) -> bool {
        forall|id: u16| self.table@.contains_key(id) ==> !reserved(id)
    }

    /// The empty table.
    pub fn new() -> (builder: RegistryBuilder<E>)
        ensures
            builder@ == Map::<u16, E>::empty(),
    {
        RegistryBuilder { table: HashMap::new() }
    }

    /// Registers an extension under an identifier. An identifier that is
    /// taken is refused, and the table stays as it was.
    pub fn register(&mut self, extension: E, id: u16) -> (done: Result<(), Error>)
        ensures
            match done {
                Ok(_) => {
                    &&& !taken(old(self)@, id)
                    &&& final(self)@ == old(self)@.insert(id, extension)
                },
                Err(error) => {
                    &&& taken(old(self)@, id)
                    &&& error == Error::DuplicateExtensionId(id)
                    &&& final(self)@ == old(self)@
                },
            },
    {
        proof {
            use_type_invariant(&*self);
        }
        if id < FIRST_EXTENSION_ID || self.table.contains_key(&id) {
            Err(Error::DuplicateExtensionId(id))
        } else {
            let mut table: HashMap<u16, E> = HashMap::new();
            std::mem::swap(&mut self.table, &mut table);
            table.insert(id, extension);
            std::mem::swap(&mut self.table, &mut table);
            Ok(())
        }
    }

    /// Ends the startup: seals the table.
    pub fn seal(self) -> (registry: ExtensionRegistry<E>)
        ensures
            registry@ == self@,
            forall|id: u16| reserved(id) ==> !registry@.contains_key(id),
    {
        proof {
            use_type_invariant(&self);
        }
        ExtensionRegistry { table: self.table }
    }
}

impl<E> ExtensionRegistry<E> {
    #[verifier::type_invariant]
    spec fn holds_no_reserved_identifier(self) -> bool {
        forall|id: u16| self.table@.contains_key(id) ==> !reserved(id)
    }

    /// Makes the registrations in their order and seals the table. The first
    /// registration that asks for a taken identifier fails the whole startup.
    pub fn from_registrations(registrations: Vec<ExtensionRegistration<E>>) -> (made: Result<
        ExtensionRegistry<E>,
        Error,
    >)
        ensures
            made is Ok <==> registrable(registrations@),
            match made {
                Ok(registry) => {
                    &&& forall|at: int|
                        0 <= at < registrations@.len() ==> registry@.contains_key(
                            #[trigger] registrations@[at].id,
                        ) && registry@[registrations@[at].id] == registrations@[at].extension
                    &&& forall|id: u16|
                        registry@.contains_key(id) ==> exists|at: int|
                            0 <= at < registrations@.len() && #[trigger] registrations@[at].id
                                == id
                },
                Err(error) => exists|at: int|
                    {
                        &&& 0 <= at < registrations@.len()
                        &&& #[trigger] clashes_at(registrations@, at)
                        &&& forall|earlier: int|
                            0 <= earlier < at ==> !clashes_at(registrations@, earlier)
                        &&& error == Error::DuplicateExtensionId(registrations@[at].id)
                    },
            },
    {
        let ghost all = registrations@;
        let mut builder: RegistryBuilder<E> = RegistryBuilder::new();
        for registration in pending: registrations.into_iter()
            invariant
                pending.seq() == all,
                forall|at: int| 0 <= at < pending.index() ==> !clashes_at(all, at),
                forall|at: int|
                    0 <= at < pending.index() ==> builder@.contains_key(#[trigger] all[at].id)
                        && builder@[all[at].id] == all[at].extension,
                forall|id: u16|
                    builder@.contains_key(id) ==> exists|at: int|
                        0 <= at < pending.index() && #[trigger] all[at].id == id,
        {
            let ghost here = pending.index() as int;
            let ghost before = builder@;
            match builder.register(registration.extension, registration.id) {
                Ok(_) => {
                    proof {
                        assert(!clashes_at(all, here)) by {
                            if exists|earlier: int|
                                0 <= earlier < here && #[trigger] all[earlier].id == all[here].id {
                                let earlier = choose|earlier: int|
                                    0 <= earlier < here && #[trigger] all[earlier].id
                                        == all[here].id;
                                assert(before.contains_key(all[earlier].id));
                            }
                        }
                        assert forall|id: u16| builder@.contains_key(id) implies exists|at: int|
                            0 <= at < here + 1 && #[trigger] all[at].id == id by {
                            if id == all[here].id {
                                assert(all[here].id == id);
                            } else {
                                assert(before.contains_key(id));
                                let at = choose|at: int|
                                    0 <= at < here && #[trigger] all[at].id == id;
                                assert(0 <= at < here + 1 && all[at].id == id);
                            }
                        }
                    }
                },
                Err(error) => {
                    proof {
                        assert(clashes_at(all, here)) by {
                            if !reserved(all[here].id) {
                                let at = choose|at: int|
                                    0 <= at < here && #[trigger] all[at].id == all[here].id;
                                assert(0 <= at < here && all[at].id == all[here].id);
                            }
                        }
                    }
                    return Err(error);
                },
            }
        }
        Ok(builder.seal())
    }

    /// Looks an identifier up: the extension that is registered under it, or
    /// the report that there is none.
    pub fn lookup(&self, id: u16) -> (found: Result<&E, Error>)
        ensures
            match found {
                Ok(extension) => self@.contains_key(id) && *extension == self@[id],
                Err(error) => !self@.contains_key(id) && error == Error::ExtensionNotFound(id),
            },
            reserved(id) ==> found is Err,
    {
        proof {
            use_type_invariant(self);
        }
        match self.table.get(&id) {
            Some(extension) => Ok(extension),
            None => Err(Error::ExtensionNotFound(id)),
        }
    }

    /// Whether an extension is registered under the identifier.
    pub fn contains(&self, id: u16) -> (registered: bool)
        ensures
            registered == self@.contains_key(id),
    {
        self.table.contains_key(&id)
    }

    /// The number of registered extensions.
    pub fn len(&self) -> (count: usize)
        ensures
            count == self@.len(),
    {
        self.table.len()
    }
}

/// Two registrations under one identifier cannot both be made, wherever in
/// the order of registration they stand.
pub proof fn same_identifier_twice_is_not_registrable<E>(
    registrations: Seq<ExtensionRegistration<E>>,
    first: int,
    second: int,
)
    requires
        0 <= first < registrations.len(),
        0 <= second < registrations.len(),
        first != second,
        registrations[first].id == registrations[second].id,
    ensures
        !registrable(registrations),
{
    if first < second {
        assert(clashes_at(registrations, second));
    } else {
        assert(clashes_at(registrations, first));
    }
}

/// Registrations that cannot all be made in one order cannot all be made in
/// any other: `places` says where each of them stands in the other order.
pub proof fn rearranging_does_not_make_registrable<E>(
    registrations: Seq<ExtensionRegistration<E>>,
    rearranged: Seq<ExtensionRegistration<E>>,
    places: Seq<int>,
)
    requires
        places.len() == registrations.len(),
        places.no_duplicates(),
        forall|at: int|
            0 <= at < registrations.len() ==> 0 <= #[trigger] places[at] < rearranged.len()
                && rearranged[places[at]] == registrations[at],
        !registrable(registrations),
    ensures
        !registrable(rearranged),
{
    let at = choose|at: int| 0 <= at < registrations.len() && clashes_at(registrations, at);
    if reserved(registrations[at].id) {
        assert(clashes_at(rearranged, places[at]));
    } else {
        let before = choose|before: int|
            0 <= before < at && #[trigger] registrations[before].id == registrations[at].id;
        assert(places[before] != places[at]);
        same_identifier_twice_is_not_registrable(rearranged, places[before], places[at]);
    }
}

} // verus!
