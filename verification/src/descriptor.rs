//! The loaded configuration of a network, as far as the control layer reads it.

use crate::text::{same_text, starts_with};
use crate::variant::{ChainVariant, VariantModel};
use vstd::prelude::*;
use vstd::std_specs::cmp::PartialEqSpecImpl;

verus! {

/// A loaded network descriptor. Of the configuration that it stands for the
/// control layer reads two things: the identity string, by which the network
/// is classified, and the name or path that the descriptor was loaded from.
#[derive(Debug)]
pub struct NetworkDescriptor {
    id: String,
    origin: String,
}

/// The mathematical value of a [`NetworkDescriptor`].
pub struct DescriptorModel {
    /// The identity string.
    pub id: Seq<char>,
    /// The name or path that the descriptor was loaded from.
    pub origin: Seq<char>,
}

impl View for NetworkDescriptor {
    type V = DescriptorModel;

    closed spec fn view(&self) -> DescriptorModel {
        DescriptorModel { id: self.id@, origin: self.origin@ }
    }
}

impl DescriptorModel {
    /// The descriptor that the built-in constructor of a known network makes:
    /// its identity string and its origin are the keyword of the network.
    pub open spec fn built_in(variant: VariantModel) -> DescriptorModel
        recommends
            variant.known(),
    {
        DescriptorModel { id: variant.keyword()->0, origin: variant.keyword()->0 }
    }
}

impl NetworkDescriptor {
    /// A descriptor with the given identity string, loaded from `origin`.
    pub fn new(id: &str, origin: &str) -> (descriptor: NetworkDescriptor)
        ensures
            descriptor@ == (DescriptorModel { id: id@, origin: origin@ }),
    {
        NetworkDescriptor { id: id.to_owned(), origin: origin.to_owned() }
    }

    /// The descriptor of a known network, made without reading anything.
    /// A custom network has no built-in descriptor.
    pub fn built_in(variant: &ChainVariant) -> (descriptor: Option<NetworkDescriptor>)
        ensures
            match descriptor {
                Some(d) => variant@.known() && d@ == DescriptorModel::built_in(variant@),
                None => !variant@.known(),
            },
    {
        match variant.keyword() {
            Some(word) => Some(NetworkDescriptor::new(word, word)),
            None => None,
        }
    }

    /// The identity string.
    pub fn id(&self) -> (id: &str)
        ensures
            id@ == self@.id,
    {
        self.id.as_str()
    }

    /// The name or path that the descriptor was loaded from.
    pub fn origin(&self) -> (origin: &str)
        ensures
            origin@ == self@.origin,
    {
        self.origin.as_str()
    }

    /// Whether the identity string begins with the prefix of the development network.
    pub fn is_dev(&self) -> (matched: bool)
        ensures
            matched == "dev"@.is_prefix_of(self@.id),
    {
        starts_with(self.id.as_str(), "dev")
    }

    /// Whether the identity string begins with the prefix of the test network.
    pub fn is_finney(&self) -> (matched: bool)
        ensures
            matched == "finney"@.is_prefix_of(self@.id),
    {
        starts_with(self.id.as_str(), "finney")
    }

    /// Whether the identity string begins with the prefix of the main network.
    pub fn is_uomi(&self) -> (matched: bool)
        ensures
            matched == "uomi"@.is_prefix_of(self@.id),
    {
        starts_with(self.id.as_str(), "uomi")
    }
}

impl Clone for NetworkDescriptor {
    fn clone(&self) -> (copy: Self)
        ensures
            copy@ == self@,
    {
        NetworkDescriptor { id: self.id.clone(), origin: self.origin.clone() }
    }
}

impl PartialEq for NetworkDescriptor {
    fn eq(&self, other: &Self) -> (same: bool) {
        same_text(self.id.as_str(), other.id.as_str()) && same_text(
            self.origin.as_str(),
            other.origin.as_str(),
        )
    }
}

impl PartialEqSpecImpl for NetworkDescriptor {
    open spec fn obeys_eq_spec() -> bool {
        true
    }

    open spec fn eq_spec(&self, other: &Self) -> bool {
        self@ == other@
    }
}

impl Eq for NetworkDescriptor {

}

} // verus!
