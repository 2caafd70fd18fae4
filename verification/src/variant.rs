//! The catalog of network profiles that one binary can serve.

use crate::text::same_text;
use vstd::prelude::*;
use vstd::std_specs::cmp::PartialEqSpecImpl;

verus! {

/// A network profile: one of the three known networks, or a custom network
/// that was loaded from a descriptor file.
#[derive(Debug)]
pub enum ChainVariant {
    Development,
    TestNetwork,
    MainNetwork,
    /// A custom network, with the path of its descriptor file.
    Custom(String),
}

/// The mathematical value of a [`ChainVariant`].
pub enum VariantModel {
    Development,
    TestNetwork,
    MainNetwork,
    Custom(Seq<char>),
}

impl View for ChainVariant {
    type V = VariantModel;

    open spec fn view(&self) -> VariantModel {
        match self {
            ChainVariant::Development => VariantModel::Development,
            ChainVariant::TestNetwork => VariantModel::TestNetwork,
            ChainVariant::MainNetwork => VariantModel::MainNetwork,
            ChainVariant::Custom(path) => VariantModel::Custom(path@),
        }
    }
}

impl VariantModel {
    /// Whether the variant is one of the three known networks.
    pub open spec fn known(self) -> bool {
        !(self is Custom)
    }

    /// The reserved keyword that names a known network.
    pub open spec fn keyword(self) -> Option<Seq<char>> {
        match self {
            VariantModel::Development => Some("dev"@),
            VariantModel::TestNetwork => Some("finney"@),
            VariantModel::MainNetwork => Some("uomi"@),
            VariantModel::Custom(_) => None,
        }
    }

    /// The variant that a name or path asks for: the known network whose
    /// keyword it is, letter for letter, and otherwise the custom network
    /// with that path.
    pub open spec fn named(name: Seq<char>) -> VariantModel {
        if name == "dev"@ {
            VariantModel::Development
        } else if name == "finney"@ {
            VariantModel::TestNetwork
        } else if name == "uomi"@ {
            VariantModel::MainNetwork
        } else {
            VariantModel::Custom(name)
        }
    }
}

impl ChainVariant {
    /// Whether the variant is one of the three known networks.
    pub fn is_known(&self) -> (known: bool)
        ensures
            known == self@.known(),
    {
        match self {
            ChainVariant::Custom(_) => false,
            _ => true,
        }
    }

    /// The reserved keyword of a known network; a custom network has none.
    pub fn keyword(&self) -> (word: Option<&'static str>)
        ensures
            match word {
                Some(w) => self@.keyword() == Some(w@),
                None => self@.keyword() is None,
            },
    {
        match self {
            ChainVariant::Development => Some("dev"),
            ChainVariant::TestNetwork => Some("finney"),
            ChainVariant::MainNetwork => Some("uomi"),
            ChainVariant::Custom(_) => None,
        }
    }

    /// The variant that a name or path asks for.
    pub fn from_name(name_or_path: &str) -> (variant: ChainVariant)
        ensures
            variant@ == VariantModel::named(name_or_path@),
    {
        if same_text(name_or_path, "dev") {
            ChainVariant::Development
        } else if same_text(name_or_path, "finney") {
            ChainVariant::TestNetwork
        } else if same_text(name_or_path, "uomi") {
            ChainVariant::MainNetwork
        } else {
            ChainVariant::Custom(name_or_path.to_owned())
        }
    }

    /// The known networks, in the order in which a descriptor is held against them.
    pub fn known_variants() -> (all: Vec<ChainVariant>)
        ensures
            all@.len() == 3,
            all@[0]@ == VariantModel::Development,
            all@[1]@ == VariantModel::TestNetwork,
            all@[2]@ == VariantModel::MainNetwork,
    {
        let mut all: Vec<ChainVariant> = Vec::new();
        all.push(ChainVariant::Development);
        all.push(ChainVariant::TestNetwork);
        all.push(ChainVariant::MainNetwork);
        all
    }
}

impl Clone for ChainVariant {
    fn clone(&self) -> (copy: Self)
        ensures
            copy@ == self@,
    {
        match self {
            ChainVariant::Development => ChainVariant::Development,
            ChainVariant::TestNetwork => ChainVariant::TestNetwork,
            ChainVariant::MainNetwork => ChainVariant::MainNetwork,
            ChainVariant::Custom(path) => ChainVariant::Custom(path.clone()),
        }
    }
}

impl PartialEq for ChainVariant {
    fn eq(&self, other: &Self) -> (same: bool) {
        match (self, other) {
            (ChainVariant::Development, ChainVariant::Development) => true,
            (ChainVariant::TestNetwork, ChainVariant::TestNetwork) => true,
            (ChainVariant::MainNetwork, ChainVariant::MainNetwork) => true,
            (ChainVariant::Custom(mine), ChainVariant::Custom(theirs)) => same_text(
                mine.as_str(),
                theirs.as_str(),
            ),
            _ => false,
        }
    }
}

impl PartialEqSpecImpl for ChainVariant {
    open spec fn obeys_eq_spec() -> bool {
        true
    }

    open spec fn eq_spec(&self, other: &Self) -> bool {
        self@ == other@
    }
}

impl Eq for ChainVariant {

}

/// The keywords of the known networks are three different words, so a name
/// asks for at most one of them, and the keyword of a known network asks for
/// that network.
pub proof fn keyword_names_its_variant(variant: VariantModel)
    requires
        variant.known(),
    ensures
        variant.keyword() is Some,
        VariantModel::named(variant.keyword()->0) == variant,
{
    reveal_strlit("dev");
    reveal_strlit("finney");
    reveal_strlit("uomi");
    assert("dev"@.len() == 3 && "finney"@.len() == 6 && "uomi"@.len() == 4);
}

} // verus!
