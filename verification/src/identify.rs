//! Classification of a loaded descriptor by the prefix of its identity string.

use crate::descriptor::{DescriptorModel, NetworkDescriptor};
use crate::error::Error;
use crate::text::starts_with;
use crate::variant::{ChainVariant, VariantModel};
use vstd::prelude::*;

verus! {

/// Whether some identity string begins with both `first` and `second`.
pub open spec fn overlap(first: Seq<char>, second: Seq<char>) -> bool {
    exists|id: Seq<char>| #[trigger] first.is_prefix_of(id) && second.is_prefix_of(id)
}

/// Two prefixes overlap exactly when one of them begins with the other.
pub proof fn overlap_means_nested(first: Seq<char>, second: Seq<char>)
    ensures
        overlap(first, second) <==> first.is_prefix_of(second) || second.is_prefix_of(first),
{
    if first.is_prefix_of(second) {
        assert(first.is_prefix_of(second) && second.is_prefix_of(second));
    }
    if second.is_prefix_of(first) {
        assert(first.is_prefix_of(first) && second.is_prefix_of(first));
    }
}

/// The designated prefix of each known network.
pub struct PrefixTable {
    pub development: Seq<char>,
    pub test_network: Seq<char>,
    pub main_network: Seq<char>,
}

impl PrefixTable {
    /// No identity string begins with the prefixes of two known networks.
    pub open spec fn unambiguous(self) -> bool {
        &&& !overlap(self.development, self.test_network)
        &&& !overlap(self.development, self.main_network)
        &&& !overlap(self.test_network, self.main_network)
    }

    /// Whether an identity string begins with the prefix of some known network.
    pub open spec fn recognises(self, id: Seq<char>) -> bool {
        ||| self.development.is_prefix_of(id)
        ||| self.test_network.is_prefix_of(id)
        ||| self.main_network.is_prefix_of(id)
    }

    /// The variant of a descriptor: the first known network, in the order
    /// development, test network, main network, whose prefix the identity
    /// string begins with, and the custom network of the descriptor's origin
    /// when it begins with none.
    pub open spec fn classify(self, descriptor: DescriptorModel) -> VariantModel {
        if self.development.is_prefix_of(descriptor.id) {
            VariantModel::Development
        } else if self.test_network.is_prefix_of(descriptor.id) {
            VariantModel::TestNetwork
        } else if self.main_network.is_prefix_of(descriptor.id) {
            VariantModel::MainNetwork
        } else {
            VariantModel::Custom(descriptor.origin)
        }
    }

    /// Whether the rule of `variant`, taken by itself, accepts the
    /// descriptor: a known network accepts an identity string that begins
    /// with its prefix, and the custom network of the descriptor's origin
    /// accepts one that no known network accepts.
    pub open spec fn admits(self, variant: VariantModel, descriptor: DescriptorModel) -> bool {
        match variant {
            VariantModel::Development => self.development.is_prefix_of(descriptor.id),
            VariantModel::TestNetwork => self.test_network.is_prefix_of(descriptor.id),
            VariantModel::MainNetwork => self.main_network.is_prefix_of(descriptor.id),
            VariantModel::Custom(path) => !self.recognises(descriptor.id) && path
                == descriptor.origin,
        }
    }
}

/// The prefixes of the three known networks.
pub open spec fn standard_prefixes() -> PrefixTable {
    PrefixTable { development: "dev"@, test_network: "finney"@, main_network: "uomi"@ }
}

/// The standard prefixes begin with three different letters, so no identity
/// string begins with two of them.
pub proof fn standard_prefixes_are_unambiguous()
    ensures
        standard_prefixes().unambiguous(),
{
    reveal_strlit("dev");
    reveal_strlit("finney");
    reveal_strlit("uomi");
    let table = standard_prefixes();
    overlap_means_nested(table.development, table.test_network);
    overlap_means_nested(table.development, table.main_network);
    overlap_means_nested(table.test_network, table.main_network);
    assert(table.development[0] == 'd' && table.test_network[0] == 'f' && table.main_network[0]
        == 'u');
}

/// Under an unambiguous table every descriptor is accepted by the rule of
/// exactly one variant, and that variant is its classification: the order in
/// which the known networks are tried decides nothing.
pub proof fn exactly_one_variant_admits(
    table: PrefixTable,
    descriptor: DescriptorModel,
    variant: VariantModel,
)
    requires
        table.unambiguous(),
    ensures
        table.admits(variant, descriptor) <==> variant == table.classify(descriptor),
{
}

/// An identity string that begins with no known prefix is classified as the
/// custom network of the descriptor's origin, and no other is.
pub proof fn unrecognised_identity_is_custom(table: PrefixTable, descriptor: DescriptorModel)
    ensures
        !table.recognises(descriptor.id) <==> table.classify(descriptor) is Custom,
        !table.recognises(descriptor.id) ==> table.classify(descriptor) == VariantModel::Custom(
            descriptor.origin,
        ),
{
}

/// The classification depends on the identity string alone, but for the
/// path that a custom variant carries.
pub proof fn classification_reads_the_identity_only(
    table: PrefixTable,
    first: DescriptorModel,
    second: DescriptorModel,
)
    requires
        first.id == second.id,
    ensures
        table.classify(first).known() == table.classify(second).known(),
        table.classify(first).known() ==> table.classify(first) == table.classify(second),
{
}

/// A validated table of prefixes, by which descriptors are classified.
pub struct ChainIdentifier {
    development: String,
    test_network: String,
    main_network: String,
}

impl View for ChainIdentifier {
    type V = PrefixTable;

    closed spec fn view(&self) -> PrefixTable {
        PrefixTable {
            development: self.development@,
            test_network: self.test_network@,
            main_network: self.main_network@,
        }
    }
}

/// Whether one of the two prefixes begins with the other.
fn nested(first: &str, second: &str) -> (clash: bool)
    ensures
        clash == overlap(first@, second@),
{
    proof {
        overlap_means_nested(first@, second@);
    }
    starts_with(first, second) || starts_with(second, first)
}

impl ChainIdentifier {
    #[verifier::type_invariant]
    spec fn validated(self) -> bool {
        self@.unambiguous()
    }

    /// Validates the prefixes of the three known networks. This is the check
    /// to make at startup: it fails as soon as some identity string could
    /// begin with two of them.
    pub fn new(development: &str, test_network: &str, main_network: &str) -> (made: Result<
        ChainIdentifier,
        Error,
    >)
        ensures
            match made {
                Ok(identifier) => {
                    &&& identifier@ == (PrefixTable {
                        development: development@,
                        test_network: test_network@,
                        main_network: main_network@,
                    })
                    &&& identifier@.unambiguous()
                },
                Err(error) => {
                    &&& error == Error::AmbiguousClassification
                    &&& !(PrefixTable {
                        development: development@,
                        test_network: test_network@,
                        main_network: main_network@,
                    }).unambiguous()
                },
            },
    {
        if nested(development, test_network) || nested(development, main_network) || nested(
            test_network,
            main_network,
        ) {
            Err(Error::AmbiguousClassification)
        } else {
            Ok(
                ChainIdentifier {
                    development: development.to_owned(),
                    test_network: test_network.to_owned(),
                    main_network: main_network.to_owned(),
                },
            )
        }
    }

    /// The identifier with the prefixes of the three known networks.
    pub fn standard() -> (identifier: ChainIdentifier)
        ensures
            identifier@ == standard_prefixes(),
            identifier@.unambiguous(),
    {
        proof {
            standard_prefixes_are_unambiguous();
        }
        ChainIdentifier {
            development: "dev".to_owned(),
            test_network: "finney".to_owned(),
            main_network: "uomi".to_owned(),
        }
    }

    /// Classifies a descriptor. Every descriptor has a variant; the variant
    /// is the only one whose rule accepts the descriptor.
    pub fn classify(&self, descriptor: &NetworkDescriptor) -> (variant: ChainVariant)
        ensures
            variant@ == self@.classify(descriptor@),
            self@.unambiguous(),
            forall|other: VariantModel|
                self@.admits(other, descriptor@) <==> other == variant@,
    {
        proof {
            use_type_invariant(self);
            assert forall|other: VariantModel|
                self@.admits(other, descriptor@) <==> other == self@.classify(descriptor@) by {
                exactly_one_variant_admits(self@, descriptor@, other);
            }
        }
        let id = descriptor.id();
        if starts_with(id, self.development.as_str()) {
            ChainVariant::Development
        } else if starts_with(id, self.test_network.as_str()) {
            ChainVariant::TestNetwork
        } else if starts_with(id, self.main_network.as_str()) {
            ChainVariant::MainNetwork
        } else {
            ChainVariant::Custom(descriptor.origin().to_owned())
        }
    }
}

/// Classifies a descriptor by the standard prefixes.
pub fn classify(descriptor: &NetworkDescriptor) -> (variant: ChainVariant)
    ensures
        variant@ == standard_prefixes().classify(descriptor@),
        forall|other: VariantModel|
            standard_prefixes().admits(other, descriptor@) <==> other == variant@,
{
    proof {
        standard_prefixes_are_unambiguous();
        assert forall|other: VariantModel|
            standard_prefixes().admits(other, descriptor@) <==> other
                == standard_prefixes().classify(descriptor@) by {
            exactly_one_variant_admits(standard_prefixes(), descriptor@, other);
        }
    }
    if descriptor.is_dev() {
        ChainVariant::Development
    } else if descriptor.is_finney() {
        ChainVariant::TestNetwork
    } else if descriptor.is_uomi() {
        ChainVariant::MainNetwork
    } else {
        ChainVariant::Custom(descriptor.origin().to_owned())
    }
}

} // verus!
