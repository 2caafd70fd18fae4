//! Resolution of a network name or a path into a loaded descriptor.
//!
//! The descriptor of a known network is made on the spot. For a custom
//! network the caller reads and parses the file and reports what came of it.

use crate::descriptor::{DescriptorModel, NetworkDescriptor};
use crate::error::{DescriptorFault, Error};
use crate::identify::standard_prefixes;
use crate::variant::{keyword_names_its_variant, ChainVariant, VariantModel};
use vstd::prelude::*;

verus! {

/// What a request for a descriptor comes to before any file is read.
#[derive(Debug)]
pub enum Loading {
    /// The name was the keyword of a known network: here is its descriptor.
    Loaded(NetworkDescriptor),
    /// The name is a path: the file there has to be read and parsed.
    NeedsFile(String),
}

/// What reading and parsing a descriptor file gave.
#[derive(Debug)]
pub enum FileOutcome {
    /// The path does not lead to a file.
    Missing,
    /// The file could not be parsed as a descriptor.
    Unparsable,
    /// The file is a descriptor, with this identity string.
    Parsed(String),
}

/// Takes the first step of loading: a reserved keyword, letter for letter,
/// gives the built-in descriptor of its network with nothing read; any other
/// name is the path of a descriptor file.
pub fn load_spec(name_or_path: &str) -> (step: Loading)
    ensures
        match step {
            Loading::Loaded(descriptor) => {
                &&& VariantModel::named(name_or_path@).known()
                &&& descriptor@ == DescriptorModel::built_in(VariantModel::named(name_or_path@))
            },
            Loading::NeedsFile(path) => {
                &&& !VariantModel::named(name_or_path@).known()
                &&& path@ == name_or_path@
            },
        },
{
    let variant = ChainVariant::from_name(name_or_path);
    match NetworkDescriptor::built_in(&variant) {
        Some(descriptor) => Loading::Loaded(descriptor),
        None => Loading::NeedsFile(name_or_path.to_owned()),
    }
}

/// Takes the second step of loading a custom network: turns what reading the
/// file at `path` gave into the descriptor, or into the reason why there is none.
pub fn load_spec_file(path: &str, outcome: FileOutcome) -> (loaded: Result<
    NetworkDescriptor,
    Error,
>)
    ensures
        match outcome {
            FileOutcome::Missing => loaded == Err::<NetworkDescriptor, Error>(
                Error::UnresolvableDescriptor(DescriptorFault::NotFound),
            ),
            FileOutcome::Unparsable => loaded == Err::<NetworkDescriptor, Error>(
                Error::UnresolvableDescriptor(DescriptorFault::MalformedDescriptor),
            ),
            FileOutcome::Parsed(id) => {
                &&& loaded is Ok
                &&& loaded->Ok_0@ == (DescriptorModel { id: id@, origin: path@ })
            },
        },
{
    match outcome {
        FileOutcome::Missing => Err(Error::UnresolvableDescriptor(DescriptorFault::NotFound)),
        FileOutcome::Unparsable => Err(
            Error::UnresolvableDescriptor(DescriptorFault::MalformedDescriptor),
        ),
        FileOutcome::Parsed(id) => Ok(NetworkDescriptor::new(id.as_str(), path)),
    }
}

/// Loading the keyword of a known network and classifying what was loaded
/// gives that network back.
pub proof fn loading_a_keyword_gives_its_variant(variant: VariantModel)
    requires
        variant.known(),
    ensures
        variant.keyword() is Some,
        VariantModel::named(variant.keyword()->0) == variant,
        standard_prefixes().classify(
            DescriptorModel::built_in(VariantModel::named(variant.keyword()->0)),
        ) == variant,
{
    keyword_names_its_variant(variant);
    crate::identify::standard_prefixes_are_unambiguous();
    crate::identify::exactly_one_variant_admits(
        standard_prefixes(),
        DescriptorModel::built_in(variant),
        variant,
    );
}

} // verus!
