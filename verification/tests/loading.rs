use uomi_node::descriptor::NetworkDescriptor;
use uomi_node::error::{DescriptorFault, Error};
use uomi_node::identify::classify;
use uomi_node::loader::{load_spec, load_spec_file, FileOutcome, Loading};
use uomi_node::variant::ChainVariant;

fn loaded(name: &str) -> NetworkDescriptor {
    match load_spec(name) {
        Loading::Loaded(descriptor) => descriptor,
        Loading::NeedsFile(path) => panic!("{name} asked for the file {path}"),
    }
}

#[test]
fn every_keyword_loads_the_network_it_names() {
    for variant in ChainVariant::known_variants() {
        let keyword = variant.keyword().unwrap();
        let descriptor = loaded(keyword);
        assert_eq!(classify(&descriptor), variant);
    }
}

#[test]
fn built_in_descriptors_carry_their_keyword() {
    assert_eq!(loaded("dev"), NetworkDescriptor::new("dev", "dev"));
    assert_eq!(loaded("finney"), NetworkDescriptor::new("finney", "finney"));
    assert_eq!(loaded("uomi"), NetworkDescriptor::new("uomi", "uomi"));
    assert_eq!(loaded("uomi").id(), "uomi");
    assert_eq!(loaded("uomi").origin(), "uomi");
}

#[test]
fn built_in_constructor_agrees_with_loading() {
    for variant in ChainVariant::known_variants() {
        let made = NetworkDescriptor::built_in(&variant).unwrap();
        assert_eq!(made, loaded(variant.keyword().unwrap()));
    }
    assert!(NetworkDescriptor::built_in(&ChainVariant::Custom("dev".to_string())).is_none());
}

#[test]
fn any_other_name_is_a_path_to_read() {
    for name in ["/tmp/custom.json", "dev.json", "Dev", "", "uomi ", "finney/"] {
        match load_spec(name) {
            Loading::NeedsFile(path) => assert_eq!(path, name),
            Loading::Loaded(descriptor) => panic!("{name} loaded {descriptor:?}"),
        }
    }
}

#[test]
fn parsed_file_becomes_a_descriptor_of_that_path() {
    let outcome = FileOutcome::Parsed("my-private-net".to_string());
    let descriptor = load_spec_file("/tmp/custom.json", outcome).unwrap();
    assert_eq!(descriptor.id(), "my-private-net");
    assert_eq!(descriptor.origin(), "/tmp/custom.json");
    assert_eq!(classify(&descriptor), ChainVariant::Custom("/tmp/custom.json".to_string()));
}

#[test]
fn parsed_file_of_a_known_network_classifies_as_it() {
    let outcome = FileOutcome::Parsed("dev-local-7".to_string());
    let descriptor = load_spec_file("/tmp/local.json", outcome).unwrap();
    assert_eq!(classify(&descriptor), ChainVariant::Development);
}

#[test]
fn missing_file_is_not_found() {
    assert_eq!(
        load_spec_file("/nowhere.json", FileOutcome::Missing),
        Err(Error::UnresolvableDescriptor(DescriptorFault::NotFound))
    );
}

#[test]
fn unparsable_file_is_malformed() {
    assert_eq!(
        load_spec_file("/tmp/garbage.json", FileOutcome::Unparsable),
        Err(Error::UnresolvableDescriptor(DescriptorFault::MalformedDescriptor))
    );
}

#[test]
fn descriptors_compare_and_clone_by_value() {
    let descriptor = NetworkDescriptor::new("id", "origin");
    assert_eq!(descriptor.clone(), descriptor);
    assert_ne!(descriptor, NetworkDescriptor::new("id", "other"));
    assert_ne!(descriptor, NetworkDescriptor::new("other", "origin"));
}
