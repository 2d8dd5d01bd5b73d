use std::str::FromStr;

use katana_provider::commands::{
    dojo_version_mismatch, find_dojo_dependency, package_dojo_version_mismatch, reported_manifest, Commands,
    Dependency, ReportedManifest,
};
use katana_provider::erc::{erc_type_from_lowered, ErcType};

#[test]
fn erc_type_parses_case_insensitively() {
    assert_eq!(ErcType::parse("erc20").unwrap(), ErcType::ERC20);
    assert_eq!(ErcType::parse("ERC20").unwrap(), ErcType::ERC20);
    assert_eq!(ErcType::parse("Erc721").unwrap(), ErcType::ERC721);
    assert_eq!(ErcType::from_str("eRc721").unwrap(), ErcType::ERC721);
    let err = ErcType::parse("Er20").unwrap_err();
    assert_eq!(err.input, "Er20");
    assert!(ErcType::parse("erc1155").is_err());
    assert!(ErcType::parse("").is_err());
}

#[test]
fn erc_type_from_lowered_needs_lower_case() {
    assert_eq!(erc_type_from_lowered("erc721"), Some(ErcType::ERC721));
    assert_eq!(erc_type_from_lowered("ERC721"), None);
}

#[test]
fn erc_type_names() {
    assert_eq!(ErcType::ERC20.to_string(), "ERC20");
    assert_eq!(ErcType::ERC721.to_string(), "ERC721");
    assert_eq!(ErcType::default(), ErcType::ERC20);
}

#[test]
fn command_names() {
    assert_eq!(Commands::Build.name(), "Build");
    assert_eq!(Commands::Migrate.name(), "Migrate");
}

#[test]
fn dojo_version_check() {
    let tagged = "dojo git+https://github.com/dojoengine/dojo?tag=v1.0.0";
    assert!(dojo_version_mismatch(tagged, "1.0.1"));
    assert!(!dojo_version_mismatch(tagged, "1.0.0"));
    assert!(!dojo_version_mismatch("dojo git+https://github.com/dojoengine/dojo?branch=main", "1.0.1"));
    assert!(!dojo_version_mismatch("dojo 1.0.0", "1.0.1"));
    assert_eq!(reported_manifest(Some(true)), ReportedManifest::Package);
    assert_eq!(reported_manifest(Some(false)), ReportedManifest::Workspace);
    assert_eq!(reported_manifest(None), ReportedManifest::Workspace);
}

fn dep(name: &str, written: &str) -> Dependency {
    Dependency { name: name.to_string(), written: written.to_string() }
}

#[test]
fn package_dojo_dependency_is_found_and_checked() {
    let deps = vec![
        dep("starknet", "starknet 2.0.0"),
        dep("dojo", "dojo git+https://github.com/dojoengine/dojo?tag=v1.0.0"),
        dep("dojo", "dojo 9.9.9"),
    ];
    assert_eq!(find_dojo_dependency(&deps), Some(1));
    assert!(package_dojo_version_mismatch(&deps, "1.0.1"));
    assert!(!package_dojo_version_mismatch(&deps, "1.0.0"));
    let none = vec![dep("starknet", "starknet git+https://x?tag=v2.0.0")];
    assert_eq!(find_dojo_dependency(&none), None);
    assert!(!package_dojo_version_mismatch(&none, "1.0.1"));
}
