use cheatnet::metadata::{
    name_for_package, package_matches_version_requirement, target_dir_for_workspace, Metadata,
    MetadataError, PackageId, PackageMetadata, TargetMetadata, WorkspaceMetadata,
};

fn target(kind: &str, name: &str) -> TargetMetadata {
    TargetMetadata {
        kind: kind.to_string(),
        name: name.to_string(),
        group_id: None,
        test_type: None,
    }
}

fn package(name: &str, version: &str, targets: Vec<TargetMetadata>) -> PackageMetadata {
    PackageMetadata {
        id: PackageId { repr: format!("{name} {version} (path+file:///work/{name}/Scarb.toml)") },
        name: name.to_string(),
        version: version.to_string(),
        targets,
    }
}

fn metadata(packages: Vec<PackageMetadata>, target_dir: Option<&str>) -> Metadata {
    let members = vec![packages[packages.len() - 1].id.clone()];
    Metadata {
        packages,
        workspace: WorkspaceMetadata { root: "/work/basic_package".to_string(), members },
        target_dir: target_dir.map(|dir| dir.to_string()),
    }
}

fn version_checker() -> Metadata {
    metadata(
        vec![
            package("core", "2.5.4", vec![target("lib", "core")]),
            package("starknet", "2.5.4", vec![target("cairo-plugin", "starknet")]),
            package(
                "version_checker",
                "0.1.0",
                vec![target("lib", "version_checker"), target("starknet-contract", "version_checker")],
            ),
        ],
        None,
    )
}

#[test]
fn package_matches_version_requirement_test() {
    let scarb_metadata = version_checker();

    assert!(package_matches_version_requirement(&scarb_metadata, "starknet", "2.5").unwrap());

    assert!(package_matches_version_requirement(&scarb_metadata, "not_existing", "2.5").is_err());

    assert!(!package_matches_version_requirement(&scarb_metadata, "starknet", "2.8").unwrap());
}

#[test]
fn missing_package_is_reported_by_name() {
    let error =
        package_matches_version_requirement(&version_checker(), "not_existing", "2.5").unwrap_err();
    assert_eq!(error, MetadataError::NotPresent { name: "not_existing".to_string() });
    assert_eq!(error.message(), "Package not_existing is not present in dependencies.");
}

#[test]
fn duplicated_package_is_reported() {
    let scarb_metadata = metadata(
        vec![
            package("starknet", "2.5.4", vec![]),
            package("other", "1.0.0", vec![]),
            package("starknet", "2.6.0", vec![]),
        ],
        None,
    );
    let error = package_matches_version_requirement(&scarb_metadata, "starknet", "2.5").unwrap_err();
    assert_eq!(error, MetadataError::Duplicated { name: "starknet".to_string() });
    assert_eq!(error.message(), "Package starknet is duplicated in dependencies");
}

#[test]
fn malformed_version_or_requirement_is_reported() {
    let scarb_metadata = metadata(vec![package("starknet", "two point five", vec![])], None);
    assert_eq!(
        package_matches_version_requirement(&scarb_metadata, "starknet", "2.5"),
        Err(MetadataError::MalformedVersion { name: "starknet".to_string() })
    );
    assert_eq!(
        package_matches_version_requirement(&version_checker(), "starknet", "not a requirement"),
        Err(MetadataError::MalformedVersion { name: "starknet".to_string() })
    );
}

#[test]
fn requirement_is_held_against_the_version() {
    let scarb_metadata = version_checker();
    assert_eq!(package_matches_version_requirement(&scarb_metadata, "starknet", ">=2.5.4"), Ok(true));
    assert_eq!(package_matches_version_requirement(&scarb_metadata, "starknet", ">2.5.4"), Ok(false));
    assert_eq!(package_matches_version_requirement(&scarb_metadata, "starknet", "=2.5.4"), Ok(true));
    assert_eq!(package_matches_version_requirement(&scarb_metadata, "starknet", "^2"), Ok(true));
    assert_eq!(package_matches_version_requirement(&scarb_metadata, "starknet", "~2.4"), Ok(false));
    assert_eq!(
        package_matches_version_requirement(&scarb_metadata, "version_checker", "0.1"),
        Ok(true)
    );
}

#[test]
fn get_name_for_package() {
    let scarb_metadata = metadata(
        vec![
            package("core", "2.5.4", vec![]),
            package("basic_package", "0.1.0", vec![target("lib", "basic_package")]),
        ],
        None,
    );

    let package_name =
        name_for_package(&scarb_metadata, &scarb_metadata.workspace.members[0]).unwrap();

    assert_eq!(&package_name, "basic_package");
}

#[test]
fn unknown_package_id_is_reported() {
    let scarb_metadata = version_checker();
    let unknown = PackageId { repr: "ghost 0.0.0".to_string() };
    let error = name_for_package(&scarb_metadata, &unknown).unwrap_err();
    assert_eq!(error, MetadataError::PackageNotFound { package: "ghost 0.0.0".to_string() });
    assert_eq!(error.message(), "Failed to find metadata for package = ghost 0.0.0");
}

#[test]
fn first_package_with_the_id_gives_the_name() {
    let mut first = package("first", "1.0.0", vec![]);
    let mut second = package("second", "1.0.0", vec![]);
    first.id = PackageId { repr: "shared".to_string() };
    second.id = PackageId { repr: "shared".to_string() };
    let scarb_metadata = metadata(vec![first, second], None);
    assert_eq!(
        name_for_package(&scarb_metadata, &PackageId { repr: "shared".to_string() }),
        Ok("first".to_string())
    );
}

#[test]
fn target_dir_is_the_one_named_or_under_the_root() {
    let named = metadata(vec![package("a", "1.0.0", vec![])], Some("/elsewhere/out"));
    assert_eq!(target_dir_for_workspace(&named), "/elsewhere/out");

    let unnamed = metadata(vec![package("a", "1.0.0", vec![])], None);
    assert_eq!(target_dir_for_workspace(&unnamed), "/work/basic_package/target");
}

#[test]
fn malformed_version_message() {
    let error = MetadataError::MalformedVersion { name: "starknet".to_string() };
    assert_eq!(error.message(), "Package starknet has a version that cannot be compared");
}
