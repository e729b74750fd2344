//! The workspace metadata that the build tool reports, and the questions asked of it.

use vstd::prelude::*;
use crate::paths::{join_path, joined_path};
use crate::text::{joined_text, same_text};

verus! {

/// The identifier of a package, as the build tool writes it.
#[derive(Clone, Debug, PartialEq, Eq)]
pub struct PackageId {
    pub repr: String,
}

/// One build target of a package.
#[derive(Clone, Debug, PartialEq, Eq)]
pub struct TargetMetadata {
    /// The kind of the target, such as `lib`, `test` or `starknet-contract`.
    pub kind: String,
    pub name: String,
    /// The `group-id` parameter of the target, where it is a text.
    pub group_id: Option<String>,
    /// The `test-type` parameter of the target, where it is a text.
    pub test_type: Option<String>,
}

/// One package of the workspace or of its dependencies.
#[derive(Clone, Debug, PartialEq, Eq)]
pub struct PackageMetadata {
    pub id: PackageId,
    pub name: String,
    /// The version of the package, in semantic-versioning notation.
    pub version: String,
    pub targets: Vec<TargetMetadata>,
}

/// The workspace that the metadata describes.
#[derive(Clone, Debug, PartialEq, Eq)]
pub struct WorkspaceMetadata {
    pub root: String,
    pub members: Vec<PackageId>,
}

/// What the build tool reports of a workspace.
#[derive(Clone, Debug, PartialEq, Eq)]
pub struct Metadata {
    pub packages: Vec<PackageMetadata>,
    pub workspace: WorkspaceMetadata,
    pub target_dir: Option<String>,
}

/// Why a question to the metadata has no answer.
#[derive(Clone, Debug, PartialEq, Eq)]
pub enum MetadataError {
    /// No package has the given identifier.
    PackageNotFound { package: String },
    /// No package has the given name.
    NotPresent { name: String },
    /// Several packages have the given name.
    Duplicated { name: String },
    /// The requirement or the version of the named package is not in
    /// semantic-versioning notation.
    MalformedVersion { name: String },
}

impl MetadataError {
    /// The text of the error.
    pub open spec fn message_text(self) -> Seq<char> {
        match self {
            MetadataError::PackageNotFound { package } =>
                "Failed to find metadata for package = "@ + package@,
            MetadataError::NotPresent { name } =>
                "Package "@ + name@ + " is not present in dependencies."@,
            MetadataError::Duplicated { name } =>
                "Package "@ + name@ + " is duplicated in dependencies"@,
            MetadataError::MalformedVersion { name } =>
                "Package "@ + name@ + " has a version that cannot be compared"@,
        }
    }

    /// Renders the error as text.
    pub fn message(&self) -> (r: String)
        ensures
            r@ == self.message_text(),
    {
        match self {
            MetadataError::PackageNotFound { package } => {
                joined_text("Failed to find metadata for package = ", package.as_str())
            },
            MetadataError::NotPresent { name } => {
                let head = joined_text("Package ", name.as_str());
                joined_text(head.as_str(), " is not present in dependencies.")
            },
            MetadataError::Duplicated { name } => {
                let head = joined_text("Package ", name.as_str());
                joined_text(head.as_str(), " is duplicated in dependencies")
            },
            MetadataError::MalformedVersion { name } => {
                let head = joined_text("Package ", name.as_str());
                joined_text(head.as_str(), " has a version that cannot be compared")
            },
        }
    }
}

/// Whether `requirement` admits `version`, as `semver` decides it; nothing where
/// either text is not in semantic-versioning notation.
pub uninterp spec fn semver_matches(requirement: Seq<char>, version: Seq<char>) -> Option<bool>;

/// Parses both texts with `semver::VersionReq::parse` and `semver::Version::parse`
/// and asks `semver::VersionReq::matches`.
///
/// Trusted: the answer depends on the two texts alone, and there is none where one of
/// them does not parse.
#[verifier::external_body]
fn requirement_matches(requirement: &str, version: &str) -> (r: Option<bool>)
    ensures
        r == semver_matches(requirement@, version@),
{
    let requirement = semver::VersionReq::parse(requirement).ok()?;
    let version = semver::Version::parse(version).ok()?;
    Some(requirement.matches(&version))
}

/// The directory that build outputs go to: the one the metadata names, or `target`
/// under the workspace root.
pub open spec fn workspace_target_dir(metadata: Metadata) -> Seq<char> {
    match metadata.target_dir {
        Some(dir) => dir@,
        None => joined_path(metadata.workspace.root@, "target"@),
    }
}

/// The directory that build outputs of the workspace go to.
pub fn target_dir_for_workspace(metadata: &Metadata) -> (r: String)
    ensures
        r@ == workspace_target_dir(*metadata),
{
    match &metadata.target_dir {
        Some(dir) => dir.clone(),
        None => join_path(metadata.workspace.root.as_str(), "target"),
    }
}

/// Whether `i` is the place of the first package with identifier `id`.
pub open spec fn first_with_id(packages: Seq<PackageMetadata>, id: Seq<char>, i: int) -> bool {
    &&& 0 <= i < packages.len()
    &&& packages[i].id.repr@ == id
    &&& forall|j: int| 0 <= j < i ==> packages[j].id.repr@ != id
}

/// The name of the package with the given identifier.
///
/// Answers with the name of the first package that has the identifier, and fails
/// exactly when none has it.
pub fn name_for_package(metadata: &Metadata, package: &PackageId) -> (r: Result<
    String,
    MetadataError,
>)
    ensures
        match r {
            Ok(name) => exists|i: int|
                first_with_id(metadata.packages@, package.repr@, i) && name@
                    == metadata.packages@[i].name@,
            Err(MetadataError::PackageNotFound { package: missing }) => {
                &&& missing@ == package.repr@
                &&& forall|i: int|
                    0 <= i < metadata.packages@.len() ==> metadata.packages@[i].id.repr@
                        != package.repr@
            },
            Err(_) => false,
        },
{
    let mut i: usize = 0;
    while i < metadata.packages.len()
        invariant
            i <= metadata.packages.len(),
            forall|j: int| 0 <= j < i ==> metadata.packages@[j].id.repr@ != package.repr@,
        decreases metadata.packages.len() - i,
    {
        if same_text(metadata.packages[i].id.repr.as_str(), package.repr.as_str()) {
            assert(first_with_id(metadata.packages@, package.repr@, i as int));
            return Ok(metadata.packages[i].name.clone());
        }
        i += 1;
    }
    Err(MetadataError::PackageNotFound { package: package.repr.clone() })
}

/// Whether `i` is the place of the only package called `name`.
pub open spec fn sole_with_name(packages: Seq<PackageMetadata>, name: Seq<char>, i: int) -> bool {
    &&& 0 <= i < packages.len()
    &&& packages[i].name@ == name
    &&& forall|j: int| 0 <= j < packages.len() && j != i ==> packages[j].name@ != name
}

/// Whether no package is called `name`.
pub open spec fn none_with_name(packages: Seq<PackageMetadata>, name: Seq<char>) -> bool {
    forall|j: int| 0 <= j < packages.len() ==> packages[j].name@ != name
}

/// Whether two packages at least are called `name`.
pub open spec fn several_with_name(packages: Seq<PackageMetadata>, name: Seq<char>) -> bool {
    exists|i: int, j: int|
        0 <= i < j < packages.len() && packages[i].name@ == name && packages[j].name@ == name
}

/// What a version comparison of the only package called `name` comes to.
pub open spec fn requirement_verdict(
    name: Seq<char>,
    answer: Option<bool>,
    r: Result<bool, MetadataError>,
) -> bool {
    match answer {
        Some(admitted) => r == Ok::<bool, MetadataError>(admitted),
        None => r matches Err(MetadataError::MalformedVersion { name: n }) && n@ == name,
    }
}

/// Turns the outcome of a version comparison into the answer for the package `name`.
pub fn verdict_for(name: &str, answer: Option<bool>) -> (r: Result<bool, MetadataError>)
    ensures
        requirement_verdict(name@, answer, r),
{
    match answer {
        Some(admitted) => Ok(admitted),
        None => Err(MetadataError::MalformedVersion { name: name.to_owned() }),
    }
}

/// Whether the package called `name` has a version that `version_req` admits.
///
/// Fails when no package has the name, and when several have it; otherwise the
/// version of the only such package is held against the requirement.
pub fn package_matches_version_requirement(
    metadata: &Metadata,
    name: &str,
    version_req: &str,
) -> (r: Result<bool, MetadataError>)
    ensures
        none_with_name(metadata.packages@, name@) ==> (r matches Err(
            MetadataError::NotPresent { name: n },
        ) && n@ == name@),
        several_with_name(metadata.packages@, name@) ==> (r matches Err(
            MetadataError::Duplicated { name: n },
        ) && n@ == name@),
        forall|i: int|
            sole_with_name(metadata.packages@, name@, i) ==> requirement_verdict(
                name@,
                semver_matches(version_req@, metadata.packages@[i].version@),
                r,
            ),
{
    let mut found: Option<usize> = None;
    let mut i: usize = 0;
    while i < metadata.packages.len()
        invariant
            i <= metadata.packages.len(),
            match found {
                Some(f) => {
                    &&& f < i
                    &&& metadata.packages@[f as int].name@ == name@
                    &&& forall|j: int|
                        0 <= j < i && j != f ==> metadata.packages@[j].name@ != name@
                },
                None => forall|j: int| 0 <= j < i ==> metadata.packages@[j].name@ != name@,
            },
        decreases metadata.packages.len() - i,
    {
        if same_text(metadata.packages[i].name.as_str(), name) {
            match found {
                Some(f) => {
                    assert(several_with_name(metadata.packages@, name@)) by {
                        assert(0 <= f < i < metadata.packages@.len());
                    }
                    return Err(MetadataError::Duplicated { name: name.to_owned() });
                },
                None => {
                    found = Some(i);
                },
            }
        }
        i += 1;
    }
    match found {
        Some(f) => {
            let answer = requirement_matches(version_req, metadata.packages[f].version.as_str());
            verdict_for(name, answer)
        },
        None => Err(MetadataError::NotPresent { name: name.to_owned() }),
    }
}

} // verus!
