//! The files in which the build tool leaves the compiled contracts of a package, and
//! the choice among them.

use vstd::prelude::*;
use crate::metadata::{PackageMetadata, TargetMetadata};
use crate::paths::{join_path, joined_path};
use crate::targets::{test_target_named, test_target_names, test_targets_by_name, NamedTarget};
use crate::text::{
    copied_optional_text, holds_text, joined_text, optional_text, same_optional_text, same_text,
    texts,
};

verus! {

/// An artifacts file that was found for a test target.
#[derive(Clone, Debug, PartialEq, Eq)]
pub struct ContractArtifactData {
    pub path: String,
    pub test_type: Option<String>,
}

/// What a found artifacts file stands for.
pub struct ArtifactDataView {
    pub path: Seq<char>,
    pub test_type: Option<Seq<char>>,
}

impl View for ContractArtifactData {
    type V = ArtifactDataView;

    open spec fn view(&self) -> ArtifactDataView {
        ArtifactDataView { path: self.path@, test_type: optional_text(self.test_type) }
    }
}

/// The artifacts files of a package: the one that is read first, and the others.
#[derive(Clone, Debug, PartialEq, Eq)]
pub struct StarknetArtifactsFiles {
    pub base_file: String,
    pub other_files: Vec<String>,
}

/// What a choice of artifacts files stands for.
pub struct ArtifactsFilesView {
    pub base_file: Seq<char>,
    pub other_files: Seq<Seq<char>>,
}

impl View for StarknetArtifactsFiles {
    type V = ArtifactsFilesView;

    open spec fn view(&self) -> ArtifactsFilesView {
        ArtifactsFilesView { base_file: self.base_file@, other_files: texts(self.other_files@) }
    }
}

/// The view of a choice that may be absent.
pub open spec fn optional_files(files: Option<StarknetArtifactsFiles>) -> Option<
    ArtifactsFilesView,
> {
    match files {
        Some(f) => Some(f@),
        None => None,
    }
}

/// A test target as far as its artifacts file depends on it.
pub struct TestTargetView {
    pub name: Seq<char>,
    pub test_type: Option<Seq<char>>,
}

/// What gathered test targets stand for.
pub open spec fn test_target_views(gathered: Seq<NamedTarget>) -> Seq<TestTargetView> {
    Seq::new(
        gathered.len(),
        |i: int|
            TestTargetView {
                name: gathered[i].name@,
                test_type: optional_text(gathered[i].target.test_type),
            },
    )
}

/// The test targets of a package, gathered by name.
pub open spec fn package_test_targets(targets: Seq<TargetMetadata>) -> Seq<TestTargetView> {
    Seq::new(
        test_target_names(targets).len(),
        |i: int|
            TestTargetView {
                name: test_target_names(targets)[i],
                test_type: match test_target_named(targets, test_target_names(targets)[i]) {
                    Some(target) => optional_text(target.test_type),
                    None => None,
                },
            },
    )
}

/// The artifacts file of the contract target `target_name`.
pub open spec fn artifacts_file_path(target_dir: Seq<char>, target_name: Seq<char>) -> Seq<char> {
    joined_path(target_dir, target_name + ".starknet_artifacts.json"@)
}

/// The artifacts file of the test target gathered under `name`.
pub open spec fn test_artifacts_file_path(target_dir: Seq<char>, name: Seq<char>) -> Seq<char> {
    joined_path(target_dir, name + ".test.starknet_artifacts.json"@)
}

/// The path of the artifacts file of a contract target.
pub fn starknet_artifacts_file(target_dir: &str, target_name: &str) -> (r: String)
    ensures
        r@ == artifacts_file_path(target_dir@, target_name@),
{
    let file = joined_text(target_name, ".starknet_artifacts.json");
    join_path(target_dir, file.as_str())
}

/// The path of the artifacts file of a test target.
pub fn test_starknet_artifacts_file(target_dir: &str, name: &str) -> (r: String)
    ensures
        r@ == test_artifacts_file_path(target_dir@, name@),
{
    let file = joined_text(name, ".test.starknet_artifacts.json");
    join_path(target_dir, file.as_str())
}

/// The file at `path` alone, with no others beside it, where it is present.
pub open spec fn file_if_present(path: Seq<char>, existing: Seq<Seq<char>>) -> Option<
    ArtifactsFilesView,
> {
    if existing.contains(path) {
        Some(ArtifactsFilesView { base_file: path, other_files: Seq::empty() })
    } else {
        None
    }
}

/// The artifacts file of a contract target, where it exists.
pub open spec fn contract_target_files(
    target_dir: Seq<char>,
    target_name: Seq<char>,
    existing: Seq<Seq<char>>,
) -> Option<ArtifactsFilesView> {
    file_if_present(artifacts_file_path(target_dir, target_name), existing)
}

/// The artifacts file at `path` as the only file to read, where `existing_files`
/// lists it; none where it does not.
pub fn artifacts_file_if_present(path: String, existing_files: &Vec<String>) -> (r: Option<
    StarknetArtifactsFiles,
>)
    ensures
        optional_files(r) == file_if_present(path@, texts(existing_files@)),
{
    if holds_text(existing_files, path.as_str()) {
        let files = StarknetArtifactsFiles { base_file: path, other_files: Vec::new() };
        assert(files@.other_files =~= Seq::empty());
        Some(files)
    } else {
        None
    }
}

/// The artifacts file that a plain build leaves for the contract target `target_name`.
///
/// `existing_files` lists the files that are present. The answer is the file alone,
/// with no others beside it, and there is none when the file is not present.
pub fn get_starknet_artifacts_path(
    target_dir: &str,
    target_name: &str,
    existing_files: &Vec<String>,
) -> (r: Option<StarknetArtifactsFiles>)
    ensures
        optional_files(r) == contract_target_files(
            target_dir@,
            target_name@,
            texts(existing_files@),
        ),
{
    let path = starknet_artifacts_file(target_dir, target_name);
    artifacts_file_if_present(path, existing_files)
}

/// The artifacts files that exist for the given test targets, in their order.
pub open spec fn found_test_artifacts(
    target_dir: Seq<char>,
    targets: Seq<TestTargetView>,
    existing: Seq<Seq<char>>,
) -> Seq<ArtifactDataView>
    decreases targets.len(),
{
    if targets.len() == 0 {
        Seq::empty()
    } else {
        let earlier = found_test_artifacts(target_dir, targets.drop_last(), existing);
        let path = test_artifacts_file_path(target_dir, targets.last().name);
        if existing.contains(path) {
            earlier.push(ArtifactDataView { path, test_type: targets.last().test_type })
        } else {
            earlier
        }
    }
}

/// Whether the artifacts come from integration tests.
pub open spec fn is_integration(artifact: ArtifactDataView) -> bool {
    artifact.test_type == Some("integration"@)
}

/// Whether `b` is the place of the file to read first: the first one of integration
/// tests, or the very first where there is none of those.
pub open spec fn is_base(artifacts: Seq<ArtifactDataView>, b: int) -> bool {
    &&& 0 <= b < artifacts.len()
    &&& forall|j: int| 0 <= j < b ==> !is_integration(artifacts[j])
    &&& is_integration(artifacts[b]) || (b == 0 && forall|j: int|
        0 <= j < artifacts.len() ==> !is_integration(artifacts[j]))
}

/// The paths of the artifacts that differ from `base`, in order.
pub open spec fn other_paths(artifacts: Seq<ArtifactDataView>, base: ArtifactDataView) -> Seq<
    Seq<char>,
>
    decreases artifacts.len(),
{
    if artifacts.len() == 0 {
        Seq::empty()
    } else {
        let earlier = other_paths(artifacts.drop_last(), base);
        if artifacts.last() != base {
            earlier.push(artifacts.last().path)
        } else {
            earlier
        }
    }
}

/// Whether `files` is the choice made among `artifacts`: none where there are no
/// artifacts, else the base file and every artifact that differs from it.
pub open spec fn chosen_files(
    artifacts: Seq<ArtifactDataView>,
    files: Option<ArtifactsFilesView>,
) -> bool {
    if artifacts.len() == 0 {
        files is None
    } else {
        exists|b: int|
            is_base(artifacts, b) && files == Some(
                ArtifactsFilesView {
                    base_file: artifacts[b].path,
                    other_files: other_paths(artifacts, artifacts[b]),
                },
            )
    }
}

/// What a list of found artifacts stands for.
pub open spec fn artifact_views(artifacts: Seq<ContractArtifactData>) -> Seq<ArtifactDataView> {
    artifacts.map_values(|a: ContractArtifactData| a@)
}

/// Whether two found artifacts have the same path and the same test type.
fn same_artifact(a: &ContractArtifactData, b: &ContractArtifactData) -> (r: bool)
    ensures
        r == (a@ == b@),
{
    same_text(a.path.as_str(), b.path.as_str()) && same_optional_text(&a.test_type, &b.test_type)
}

/// Whether the artifacts come from integration tests.
fn comes_from_integration(artifact: &ContractArtifactData) -> (r: bool)
    ensures
        r == is_integration(artifact@),
{
    match &artifact.test_type {
        Some(test_type) => same_text(test_type.as_str(), "integration"),
        None => false,
    }
}

/// The place of the file to read first.
fn base_place(artifacts: &Vec<ContractArtifactData>) -> (b: usize)
    requires
        artifacts.len() > 0,
    ensures
        is_base(artifact_views(artifacts@), b as int),
{
    let mut i: usize = 0;
    while i < artifacts.len()
        invariant
            i <= artifacts.len(),
            forall|j: int| 0 <= j < i ==> !is_integration(artifact_views(artifacts@)[j]),
        decreases artifacts.len() - i,
    {
        if comes_from_integration(&artifacts[i]) {
            return i;
        }
        i += 1;
    }
    0
}

/// Chooses the file to read first among the found artifacts, and lists the others.
///
/// The artifacts of integration tests come first where there are any, else the first
/// artifacts found. Every artifact that differs from the chosen one, in path or in
/// test type, is listed among the others, in the order in which it was found.
pub fn choose_artifacts_files(artifacts: &Vec<ContractArtifactData>) -> (r: Option<
    StarknetArtifactsFiles,
>)
    ensures
        chosen_files(artifact_views(artifacts@), optional_files(r)),
{
    if artifacts.len() == 0 {
        return None;
    }
    let b = base_place(artifacts);
    let ghost views = artifact_views(artifacts@);
    let mut others: Vec<String> = Vec::new();
    let mut i: usize = 0;
    while i < artifacts.len()
        invariant
            i <= artifacts.len(),
            b < artifacts.len(),
            views == artifact_views(artifacts@),
            texts(others@) == other_paths(views.take(i as int), views[b as int]),
        decreases artifacts.len() - i,
    {
        proof {
            assert(views.take(i + 1).drop_last() =~= views.take(i as int));
        }
        if !same_artifact(&artifacts[i], &artifacts[b]) {
            let path = artifacts[i].path.clone();
            proof {
                assert(texts(others@.push(path)) =~= texts(others@).push(path@));
            }
            others.push(path);
        }
        i += 1;
    }
    assert(views.take(i as int) =~= views);
    Some(StarknetArtifactsFiles { base_file: artifacts[b].path.clone(), other_files: others })
}

/// The artifacts files that exist for the gathered test targets.
fn collect_test_artifacts(
    target_dir: &str,
    test_targets: &Vec<NamedTarget>,
    existing_files: &Vec<String>,
) -> (r: Vec<ContractArtifactData>)
    ensures
        artifact_views(r@) == found_test_artifacts(
            target_dir@,
            test_target_views(test_targets@),
            texts(existing_files@),
        ),
{
    let ghost targets = test_target_views(test_targets@);
    let mut found: Vec<ContractArtifactData> = Vec::new();
    let mut i: usize = 0;
    while i < test_targets.len()
        invariant
            i <= test_targets.len(),
            targets == test_target_views(test_targets@),
            artifact_views(found@) == found_test_artifacts(
                target_dir@,
                targets.take(i as int),
                texts(existing_files@),
            ),
        decreases test_targets.len() - i,
    {
        proof {
            assert(targets.take(i + 1).drop_last() =~= targets.take(i as int));
        }
        let path = test_starknet_artifacts_file(target_dir, test_targets[i].name.as_str());
        if holds_text(existing_files, path.as_str()) {
            let artifact = ContractArtifactData {
                path,
                test_type: copied_optional_text(&test_targets[i].target.test_type),
            };
            proof {
                assert(artifact_views(found@.push(artifact)) =~= artifact_views(found@).push(
                    artifact@,
                ));
            }
            found.push(artifact);
        }
        i += 1;
    }
    assert(targets.take(i as int) =~= targets);
    found
}

/// The artifacts files that a test build leaves for the gathered test targets.
///
/// `existing_files` lists the files that are present. Among the files that exist for
/// the targets, the one of integration tests is read first where there is one, else
/// the first; the rest are the others. There is no answer when no file exists.
pub fn get_starknet_artifacts_paths_from_test_targets(
    target_dir: &str,
    test_targets: &Vec<NamedTarget>,
    existing_files: &Vec<String>,
) -> (r: Option<StarknetArtifactsFiles>)
    ensures
        chosen_files(
            found_test_artifacts(
                target_dir@,
                test_target_views(test_targets@),
                texts(existing_files@),
            ),
            optional_files(r),
        ),
{
    let artifacts = collect_test_artifacts(target_dir, test_targets, existing_files);
    choose_artifacts_files(&artifacts)
}

/// Whether `i` is the place of the first contract target.
pub open spec fn first_contract_target(targets: Seq<TargetMetadata>, i: int) -> bool {
    &&& 0 <= i < targets.len()
    &&& targets[i].kind@ == "starknet-contract"@
    &&& forall|j: int| 0 <= j < i ==> targets[j].kind@ != "starknet-contract"@
}

/// Whether `files` is the choice of artifacts files for a package.
///
/// With test targets: the choice among the files that exist for them. Without: the
/// file of the first contract target, where the package has one and the file exists.
pub open spec fn selected_files(
    target_dir: Seq<char>,
    targets: Seq<TargetMetadata>,
    use_test_target_contracts: bool,
    existing: Seq<Seq<char>>,
    files: Option<ArtifactsFilesView>,
) -> bool {
    if use_test_target_contracts {
        chosen_files(
            found_test_artifacts(target_dir, package_test_targets(targets), existing),
            files,
        )
    } else if forall|j: int| 0 <= j < targets.len() ==> targets[j].kind@ != "starknet-contract"@ {
        files is None
    } else {
        exists|i: int|
            first_contract_target(targets, i) && files == contract_target_files(
                target_dir,
                targets[i].name@,
                existing,
            )
    }
}

/// The place of the file to read first is determined by the artifacts.
pub proof fn lemma_base_is_unique(artifacts: Seq<ArtifactDataView>, a: int, b: int)
    requires
        is_base(artifacts, a),
        is_base(artifacts, b),
    ensures
        a == b,
{
    if a < b {
        assert(!is_integration(artifacts[a]));
    } else if b < a {
        assert(!is_integration(artifacts[b]));
    }
}

/// The choice of artifacts files for a package is determined by what it is made
/// from: two choices that both meet the description are the same.
pub proof fn lemma_selection_is_unique(
    target_dir: Seq<char>,
    targets: Seq<TargetMetadata>,
    use_test_target_contracts: bool,
    existing: Seq<Seq<char>>,
    first: Option<ArtifactsFilesView>,
    second: Option<ArtifactsFilesView>,
)
    requires
        selected_files(target_dir, targets, use_test_target_contracts, existing, first),
        selected_files(target_dir, targets, use_test_target_contracts, existing, second),
    ensures
        first == second,
{
    if use_test_target_contracts {
        let artifacts = found_test_artifacts(target_dir, package_test_targets(targets), existing);
        if artifacts.len() > 0 {
            let a = choose|b: int|
                is_base(artifacts, b) && first == Some(
                    ArtifactsFilesView {
                        base_file: artifacts[b].path,
                        other_files: other_paths(artifacts, artifacts[b]),
                    },
                );
            let b = choose|b: int|
                is_base(artifacts, b) && second == Some(
                    ArtifactsFilesView {
                        base_file: artifacts[b].path,
                        other_files: other_paths(artifacts, artifacts[b]),
                    },
                );
            lemma_base_is_unique(artifacts, a, b);
        }
    } else if exists|j: int| 0 <= j < targets.len() && targets[j].kind@ == "starknet-contract"@ {
        let a = choose|i: int|
            first_contract_target(targets, i) && first == contract_target_files(
                target_dir,
                targets[i].name@,
                existing,
            );
        let b = choose|i: int|
            first_contract_target(targets, i) && second == contract_target_files(
                target_dir,
                targets[i].name@,
                existing,
            );
        if a < b {
            assert(targets[a].kind@ != "starknet-contract"@);
        } else if b < a {
            assert(targets[b].kind@ != "starknet-contract"@);
        }
    }
}

/// The place of the first contract target of a package.
fn contract_target_place(package: &PackageMetadata) -> (r: Option<usize>)
    ensures
        match r {
            Some(i) => first_contract_target(package.targets@, i as int),
            None => forall|j: int|
                0 <= j < package.targets@.len() ==> package.targets@[j].kind@
                    != "starknet-contract"@,
        },
{
    let mut i: usize = 0;
    while i < package.targets.len()
        invariant
            i <= package.targets.len(),
            forall|j: int| 0 <= j < i ==> package.targets@[j].kind@ != "starknet-contract"@,
        decreases package.targets.len() - i,
    {
        if same_text(package.targets[i].kind.as_str(), "starknet-contract") {
            return Some(i);
        }
        i += 1;
    }
    None
}

/// Chooses the artifacts files from which the contracts of a package are read.
///
/// `existing_files` lists the files that are present under `target_dir`.
pub fn select_artifacts_files(
    target_dir: &str,
    package: &PackageMetadata,
    use_test_target_contracts: bool,
    existing_files: &Vec<String>,
) -> (r: Option<StarknetArtifactsFiles>)
    ensures
        selected_files(
            target_dir@,
            package.targets@,
            use_test_target_contracts,
            texts(existing_files@),
            optional_files(r),
        ),
{
    if use_test_target_contracts {
        let test_targets = test_targets_by_name(package);
        proof {
            assert(test_target_views(test_targets@) =~= package_test_targets(package.targets@));
        }
        get_starknet_artifacts_paths_from_test_targets(target_dir, &test_targets, existing_files)
    } else {
        match contract_target_place(package) {
            Some(i) => get_starknet_artifacts_path(
                target_dir,
                package.targets[i].name.as_str(),
                existing_files,
            ),
            None => None,
        }
    }
}

} // verus!
