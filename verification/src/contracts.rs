//! The compiled contracts of a package, read from its artifacts files into one table.

use vstd::prelude::*;
use crate::artifacts::{
    optional_files, select_artifacts_files, selected_files, ArtifactsFilesView,
    StarknetArtifactsFiles,
};
use crate::assoc::{Table, TableValue};
use crate::metadata::PackageMetadata;
use crate::paths::{join_path, joined_path, parent_of_path, parent_path};
use crate::text::{joined_text, same_text, texts};

verus! {

/// Where an artifacts file says the compiled code of a contract lies.
#[derive(Clone, Debug, PartialEq, Eq)]
pub struct StarknetContractArtifactPaths {
    /// The sierra file, relative to the directory of the artifacts file.
    pub sierra: String,
}

/// One contract that an artifacts file lists.
#[derive(Clone, Debug, PartialEq, Eq)]
pub struct StarknetContract {
    pub id: String,
    pub package_name: String,
    pub contract_name: String,
    pub artifacts: StarknetContractArtifactPaths,
}

/// The contents of an artifacts file.
#[derive(Clone, Debug, PartialEq, Eq)]
pub struct StarknetArtifacts {
    pub version: u32,
    pub contracts: Vec<StarknetContract>,
}

/// The compiled code of one contract.
#[derive(Clone, Debug, PartialEq, Eq)]
pub struct StarknetContractArtifacts {
    /// Compiled sierra code
    pub sierra: String,
    /// Compiled casm code
    pub casm: String,
}

/// What compiled code stands for.
pub struct ArtifactsView {
    pub sierra: Seq<char>,
    pub casm: Seq<char>,
}

impl View for StarknetContractArtifacts {
    type V = ArtifactsView;

    open spec fn view(&self) -> ArtifactsView {
        ArtifactsView { sierra: self.sierra@, casm: self.casm@ }
    }
}

/// What a table holds under a contract's name: its compiled code, and the path of
/// the sierra file that it was read from.
pub type ContractArtifactsEntry = (StarknetContractArtifacts, String);

/// What an entry of the table stands for.
pub type ContractArtifactsView = (ArtifactsView, Seq<char>);

/// The compiled contracts of a package, by name.
pub type ContractsTable = Table<String, ContractArtifactsEntry>;

impl TableValue for ContractArtifactsEntry {
    fn duplicate(&self) -> (r: Self) {
        (
            StarknetContractArtifacts { sierra: self.0.sierra.clone(), casm: self.0.casm.clone() },
            self.1.clone(),
        )
    }
}

/// A contract of an artifacts file together with its compiled code.
#[derive(Clone, Debug, PartialEq, Eq)]
pub struct LoadedContract {
    pub contract: StarknetContract,
    pub artifacts: StarknetContractArtifacts,
}

/// An artifacts file together with the contracts read from it.
#[derive(Debug)]
pub struct LoadedFile {
    pub path: String,
    pub contracts: ContractsTable,
}

/// Why the contracts of a package cannot be put together.
#[derive(Clone, Debug, PartialEq, Eq)]
pub enum ArtifactsError {
    /// The artifacts file lies in no directory.
    NoParent { path: String },
    /// An artifacts file was chosen and its contracts were not handed over.
    NotLoaded { path: String },
}

impl ArtifactsError {
    /// The text of the error.
    pub open spec fn message_text(self) -> Seq<char> {
        match self {
            ArtifactsError::NoParent { path } => "Failed to get parent for path = "@ + path@,
            ArtifactsError::NotLoaded { path } => "Failed to read "@ + path@ + " contents"@,
        }
    }

    /// Renders the error as text.
    pub fn message(&self) -> (r: String)
        ensures
            r@ == self.message_text(),
    {
        match self {
            ArtifactsError::NoParent { path } => {
                joined_text("Failed to get parent for path = ", path.as_str())
            },
            ArtifactsError::NotLoaded { path } => {
                let head = joined_text("Failed to read ", path.as_str());
                joined_text(head.as_str(), " contents")
            },
        }
    }
}

impl StarknetContractArtifacts {
    /// Puts the two compiled forms of a contract together.
    pub fn new(sierra: String, casm: String) -> (r: Self)
        ensures
            r.sierra == sierra,
            r.casm == casm,
    {
        StarknetContractArtifacts { sierra, casm }
    }
}

/// Whether `r` is the sierra file of `sierra` beside the artifacts file
/// `contracts_path`, or the failure to find the directory of that file.
pub open spec fn is_source_sierra_path(
    contracts_path: Seq<char>,
    sierra: Seq<char>,
    r: Result<String, ArtifactsError>,
) -> bool {
    match parent_of_path(contracts_path) {
        Some(base) => r matches Ok(path) && path@ == joined_path(base, sierra),
        None => r matches Err(ArtifactsError::NoParent { path }) && path@ == contracts_path,
    }
}

/// The path of the sierra file of a contract that the artifacts file
/// `contracts_path` lists: the file lies relative to the directory of the artifacts
/// file.
pub fn source_sierra_path(contracts_path: &str, contract: &StarknetContract) -> (r: Result<
    String,
    ArtifactsError,
>)
    ensures
        is_source_sierra_path(contracts_path@, contract.artifacts.sierra@, r),
{
    match parent_path(contracts_path) {
        Some(base) => Ok(join_path(base.as_str(), contract.artifacts.sierra.as_str())),
        None => Err(ArtifactsError::NoParent { path: contracts_path.to_owned() }),
    }
}

/// Whether `i` is the place of the last contract called `name`.
pub open spec fn last_named(contracts: Seq<LoadedContract>, name: Seq<char>, i: int) -> bool {
    &&& 0 <= i < contracts.len()
    &&& contracts[i].contract.contract_name@ == name
    &&& forall|l: int| i < l < contracts.len() ==> contracts[l].contract.contract_name@ != name
}

/// Whether a contract called `name` stands at place `from` or later.
pub open spec fn named_from(contracts: Seq<LoadedContract>, name: Seq<char>, from: int) -> bool {
    exists|l: int| from <= l < contracts.len() && contracts[l].contract.contract_name@ == name
}

/// Whether the contract at place `i` is the last one of its name.
pub open spec fn is_last_of_name(contracts: Seq<LoadedContract>, i: int) -> bool {
    last_named(contracts, contracts[i].contract.contract_name@, i)
}

/// Whether `table` holds the contracts from place `from` on: exactly their names,
/// and under each name the compiled code of the last contract of that name, with
/// the path of its sierra file under `base`.
pub open spec fn holds_contracts_from(
    table: Map<Seq<char>, ContractArtifactsView>,
    base: Seq<char>,
    contracts: Seq<LoadedContract>,
    from: int,
) -> bool {
    &&& forall|name: Seq<char>| #[trigger]
        table.contains_key(name) <==> named_from(contracts, name, from)
    &&& forall|i: int|
        from <= i && #[trigger] is_last_of_name(contracts, i) ==> {
            &&& table[contracts[i].contract.contract_name@].0 == contracts[i].artifacts@
            &&& table[contracts[i].contract.contract_name@].1 == joined_path(
                base,
                contracts[i].contract.artifacts.sierra@,
            )
        }
}

/// Whether `table` holds the contracts of one artifacts file.
pub open spec fn holds_contracts(
    table: Map<Seq<char>, ContractArtifactsView>,
    base: Seq<char>,
    contracts: Seq<LoadedContract>,
) -> bool {
    holds_contracts_from(table, base, contracts, 0)
}

/// A table that holds the contracts after place `n - 1`, and none of the name at
/// that place, holds those from `n - 1` on once that contract is put in.
proof fn lemma_holds_with(
    table: Map<Seq<char>, ContractArtifactsView>,
    base: Seq<char>,
    contracts: Seq<LoadedContract>,
    n: int,
    path: Seq<char>,
)
    requires
        0 < n <= contracts.len(),
        holds_contracts_from(table, base, contracts, n),
        !table.contains_key(contracts[n - 1].contract.contract_name@),
        path == joined_path(base, contracts[n - 1].contract.artifacts.sierra@),
    ensures
        holds_contracts_from(
            table.insert(
                contracts[n - 1].contract.contract_name@,
                (contracts[n - 1].artifacts@, path),
            ),
            base,
            contracts,
            n - 1,
        ),
{
    let added = contracts[n - 1].contract.contract_name@;
    let after = table.insert(added, (contracts[n - 1].artifacts@, path));
    assert forall|name: Seq<char>| #[trigger]
        after.contains_key(name) <==> named_from(contracts, name, n - 1) by {
        lemma_named_from_step(contracts, name, n);
    }
    assert forall|i: int| n - 1 <= i && #[trigger] is_last_of_name(contracts, i) implies {
        &&& after[contracts[i].contract.contract_name@].0 == contracts[i].artifacts@
        &&& after[contracts[i].contract.contract_name@].1 == joined_path(
            base,
            contracts[i].contract.artifacts.sierra@,
        )
    } by {
        if i > n - 1 && contracts[i].contract.contract_name@ == added {
            assert(named_from(contracts, added, n));
        }
    }
}

/// A table that holds the contracts after place `n - 1`, one of them under the name
/// at that place, holds those from `n - 1` on as it is.
proof fn lemma_holds_without(
    table: Map<Seq<char>, ContractArtifactsView>,
    base: Seq<char>,
    contracts: Seq<LoadedContract>,
    n: int,
)
    requires
        0 < n <= contracts.len(),
        holds_contracts_from(table, base, contracts, n),
        table.contains_key(contracts[n - 1].contract.contract_name@),
    ensures
        holds_contracts_from(table, base, contracts, n - 1),
{
    let skipped = contracts[n - 1].contract.contract_name@;
    assert(named_from(contracts, skipped, n));
    assert(!is_last_of_name(contracts, n - 1));
    assert forall|name: Seq<char>| #[trigger]
        table.contains_key(name) <==> named_from(contracts, name, n - 1) by {
        lemma_named_from_step(contracts, name, n);
    }
}

/// A name stands at place `n - 1` or later exactly when it stands at that place or
/// at a later one.
proof fn lemma_named_from_step(contracts: Seq<LoadedContract>, name: Seq<char>, n: int)
    requires
        0 < n <= contracts.len(),
    ensures
        named_from(contracts, name, n - 1) <==> (contracts[n - 1].contract.contract_name@ == name
            || named_from(contracts, name, n)),
{
    if named_from(contracts, name, n) {
        let l = choose|l: int|
            n <= l < contracts.len() && contracts[l].contract.contract_name@ == name;
        assert(n - 1 <= l < contracts.len() && contracts[l].contract.contract_name@ == name);
    }
    if named_from(contracts, name, n - 1) {
        let l = choose|l: int|
            n - 1 <= l < contracts.len() && contracts[l].contract.contract_name@ == name;
        if l > n - 1 {
            assert(n <= l < contracts.len() && contracts[l].contract.contract_name@ == name);
        }
    }
    if contracts[n - 1].contract.contract_name@ == name {
        assert(n - 1 <= n - 1 < contracts.len() && contracts[n - 1].contract.contract_name@
            == name);
    }
}

/// Builds the table of the contracts that one artifacts file lists.
///
/// `contracts` pairs each contract of the file with its compiled code. Each goes
/// into the table under its name, with the path of its sierra file; of several
/// contracts with one name the last one stays. Fails when the artifacts file lies in
/// no directory.
pub fn load_contracts_artifacts_and_source_sierra_paths(
    contracts_path: &str,
    contracts: Vec<LoadedContract>,
) -> (r: Result<ContractsTable, ArtifactsError>)
    ensures
        match parent_of_path(contracts_path@) {
            Some(base) => r matches Ok(table) && holds_contracts(table@, base, contracts@),
            None => r matches Err(ArtifactsError::NoParent { path }) && path@ == contracts_path@,
        },
{
    let base = match parent_path(contracts_path) {
        Some(base) => base,
        None => {
            return Err(ArtifactsError::NoParent { path: contracts_path.to_owned() });
        },
    };
    let mut table: ContractsTable = Table::new();
    let mut rest = contracts;
    let ghost all = rest@;
    proof {
        assert forall|name: Seq<char>| !named_from(all, name, all.len() as int) by {}
    }
    while rest.len() > 0
        invariant
            rest@ == all.take(rest.len() as int),
            rest.len() <= all.len(),
            holds_contracts_from(table@, base@, all, rest.len() as int),
        decreases rest.len(),
    {
        let ghost n = rest.len() as int;
        let ghost before = rest@;
        let loaded = rest.pop().unwrap();
        proof {
            assert(rest@ =~= all.take(n - 1));
            assert(loaded == before[n - 1]);
        }
        if !table.contains_key(&loaded.contract.contract_name) {
            let path = join_path(base.as_str(), loaded.contract.artifacts.sierra.as_str());
            proof {
                lemma_holds_with(table@, base@, all, n, path@);
            }
            table.set(loaded.contract.contract_name, (loaded.artifacts, path));
        } else {
            proof {
                lemma_holds_without(table@, base@, all, n);
            }
        }
    }
    Ok(table)
}

/// The contracts handed over for the artifacts file `path`: those of the first
/// loaded file with that path.
pub open spec fn loaded_table(loaded: Seq<LoadedFile>, path: Seq<char>) -> Option<
    Map<Seq<char>, ContractArtifactsView>,
>
    decreases loaded.len(),
{
    if loaded.len() == 0 {
        None
    } else if loaded[0].path@ == path {
        Some(loaded[0].contracts@)
    } else {
        loaded_table(loaded.drop_first(), path)
    }
}

/// The table that comes of `held` when the contracts of the files `others` are added
/// in turn, each contract only where its name is not held yet; or the first of the
/// files whose contracts were not handed over.
pub open spec fn merged_contracts(
    loaded: Seq<LoadedFile>,
    held: Map<Seq<char>, ContractArtifactsView>,
    others: Seq<Seq<char>>,
) -> Result<Map<Seq<char>, ContractArtifactsView>, Seq<char>>
    decreases others.len(),
{
    if others.len() == 0 {
        Ok(held)
    } else {
        match loaded_table(loaded, others[0]) {
            Some(table) => merged_contracts(
                loaded,
                table.union_prefer_right(held),
                others.drop_first(),
            ),
            None => Err(others[0]),
        }
    }
}

/// The contracts of a choice of artifacts files: those of the base file, completed
/// from the other files in turn; or the first file whose contracts were not handed
/// over.
pub open spec fn contracts_of_files(files: ArtifactsFilesView, loaded: Seq<LoadedFile>) -> Result<
    Map<Seq<char>, ContractArtifactsView>,
    Seq<char>,
> {
    match loaded_table(loaded, files.base_file) {
        Some(base) => merged_contracts(loaded, base, files.other_files),
        None => Err(files.base_file),
    }
}

/// Whether `r` gives `expected`: the same table, or the failure that names the same
/// file.
pub open spec fn gives_contracts(
    expected: Result<Map<Seq<char>, ContractArtifactsView>, Seq<char>>,
    r: Result<ContractsTable, ArtifactsError>,
) -> bool {
    match expected {
        Ok(contracts) => r matches Ok(table) && table@ == contracts,
        Err(missing) => r matches Err(ArtifactsError::NotLoaded { path }) && path@ == missing,
    }
}

/// A copy of the contracts handed over for the artifacts file `path`.
fn table_of_file(loaded: &Vec<LoadedFile>, path: &str) -> (r: Option<ContractsTable>)
    ensures
        match r {
            Some(table) => loaded_table(loaded@, path@) == Some(table@),
            None => loaded_table(loaded@, path@) is None,
        },
{
    let mut i: usize = 0;
    assert(loaded@.skip(0) =~= loaded@);
    while i < loaded.len()
        invariant
            i <= loaded.len(),
            loaded_table(loaded@.skip(i as int), path@) == loaded_table(loaded@, path@),
        decreases loaded.len() - i,
    {
        proof {
            assert(loaded@.skip(i as int).drop_first() =~= loaded@.skip(i + 1));
        }
        if same_text(loaded[i].path.as_str(), path) {
            return Some(loaded[i].contracts.duplicate());
        }
        i += 1;
    }
    None
}

impl StarknetArtifactsFiles {
    /// Puts the contracts of the chosen files into one table.
    ///
    /// `loaded` holds the contracts read from each file. The table starts as that of
    /// the base file; the other files follow in their order, and a contract of theirs
    /// is added only where the table has none of that name. Fails with the first
    /// chosen file whose contracts are not among `loaded`.
    pub fn load_contracts_artifacts(&self, loaded: &Vec<LoadedFile>) -> (r: Result<
        ContractsTable,
        ArtifactsError,
    >)
        ensures
            gives_contracts(contracts_of_files(self@, loaded@), r),
    {
        let mut table = match table_of_file(loaded, self.base_file.as_str()) {
            Some(table) => table,
            None => {
                return Err(ArtifactsError::NotLoaded { path: self.base_file.clone() });
            },
        };
        let ghost others = texts(self.other_files@);
        let mut i: usize = 0;
        assert(others.skip(0) =~= others);
        while i < self.other_files.len()
            invariant
                i <= self.other_files.len(),
                others == texts(self.other_files@),
                merged_contracts(loaded@, table@, others.skip(i as int)) == contracts_of_files(
                    self@,
                    loaded@,
                ),
            decreases self.other_files.len() - i,
        {
            proof {
                assert(others.skip(i as int).drop_first() =~= others.skip(i + 1));
            }
            match table_of_file(loaded, self.other_files[i].as_str()) {
                Some(other) => {
                    table.fill_from(other);
                },
                None => {
                    return Err(ArtifactsError::NotLoaded { path: self.other_files[i].clone() });
                },
            }
            i += 1;
        }
        Ok(table)
    }
}

/// Whether `r` holds the contracts of a choice of artifacts files that may be
/// absent: no contracts where no file was chosen.
pub open spec fn gives_contracts_of(
    files: Option<ArtifactsFilesView>,
    loaded: Seq<LoadedFile>,
    r: Result<ContractsTable, ArtifactsError>,
) -> bool {
    match files {
        Some(chosen) => gives_contracts(contracts_of_files(chosen, loaded), r),
        None => r matches Ok(table) && table@ == Map::<Seq<char>, ContractArtifactsView>::empty(),
    }
}

/// Get the table of compiled contracts for the given package.
///
/// `existing_files` lists the artifacts files that are present under `target_dir`,
/// and `loaded` holds the contracts read from them. The files are chosen as
/// [`select_artifacts_files`] says and their contracts merged as
/// [`StarknetArtifactsFiles::load_contracts_artifacts`] says; where no file is
/// chosen the table is empty.
pub fn get_contracts_artifacts_and_source_sierra_paths(
    target_dir: &str,
    package: &PackageMetadata,
    use_test_target_contracts: bool,
    existing_files: &Vec<String>,
    loaded: &Vec<LoadedFile>,
) -> (r: Result<ContractsTable, ArtifactsError>)
    ensures
        exists|files: Option<ArtifactsFilesView>|
            selected_files(
                target_dir@,
                package.targets@,
                use_test_target_contracts,
                texts(existing_files@),
                files,
            ) && gives_contracts_of(files, loaded@, r),
{
    let files = select_artifacts_files(
        target_dir,
        package,
        use_test_target_contracts,
        existing_files,
    );
    let r = match &files {
        Some(chosen) => chosen.load_contracts_artifacts(loaded),
        None => Ok(Table::new()),
    };
    assert(gives_contracts_of(optional_files(files), loaded@, r));
    r
}

} // verus!
