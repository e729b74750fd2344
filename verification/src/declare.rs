//! Declaring a class on a network: what is sent, and what the answer comes to.

use vstd::prelude::*;
use crate::contracts::{ArtifactsView, ContractsTable, StarknetContractArtifacts};
use crate::errors::{ContractArtifactsNotFoundData, ProviderErrorKind, StarknetCommandError};
use crate::felt::{ClassHash, Felt};
use crate::hashing::{
    casm_class_hash, compute_casm_class_hash, compute_sierra_class_hash, hash_outcome,
    sierra_class_hash, HashOutcome, HashOutcomeView,
};

verus! {

/// The arguments of the command that declares a contract.
#[derive(Clone, Debug, PartialEq, Eq)]
pub struct Declare {
    /// Contract name
    pub contract: String,
    /// Max fee for the transaction. If not provided, max fee will be automatically
    /// estimated
    pub max_fee: Option<Felt>,
}

/// The token that the fee of a transaction is paid in.
#[derive(Clone, Copy, Debug, PartialEq, Eq)]
pub enum FeeToken {
    Eth,
    Strk,
}

/// The arguments of a deployment.
#[derive(Clone, Debug, PartialEq, Eq)]
pub struct DeployArgs {
    /// Calldata for the contract constructor
    pub constructor_calldata: Vec<Felt>,
    /// Salt for the address
    pub salt: Option<Felt>,
}

/// The arguments that say which node to talk to.
#[derive(Clone, Debug, PartialEq, Eq)]
pub struct RpcArgs {
    /// RPC provider url address
    pub url: Option<String>,
}

/// The arguments of the command that declares a contract and deploys it at once.
#[derive(Clone, Debug, PartialEq, Eq)]
pub struct DeclareDeploy {
    /// Name of the contract to deploy
    pub contract_name: String,
    pub deploy_args: DeployArgs,
    /// Token that transaction fee will be paid in
    pub fee_token: FeeToken,
    pub rpc: RpcArgs,
}

impl DeployArgs {
    /// The salt of the deployment: the one given, else the one generated for it.
    pub open spec fn chosen_salt(self, generated: Felt) -> Felt {
        match self.salt {
            Some(salt) => salt,
            None => generated,
        }
    }

    /// The salt of the deployment: the one given, else the one generated for it.
    pub fn salt_or(&self, generated: Felt) -> (r: Felt)
        ensures
            r == self.chosen_salt(generated),
    {
        match self.salt {
            Some(salt) => salt,
            None => generated,
        }
    }
}

/// What is sent to declare a class.
#[derive(Clone, Debug, PartialEq, Eq)]
pub struct DeclareRequest {
    /// The class, as sierra code.
    pub sierra: String,
    /// The hash of the class.
    pub class_hash: ClassHash,
    /// The hash of the compiled class.
    pub casm_class_hash: ClassHash,
    pub max_fee: Option<Felt>,
}

/// What a network answers when it accepts a declaration.
#[derive(Clone, Copy, Debug, PartialEq, Eq)]
pub struct DeclareResponse {
    pub class_hash: ClassHash,
    pub transaction_hash: Felt,
}

/// How sending a declaration ended.
#[derive(Clone, Debug, PartialEq, Eq)]
pub enum DeclareSubmission {
    Accepted(DeclareResponse),
    /// The provider refused, with this condition.
    Refused(ProviderErrorKind),
    /// The declaration failed before it reached the provider.
    Failed,
}

/// The detail of the failure to hash the two forms of a class, if there is one: a
/// form that does not read comes before one that cannot be hashed, and sierra before
/// casm among those that do not read.
pub open spec fn hashing_failure(sierra: HashOutcomeView, casm: HashOutcomeView) -> Option<
    Seq<char>,
> {
    match (sierra, casm) {
        (Err(None), _) => Some("Failed to parse sierra artifact"@),
        (_, Err(None)) => Some("Failed to parse casm artifact"@),
        (_, Err(Some(reason))) => Some(reason),
        (Err(Some(reason)), _) => Some(reason),
        (Ok(_), Ok(_)) => None,
    }
}

/// Whether `r` is the declaration planned for the contract `contract_name`, given
/// its compiled code, if it was found, and what hashing its two forms came to.
pub open spec fn planned_declare(
    contract_name: Seq<char>,
    max_fee: Option<Felt>,
    artifacts: Option<ArtifactsView>,
    sierra: HashOutcomeView,
    casm: HashOutcomeView,
    r: Result<DeclareRequest, StarknetCommandError>,
) -> bool {
    match artifacts {
        None => r matches Err(StarknetCommandError::ContractArtifactsNotFound(data))
            && data.contract_name@ == contract_name,
        Some(code) => match hashing_failure(sierra, casm) {
            Some(detail) => r matches Err(StarknetCommandError::Unhandleable(text)) && text@
                == detail,
            None => {
                &&& r matches Ok(request)
                &&& request.sierra@ == code.sierra
                &&& Ok::<Felt, Option<Seq<char>>>(request.class_hash) == sierra
                &&& Ok::<Felt, Option<Seq<char>>>(request.casm_class_hash) == casm
                &&& request.max_fee == max_fee
            },
        },
    }
}

/// The view of compiled code that may be absent.
pub open spec fn optional_artifacts(artifacts: Option<&StarknetContractArtifacts>) -> Option<
    ArtifactsView,
> {
    match artifacts {
        Some(code) => Some(code@),
        None => None,
    }
}

/// Plans the declaration of a contract from its compiled code and from what hashing
/// its two forms came to.
///
/// Without compiled code the contract's artifacts are reported as not found. A form
/// that does not read is reported before a hash that cannot be computed. Otherwise
/// the request carries the sierra code, the two hashes and the fee ceiling.
pub fn plan_declare(
    contract_name: &str,
    max_fee: Option<Felt>,
    artifacts: Option<&StarknetContractArtifacts>,
    sierra_hash: HashOutcome,
    casm_hash: HashOutcome,
) -> (r: Result<DeclareRequest, StarknetCommandError>)
    ensures
        planned_declare(
            contract_name@,
            max_fee,
            optional_artifacts(artifacts),
            hash_outcome(sierra_hash),
            hash_outcome(casm_hash),
            r,
        ),
{
    let code = match artifacts {
        Some(code) => code,
        None => {
            return Err(
                StarknetCommandError::ContractArtifactsNotFound(
                    ContractArtifactsNotFoundData { contract_name: contract_name.to_owned() },
                ),
            );
        },
    };
    match (sierra_hash, casm_hash) {
        (Err(None), _) => Err(
            StarknetCommandError::Unhandleable("Failed to parse sierra artifact".to_owned()),
        ),
        (_, Err(None)) => Err(
            StarknetCommandError::Unhandleable("Failed to parse casm artifact".to_owned()),
        ),
        (_, Err(Some(reason))) => Err(StarknetCommandError::Unhandleable(reason)),
        (Err(Some(reason)), _) => Err(StarknetCommandError::Unhandleable(reason)),
        (Ok(class_hash), Ok(casm_class_hash)) => Ok(
            DeclareRequest { sierra: code.sierra.clone(), class_hash, casm_class_hash, max_fee },
        ),
    }
}

/// Whether `r` is the declaration prepared for the contract `contract_name` out of
/// the table `contracts`.
pub open spec fn prepared_declare(
    contract_name: Seq<char>,
    max_fee: Option<Felt>,
    contracts: Map<Seq<char>, (ArtifactsView, Seq<char>)>,
    r: Result<DeclareRequest, StarknetCommandError>,
) -> bool {
    if contracts.contains_key(contract_name) {
        planned_declare(
            contract_name,
            max_fee,
            Some(contracts[contract_name].0),
            sierra_class_hash(contracts[contract_name].0.sierra),
            casm_class_hash(contracts[contract_name].0.casm),
            r,
        )
    } else {
        planned_declare(
            contract_name,
            max_fee,
            None,
            Err(None),
            Err(None),
            r,
        )
    }
}

/// Prepares the declaration of a contract of the table.
///
/// Looks the contract up by name, hashes the two forms of its compiled code, and
/// plans the declaration as [`plan_declare`] says.
pub fn prepare_declare(contract_name: &str, max_fee: Option<Felt>, contracts: &ContractsTable) -> (r:
    Result<DeclareRequest, StarknetCommandError>)
    ensures
        prepared_declare(contract_name@, max_fee, contracts@, r),
{
    let name = contract_name.to_owned();
    match contracts.get(&name) {
        Some(entry) => {
            let sierra_hash = compute_sierra_class_hash(entry.0.sierra.as_str());
            let casm_hash = compute_casm_class_hash(entry.0.casm.as_str());
            plan_declare(contract_name, max_fee, Some(&entry.0), sierra_hash, casm_hash)
        },
        None => plan_declare(contract_name, max_fee, None, Err(None), Err(None)),
    }
}

/// What sending a declaration comes to for the caller.
pub open spec fn concluded_declare(submission: DeclareSubmission) -> Result<
    DeclareResponse,
    StarknetCommandError,
> {
    match submission {
        DeclareSubmission::Accepted(response) => Ok(response),
        DeclareSubmission::Refused(kind) => Err(StarknetCommandError::Handleable(kind)),
        DeclareSubmission::Failed => Err(
            StarknetCommandError::Handleable(ProviderErrorKind::Unknown),
        ),
    }
}

/// Turns the end of a submission into the answer for the caller: the response of
/// the network, the condition with which the provider refused, or an unknown
/// failure.
pub fn conclude_declare(submission: DeclareSubmission) -> (r: Result<
    DeclareResponse,
    StarknetCommandError,
>)
    ensures
        r == concluded_declare(submission),
{
    match submission {
        DeclareSubmission::Accepted(response) => Ok(response),
        DeclareSubmission::Refused(kind) => Err(StarknetCommandError::Handleable(kind)),
        DeclareSubmission::Failed => Err(
            StarknetCommandError::Handleable(ProviderErrorKind::Unknown),
        ),
    }
}

} // verus!
