//! The closed taxonomy of command failures and the message each one carries.

use vstd::prelude::*;
use vstd::string::StringExecFns;

verus! {

/// The conditions a network provider reports, as far as callers tell them apart.
///
/// The three variants with a field carry the detail that the provider sent along,
/// already rendered as text.
#[derive(Clone, Debug, PartialEq, Eq)]
pub enum ProviderErrorKind {
    FailedToReceiveTransaction,
    ContractNotFound,
    BlockNotFound,
    TransactionHashNotFound,
    InvalidTransactionIndex,
    ClassHashNotFound,
    ContractError(String),
    InvalidTransactionNonce,
    InsufficientMaxFee,
    InsufficientAccountBalance,
    ClassAlreadyDeclared,
    TransactionExecutionError(String),
    ValidationFailure(String),
    CompilationFailed,
    ContractClassSizeIsTooLarge,
    NonAccount,
    DuplicateTx,
    CompiledClassHashMismatch,
    UnsupportedTxVersion,
    UnsupportedContractClassVersion,
    /// Any condition that has no message of its own.
    Unknown,
}

/// The reason a reverted transaction gave.
#[derive(Clone, Debug, PartialEq, Eq)]
pub struct ErrorData {
    pub data: String,
}

/// How a transaction that reached the network failed.
#[derive(Clone, Debug, PartialEq, Eq)]
pub enum TransactionError {
    Rejected,
    Reverted(ErrorData),
}

/// Names the contract whose compiled artifacts were looked for in vain.
#[derive(Clone, Debug, PartialEq, Eq)]
pub struct ContractArtifactsNotFoundData {
    pub contract_name: String,
}

/// What waiting for a transaction can end in, other than success.
#[derive(Clone, Debug, PartialEq, Eq)]
pub enum WaitForTransactionError {
    TransactionError(TransactionError),
    Other(String),
}

/// Every failure of a command, by kind.
#[derive(Clone, Debug, PartialEq, Eq)]
pub enum StarknetCommandError {
    /// An unexpected failure; the detail is passed on as it came.
    Unhandleable(String),
    ContractArtifactsNotFound(ContractArtifactsNotFoundData),
    TransactionError(TransactionError),
    Handleable(ProviderErrorKind),
}

impl From<WaitForTransactionError> for StarknetCommandError {
    /// A failed transaction stays what it is; any other end of the wait is an
    /// unexpected failure.
    fn from(value: WaitForTransactionError) -> (r: Self) {
        match value {
            WaitForTransactionError::TransactionError(error) => {
                StarknetCommandError::TransactionError(error)
            },
            WaitForTransactionError::Other(detail) => StarknetCommandError::Unhandleable(detail),
        }
    }
}

impl vstd::std_specs::convert::FromSpecImpl<WaitForTransactionError> for StarknetCommandError {
    open spec fn obeys_from_spec() -> bool {
        true
    }

    open spec fn from_spec(value: WaitForTransactionError) -> Self {
        match value {
            WaitForTransactionError::TransactionError(error) => {
                StarknetCommandError::TransactionError(error)
            },
            WaitForTransactionError::Other(detail) => StarknetCommandError::Unhandleable(detail),
        }
    }
}

/// The fixed message of a provider condition.
pub open spec fn provider_error_message(kind: ProviderErrorKind) -> Seq<char> {
    match kind {
        ProviderErrorKind::FailedToReceiveTransaction => "Node failed to receive transaction"@,
        ProviderErrorKind::ContractNotFound => "There is no contract at the specified address"@,
        ProviderErrorKind::BlockNotFound => "Block was not found"@,
        ProviderErrorKind::TransactionHashNotFound =>
            "Transaction with provided hash was not found (does not exist)"@,
        ProviderErrorKind::InvalidTransactionIndex => "There is no transaction with such an index"@,
        ProviderErrorKind::ClassHashNotFound => "Provided class hash does not exist"@,
        ProviderErrorKind::ContractError(detail) =>
            "An error occurred in the called contract = "@ + detail@,
        ProviderErrorKind::InvalidTransactionNonce => "Invalid transaction nonce"@,
        ProviderErrorKind::InsufficientMaxFee =>
            "Max fee is smaller than the minimal transaction cost"@,
        ProviderErrorKind::InsufficientAccountBalance =>
            "Account balance is too small to cover transaction fee"@,
        ProviderErrorKind::ClassAlreadyDeclared =>
            "Contract with the same class hash is already declared"@,
        ProviderErrorKind::TransactionExecutionError(detail) =>
            "Transaction execution error = "@ + detail@,
        ProviderErrorKind::ValidationFailure(detail) =>
            "Contract failed the validation = "@ + detail@,
        ProviderErrorKind::CompilationFailed => "Contract failed to compile in starknet"@,
        ProviderErrorKind::ContractClassSizeIsTooLarge => "Contract class size is too large"@,
        ProviderErrorKind::NonAccount => "No account"@,
        ProviderErrorKind::DuplicateTx => "Transaction already exists"@,
        ProviderErrorKind::CompiledClassHashMismatch => "Compiled class hash mismatch"@,
        ProviderErrorKind::UnsupportedTxVersion => "Unsupported transaction version"@,
        ProviderErrorKind::UnsupportedContractClassVersion =>
            "Unsupported contract class version"@,
        ProviderErrorKind::Unknown => "Unknown RPC error"@,
    }
}

/// The message of a transaction failure.
pub open spec fn transaction_error_message(error: TransactionError) -> Seq<char> {
    match error {
        TransactionError::Rejected => "Transaction has been rejected"@,
        TransactionError::Reverted(reason) => "Transaction has been reverted = "@ + reason.data@,
    }
}

/// The message of a missing artifact: the contract's name between two fixed parts.
pub open spec fn artifacts_not_found_message(contract_name: Seq<char>) -> Seq<char> {
    "Failed to find "@ + contract_name
        + " artifact in starknet_artifacts.json file. Please make sure you have specified correct package using `--package` flag and that you have enabled sierra and casm code generation in Scarb.toml"@
}

/// The message a caller is shown for a command failure.
pub open spec fn command_error_message(error: StarknetCommandError) -> Seq<char> {
    match error {
        StarknetCommandError::Unhandleable(detail) => detail@,
        StarknetCommandError::ContractArtifactsNotFound(data) => artifacts_not_found_message(
            data.contract_name@,
        ),
        StarknetCommandError::TransactionError(error) => transaction_error_message(error),
        StarknetCommandError::Handleable(kind) => provider_error_message(kind),
    }
}

/// A fixed text followed by a detail.
fn with_detail(prefix: &str, detail: &String) -> (r: String)
    ensures
        r@ == prefix@ + detail@,
{
    let mut message = prefix.to_owned();
    message.append(detail.as_str());
    message
}

/// Renders a provider condition as its fixed message.
pub fn handle_provider_error(kind: ProviderErrorKind) -> (r: String)
    ensures
        r@ == provider_error_message(kind),
{
    match kind {
        ProviderErrorKind::FailedToReceiveTransaction => {
            "Node failed to receive transaction".to_owned()
        },
        ProviderErrorKind::ContractNotFound => {
            "There is no contract at the specified address".to_owned()
        },
        ProviderErrorKind::BlockNotFound => "Block was not found".to_owned(),
        ProviderErrorKind::TransactionHashNotFound => {
            "Transaction with provided hash was not found (does not exist)".to_owned()
        },
        ProviderErrorKind::InvalidTransactionIndex => {
            "There is no transaction with such an index".to_owned()
        },
        ProviderErrorKind::ClassHashNotFound => "Provided class hash does not exist".to_owned(),
        ProviderErrorKind::ContractError(detail) => {
            with_detail("An error occurred in the called contract = ", &detail)
        },
        ProviderErrorKind::InvalidTransactionNonce => "Invalid transaction nonce".to_owned(),
        ProviderErrorKind::InsufficientMaxFee => {
            "Max fee is smaller than the minimal transaction cost".to_owned()
        },
        ProviderErrorKind::InsufficientAccountBalance => {
            "Account balance is too small to cover transaction fee".to_owned()
        },
        ProviderErrorKind::ClassAlreadyDeclared => {
            "Contract with the same class hash is already declared".to_owned()
        },
        ProviderErrorKind::TransactionExecutionError(detail) => {
            with_detail("Transaction execution error = ", &detail)
        },
        ProviderErrorKind::ValidationFailure(detail) => {
            with_detail("Contract failed the validation = ", &detail)
        },
        ProviderErrorKind::CompilationFailed => "Contract failed to compile in starknet".to_owned(),
        ProviderErrorKind::ContractClassSizeIsTooLarge => {
            "Contract class size is too large".to_owned()
        },
        ProviderErrorKind::NonAccount => "No account".to_owned(),
        ProviderErrorKind::DuplicateTx => "Transaction already exists".to_owned(),
        ProviderErrorKind::CompiledClassHashMismatch => "Compiled class hash mismatch".to_owned(),
        ProviderErrorKind::UnsupportedTxVersion => "Unsupported transaction version".to_owned(),
        ProviderErrorKind::UnsupportedContractClassVersion => {
            "Unsupported contract class version".to_owned()
        },
        ProviderErrorKind::Unknown => "Unknown RPC error".to_owned(),
    }
}

/// Renders any command failure as the message shown to the caller.
///
/// An unexpected failure keeps its own detail; every other kind has a fixed text,
/// completed by the contract's name or the reason where the kind carries one.
pub fn handle_starknet_command_error(error: StarknetCommandError) -> (r: String)
    ensures
        r@ == command_error_message(error),
{
    match error {
        StarknetCommandError::Unhandleable(detail) => detail,
        StarknetCommandError::ContractArtifactsNotFound(data) => {
            let mut message = with_detail("Failed to find ", &data.contract_name);
            message.append(
                " artifact in starknet_artifacts.json file. Please make sure you have specified correct package using `--package` flag and that you have enabled sierra and casm code generation in Scarb.toml",
            );
            message
        },
        StarknetCommandError::TransactionError(error) => match error {
            TransactionError::Rejected => "Transaction has been rejected".to_owned(),
            TransactionError::Reverted(reason) => {
                with_detail("Transaction has been reverted = ", &reason.data)
            },
        },
        StarknetCommandError::Handleable(kind) => handle_provider_error(kind),
    }
}

} // verus!
