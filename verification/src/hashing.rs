//! The hashes that `starknet` computes: of classes, and of the address that a
//! deployment gets.

use vstd::prelude::*;
use crate::felt::{ClassHash, ContractAddress, Felt};

verus! {

/// What hashing a class comes to: the hash; or, where the hash cannot be computed,
/// the reason as text; or no reason, where the text is no class at all.
pub type HashOutcome = Result<Felt, Option<String>>;

/// What an outcome stands for.
pub type HashOutcomeView = Result<Felt, Option<Seq<char>>>;

/// The view of an outcome.
pub open spec fn hash_outcome(outcome: HashOutcome) -> HashOutcomeView {
    match outcome {
        Ok(hash) => Ok(hash),
        Err(Some(reason)) => Err(Some(reason@)),
        Err(None) => Err(None),
    }
}

/// The hash that `starknet` gives the compiled class written in `casm`.
pub uninterp spec fn casm_class_hash(casm: Seq<char>) -> HashOutcomeView;

/// The hash that `starknet` gives the class written in `sierra`.
pub uninterp spec fn sierra_class_hash(sierra: Seq<char>) -> HashOutcomeView;

/// The address that `starknet` gives a contract deployed with these values; none
/// where one of them is no element of the field.
pub uninterp spec fn contract_address(
    salt: Felt,
    class_hash: ClassHash,
    constructor_calldata: Seq<Felt>,
    deployer: ContractAddress,
) -> Option<ContractAddress>;

/// Reads `casm` with `serde_json::from_str` as a `CompiledClass` of `starknet` and
/// calls `CompiledClass::class_hash` on it.
///
/// Trusted: the outcome depends on the text alone. It has no reason where the text
/// does not read as a compiled class, and the text of the error where the hash
/// cannot be computed.
#[verifier::external_body]
pub(crate) fn compute_casm_class_hash(casm: &str) -> (r: HashOutcome)
    ensures
        hash_outcome(r) == casm_class_hash(casm@),
{
    let class: starknet::core::types::contract::CompiledClass = serde_json::from_str(casm)
        .map_err(|_| None)?;
    let hash = class.class_hash().map_err(|error| Some(error.to_string()))?;
    let bytes = hash.to_bytes_be();
    Ok(Felt {
        hi: u128::from_be_bytes(bytes[..16].try_into().unwrap()),
        lo: u128::from_be_bytes(bytes[16..].try_into().unwrap()),
    })
}

/// Reads `sierra` with `serde_json::from_str` as a `SierraClass` of `starknet` and
/// calls `SierraClass::class_hash` on it.
///
/// Trusted: the outcome depends on the text alone. It has no reason where the text
/// does not read as a class, and the text of the error where the hash cannot be
/// computed.
#[verifier::external_body]
pub(crate) fn compute_sierra_class_hash(sierra: &str) -> (r: HashOutcome)
    ensures
        hash_outcome(r) == sierra_class_hash(sierra@),
{
    let class: starknet::core::types::contract::SierraClass = serde_json::from_str(sierra)
        .map_err(|_| None)?;
    let hash = class.class_hash().map_err(|error| Some(error.to_string()))?;
    let bytes = hash.to_bytes_be();
    Ok(Felt {
        hi: u128::from_be_bytes(bytes[..16].try_into().unwrap()),
        lo: u128::from_be_bytes(bytes[16..].try_into().unwrap()),
    })
}

/// Whether every value that a deployment is made with is an element of the field.
pub open spec fn deployable(
    salt: Felt,
    class_hash: ClassHash,
    constructor_calldata: Seq<Felt>,
    deployer: ContractAddress,
) -> bool {
    &&& salt.in_field()
    &&& class_hash.in_field()
    &&& deployer.in_field()
    &&& forall|i: int| 0 <= i < constructor_calldata.len() ==> constructor_calldata[i].in_field()
}

/// Calls `starknet::core::utils::get_contract_address`, on the values turned into
/// field elements by `FieldElement::from_byte_slice_be`.
///
/// Trusted: the address depends on the four values alone. There is one exactly
/// when each value is below the modulus of the field, which is what the conversion
/// asks, and the address is then an element of the field itself.
#[verifier::external_body]
pub(crate) fn compute_contract_address(
    salt: Felt,
    class_hash: ClassHash,
    constructor_calldata: &Vec<Felt>,
    deployer: ContractAddress,
) -> (r: Option<ContractAddress>)
    ensures
        r == contract_address(salt, class_hash, constructor_calldata@, deployer),
        r is Some <==> deployable(salt, class_hash, constructor_calldata@, deployer),
        r matches Some(address) ==> address.in_field(),
{
    let element = |felt: &Felt| {
        let bytes = [felt.hi.to_be_bytes(), felt.lo.to_be_bytes()].concat();
        starknet::core::types::FieldElement::from_byte_slice_be(&bytes).ok()
    };
    let calldata = constructor_calldata.iter().map(element).collect::<Option<Vec<_>>>()?;
    let bytes = starknet::core::utils::get_contract_address(
        element(&salt)?,
        element(&class_hash)?,
        &calldata,
        element(&deployer)?,
    ).to_bytes_be();
    Some(Felt {
        hi: u128::from_be_bytes(bytes[..16].try_into().unwrap()),
        lo: u128::from_be_bytes(bytes[16..].try_into().unwrap()),
    })
}

} // verus!
