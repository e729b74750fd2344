//! The execution dispatcher: what is decided before the engine runs an operation,
//! and what its result comes to afterwards.
//!
//! The engine itself is not part of the crate. An operation that needs it is begun
//! here, which gives the task for the engine or the reason why there is none; the
//! engine runs the task through the interception layer; and the operation is
//! finished here with what the engine reported.

use vstd::prelude::*;
use crate::cheats::{CheatEntryView, CheatKey, Event};
use crate::contracts::{ArtifactsView, ContractsTable};
use crate::declare::{plan_declare, prepared_declare, DeclareDeploy, DeclareRequest};
use crate::errors::{
    ContractArtifactsNotFoundData, ErrorData, ProviderErrorKind, StarknetCommandError,
    TransactionError,
};
use crate::felt::{copy_felts, ClassHash, ContractAddress, Felt, Selector};
use crate::fork::{optional_fork, CompiledClass, ForkQuery, ForkRequest, ForkView};
use crate::hashing::{
    casm_class_hash, compute_casm_class_hash, compute_contract_address,
    compute_sierra_class_hash, contract_address, deployable, sierra_class_hash,
};
use crate::interception::{intercepted_class, InterceptionLayer};
use crate::resources::{
    build_resource_report, gas_cost, idle_machine, no_syscalls, zero_syscall_counts,
    zero_vm_resources, FeeSchedule, OperationClass, ResourceReport, SyscallCounts, VmResources,
};
use crate::snapshot::Run;
use crate::state::{
    fork_block, fork_classes, state_kept, state_read, CachedState, CachedStateView, StateRead,
    StateReadView,
};

verus! {

/// The cost that an operation is expected to have, and the most that the caller
/// accepts, where there is a limit.
#[derive(Clone, Copy, Debug, PartialEq, Eq)]
pub struct FeeLimit {
    pub ceiling: Option<u128>,
    pub estimate: u128,
}

/// Whether the expected cost is above the ceiling.
pub open spec fn exceeds(fee: FeeLimit) -> bool {
    fee.ceiling matches Some(ceiling) && fee.estimate > ceiling
}

/// Why an operation was not carried out.
#[derive(Clone, Debug, PartialEq, Eq)]
pub enum DispatchError {
    /// The expected cost is above the ceiling that the caller set.
    FeeExceeded { ceiling: u128, estimate: u128 },
    Command(StarknetCommandError),
}

/// What beginning an operation gives: the task, or the request that has to be
/// answered before the operation can be begun again.
#[derive(Debug)]
pub enum Step<T> {
    Ready(T),
    Fetch(ForkRequest),
}

/// What a declaration gives.
#[derive(Clone, Copy, Debug, PartialEq, Eq)]
pub struct DeclareOutcome {
    pub class_hash: ClassHash,
    /// The hash of the compiled class that the declaration used.
    pub casm_class_hash: ClassHash,
    /// The hash of the transaction, where the declaration went to a network.
    pub transaction_hash: Option<Felt>,
    pub resource_report: ResourceReport,
}

/// What a deployment gives.
#[derive(Clone, Copy, Debug, PartialEq, Eq)]
pub struct DeployOutcome {
    pub contract_address: ContractAddress,
    pub resource_report: ResourceReport,
}

/// What a call gives.
#[derive(Clone, Debug, PartialEq, Eq)]
pub struct CallOutcome {
    pub return_data: Vec<Felt>,
    pub resource_report: ResourceReport,
}

/// What an invocation gives.
pub type InvokeOutcome = CallOutcome;

/// How the engine ended a task.
#[derive(Clone, Debug, PartialEq, Eq)]
pub enum EngineVerdict {
    Success { return_data: Vec<Felt> },
    Revert { reason: String },
    /// A fault of the engine that is no outcome of the protocol.
    Fault { detail: String },
    /// A failure of the provider during the task.
    Provider { kind: ProviderErrorKind },
}

/// What the engine reports of a task.
#[derive(Clone, Debug, PartialEq, Eq)]
pub struct EngineResult {
    pub verdict: EngineVerdict,
    pub vm_resources: VmResources,
    pub events: Vec<Event>,
}

/// The outcome of one execution.
#[derive(Clone, Debug, PartialEq, Eq)]
pub enum ExecutionOutcome {
    Success { return_data: Vec<Felt>, events: Vec<Event>, resource_report: ResourceReport },
    Revert { reason: String },
    EngineError { detail: String },
    ProviderError { detail: ProviderErrorKind },
}

/// A task for the engine: the code to run, and the state to go back to.
#[derive(Debug)]
pub struct ExecutionTask {
    pub operation: OperationClass,
    /// The contract that executes.
    pub address: ContractAddress,
    /// The class whose code runs.
    pub class_hash: ClassHash,
    /// The entry point; none for a constructor.
    pub selector: Option<Selector>,
    pub calldata: Vec<Felt>,
    /// The cached state that the run goes back to when the writes of the task are
    /// not kept.
    pub checkpoint: CachedState,
}

/// Holds the expected cost against the ceiling.
pub fn check_fee(fee: &FeeLimit) -> (r: Result<(), DispatchError>)
    ensures
        r == if exceeds(*fee) {
            Err::<(), DispatchError>(
                DispatchError::FeeExceeded { ceiling: fee.ceiling->0, estimate: fee.estimate },
            )
        } else {
            Ok(())
        },
{
    match fee.ceiling {
        Some(ceiling) => {
            if fee.estimate > ceiling {
                Err(DispatchError::FeeExceeded { ceiling, estimate: fee.estimate })
            } else {
                Ok(())
            }
        },
        None => Ok(()),
    }
}

/// Whether `r` and the cached state `after` are what a declaration in the cached
/// state `before` comes to.
pub open spec fn declared(
    before: CachedStateView,
    schedule: FeeSchedule,
    contract_name: Seq<char>,
    contracts: Map<Seq<char>, (ArtifactsView, Seq<char>)>,
    fee: FeeLimit,
    r: Result<DeclareOutcome, DispatchError>,
    after: CachedStateView,
) -> bool {
    if exceeds(fee) {
        &&& r == Err::<DeclareOutcome, DispatchError>(
            DispatchError::FeeExceeded { ceiling: fee.ceiling->0, estimate: fee.estimate },
        )
        &&& after == before
    } else {
        match r {
            Ok(outcome) => {
                &&& exists|request: DeclareRequest|
                    {
                        &&& prepared_declare(contract_name, None, contracts, Ok(request))
                        &&& outcome.class_hash == request.class_hash
                        &&& outcome.casm_class_hash == request.casm_class_hash
                    }
                &&& outcome.transaction_hash is None
                &&& outcome.resource_report == (ResourceReport {
                    gas: gas_cost(
                        schedule,
                        OperationClass::Declare,
                        idle_machine(),
                        no_syscalls(),
                    ) as u128,
                    vm_resources: idle_machine(),
                    syscall_counts: no_syscalls(),
                })
                &&& after == (CachedStateView {
                    classes: before.classes.insert(
                        outcome.class_hash,
                        contracts[contract_name].0,
                    ),
                    ..before
                })
            },
            Err(DispatchError::Command(error)) => {
                &&& prepared_declare(contract_name, None, contracts, Err(error))
                &&& after == before
            },
            Err(DispatchError::FeeExceeded { .. }) => false,
        }
    }
}

/// Declares the contract `contract_name`: registers its class in the cached state.
///
/// Where the expected cost is above the ceiling nothing is looked up and nothing
/// changes. Otherwise the compiled code is looked up in `contracts` and hashed as
/// for a declaration on a network; a failure of that is handed on and nothing
/// changes. On success the class stands in the cached state under its hash.
pub fn declare(
    run: &mut Run,
    schedule: &FeeSchedule,
    contract_name: &str,
    contracts: &ContractsTable,
    fee: &FeeLimit,
) -> (r: Result<DeclareOutcome, DispatchError>)
    ensures
        declared(
            old(run).state@,
            *schedule,
            contract_name@,
            contracts@,
            *fee,
            r,
            final(run).state@,
        ),
        final(run).cheats == old(run).cheats,
        final(run).fork == old(run).fork,
{
    match check_fee(fee) {
        Err(error) => {
            return Err(error);
        },
        Ok(_) => {},
    }
    let name = contract_name.to_owned();
    let entry = match contracts.get(&name) {
        Some(entry) => entry,
        None => {
            let error = StarknetCommandError::ContractArtifactsNotFound(
                ContractArtifactsNotFoundData { contract_name: name },
            );
            return Err(DispatchError::Command(error));
        },
    };
    let sierra_hash = compute_sierra_class_hash(entry.0.sierra.as_str());
    let casm_hash = compute_casm_class_hash(entry.0.casm.as_str());
    let request = match plan_declare(contract_name, None, Some(&entry.0), sierra_hash, casm_hash) {
        Ok(request) => {
            assert(prepared_declare(contract_name@, None, contracts@, Ok(request)));
            request
        },
        Err(error) => {
            return Err(DispatchError::Command(error));
        },
    };
    let class = CompiledClass { sierra: entry.0.sierra.clone(), casm: entry.0.casm.clone() };
    run.state.set_class(request.class_hash, class);
    let report = build_resource_report(
        schedule,
        OperationClass::Declare,
        zero_vm_resources(),
        zero_syscall_counts(),
    );
    Ok(
        DeclareOutcome {
            class_hash: request.class_hash,
            casm_class_hash: request.casm_class_hash,
            transaction_hash: None,
            resource_report: report,
        },
    )
}

/// What the deployed map says of an address.
pub open spec fn deployed_at(state: CachedStateView, address: ContractAddress) -> Option<
    ClassHash,
> {
    if state.deployed.contains_key(address) {
        Some(state.deployed[address])
    } else {
        None
    }
}

/// Whether `r` and the cached state `after` are what beginning a call or an
/// invocation in the cached state `before` comes to.
pub open spec fn entry_point_begun(
    before: CachedStateView,
    cheats: Map<CheatKey, CheatEntryView>,
    operation: OperationClass,
    address: ContractAddress,
    selector: Selector,
    calldata: Seq<Felt>,
    fee: FeeLimit,
    r: Result<ExecutionTask, DispatchError>,
    after: CachedStateView,
) -> bool {
    &&& after == before
    &&& if exceeds(fee) {
        r matches Err(DispatchError::FeeExceeded { ceiling, estimate }) && ceiling
            == fee.ceiling->0 && estimate == fee.estimate
    } else {
        match intercepted_class(cheats, address, deployed_at(before, address)) {
            None => r matches Err(
                DispatchError::Command(
                    StarknetCommandError::Handleable(ProviderErrorKind::ContractNotFound),
                ),
            ),
            Some(class_hash) => {
                &&& r matches Ok(task)
                &&& task.operation == operation
                &&& task.address == address
                &&& task.class_hash == class_hash
                &&& task.selector == Some(selector)
                &&& task.calldata@ == calldata
                &&& task.checkpoint@ == before
            },
        }
    }
}

/// Begins a call or an invocation.
fn begin_entry_point(
    run: &mut Run,
    operation: OperationClass,
    address: ContractAddress,
    selector: Selector,
    calldata: &Vec<Felt>,
    fee: &FeeLimit,
) -> (r: Result<ExecutionTask, DispatchError>)
    ensures
        entry_point_begun(
            old(run).state@,
            old(run).cheats@.cheats,
            operation,
            address,
            selector,
            calldata@,
            *fee,
            r,
            final(run).state@,
        ),
        final(run).cheats == old(run).cheats,
        final(run).fork == old(run).fork,
{
    match check_fee(fee) {
        Err(error) => {
            return Err(error);
        },
        Ok(_) => {},
    }
    let layer = InterceptionLayer::new();
    match layer.class_to_run(&run.cheats, &run.state, address) {
        Some(class_hash) => Ok(
            ExecutionTask {
                operation,
                address,
                class_hash,
                selector: Some(selector),
                calldata: copy_felts(calldata),
                checkpoint: run.state.duplicate(),
            },
        ),
        None => Err(
            DispatchError::Command(
                StarknetCommandError::Handleable(ProviderErrorKind::ContractNotFound),
            ),
        ),
    }
}

/// Begins a call of the entry point `selector` at `address`: a read-only execution,
/// whose writes are gone once it is finished.
///
/// Where the expected cost is above the ceiling there is no task. Otherwise the task
/// runs the class elected for the address, else the class deployed there, and there
/// is none where the address holds no contract. The cached state does not change.
pub fn begin_call(
    run: &mut Run,
    address: ContractAddress,
    selector: Selector,
    calldata: &Vec<Felt>,
    fee: &FeeLimit,
) -> (r: Result<ExecutionTask, DispatchError>)
    ensures
        entry_point_begun(
            old(run).state@,
            old(run).cheats@.cheats,
            OperationClass::Call,
            address,
            selector,
            calldata@,
            *fee,
            r,
            final(run).state@,
        ),
        final(run).cheats == old(run).cheats,
        final(run).fork == old(run).fork,
{
    begin_entry_point(run, OperationClass::Call, address, selector, calldata, fee)
}

/// Begins an invocation of the entry point `selector` at `address`: an execution
/// whose writes stay in the cached state where it succeeds.
///
/// Where the expected cost is above the ceiling there is no task. Otherwise the task
/// runs the class elected for the address, else the class deployed there, and there
/// is none where the address holds no contract. The cached state does not change.
pub fn begin_invoke(
    run: &mut Run,
    address: ContractAddress,
    selector: Selector,
    calldata: &Vec<Felt>,
    fee: &FeeLimit,
) -> (r: Result<ExecutionTask, DispatchError>)
    ensures
        entry_point_begun(
            old(run).state@,
            old(run).cheats@.cheats,
            OperationClass::Invoke,
            address,
            selector,
            calldata@,
            *fee,
            r,
            final(run).state@,
        ),
        final(run).cheats == old(run).cheats,
        final(run).fork == old(run).fork,
{
    begin_entry_point(run, OperationClass::Invoke, address, selector, calldata, fee)
}

/// The cached state with what a read of the class `class_hash` keeps.
pub open spec fn with_class_read(
    before: CachedStateView,
    fork: Option<ForkView>,
    class_hash: ClassHash,
) -> CachedStateView {
    CachedStateView {
        classes: state_kept(
            before.classes,
            fork_classes(fork),
            class_hash,
            ForkQuery::Class(class_hash),
            fork_block(fork),
        ),
        ..before
    }
}

/// Whether `r` and the cached state `after` are what beginning a deployment in the
/// cached state `before` comes to.
pub open spec fn deploy_begun(
    before: CachedStateView,
    fork: Option<ForkView>,
    class_hash: ClassHash,
    calldata: Seq<Felt>,
    salt: Felt,
    fee: FeeLimit,
    r: Result<Step<ExecutionTask>, DispatchError>,
    after: CachedStateView,
) -> bool {
    if exceeds(fee) {
        &&& r matches Err(DispatchError::FeeExceeded { ceiling, estimate })
        &&& ceiling == fee.ceiling->0
        &&& estimate == fee.estimate
        &&& after == before
    } else {
        match state_read(
            before.classes,
            fork_classes(fork),
            class_hash,
            ForkQuery::Class(class_hash),
            fork_block(fork),
        ) {
            StateReadView::Fetch(request) => {
                &&& r matches Ok(Step::Fetch(asked))
                &&& asked == request
                &&& after == before
            },
            StateReadView::NotFound => {
                &&& r matches Err(
                    DispatchError::Command(
                        StarknetCommandError::Handleable(ProviderErrorKind::ClassHashNotFound),
                    ),
                )
                &&& after == before
            },
            StateReadView::Found(_) => if !deployable(
                salt,
                class_hash,
                calldata,
                Felt { hi: 0, lo: 0 },
            ) {
                &&& r matches Err(
                    DispatchError::Command(StarknetCommandError::Unhandleable(detail)),
                )
                &&& detail@ == "Failed to compute the address of the contract"@
                &&& after == with_class_read(before, fork, class_hash)
            } else {
                &&& r matches Ok(Step::Ready(task))
                &&& task.operation == OperationClass::Deploy
                &&& Some(task.address) == contract_address(
                    salt,
                    class_hash,
                    calldata,
                    Felt { hi: 0, lo: 0 },
                )
                &&& task.address.in_field()
                &&& task.class_hash == class_hash
                &&& task.selector is None
                &&& task.calldata@ == calldata
                &&& task.checkpoint@ == with_class_read(before, fork, class_hash)
                &&& after == (CachedStateView {
                    deployed: with_class_read(before, fork, class_hash).deployed.insert(
                        task.address,
                        class_hash,
                    ),
                    ..with_class_read(before, fork, class_hash)
                })
            },
        }
    }
}

/// Whether `r` and the cached state `after` are what putting a contract of the class
/// `class_hash` at `address` in the cached state `before` comes to: without an
/// address a failure that changes nothing, else the task that runs the constructor
/// there, with the class recorded as deployed at the address.
pub open spec fn deploy_planned(
    before: CachedStateView,
    class_hash: ClassHash,
    calldata: Seq<Felt>,
    address: Option<ContractAddress>,
    r: Result<ExecutionTask, DispatchError>,
    after: CachedStateView,
) -> bool {
    match address {
        None => {
            &&& r matches Err(DispatchError::Command(StarknetCommandError::Unhandleable(detail)))
            &&& detail@ == "Failed to compute the address of the contract"@
            &&& after == before
        },
        Some(address) => {
            &&& r matches Ok(task)
            &&& task.operation == OperationClass::Deploy
            &&& task.address == address
            &&& task.class_hash == class_hash
            &&& task.selector is None
            &&& task.calldata@ == calldata
            &&& task.checkpoint@ == before
            &&& after == (CachedStateView {
                deployed: before.deployed.insert(address, class_hash),
                ..before
            })
        },
    }
}

/// Plans the deployment of a contract of the class `class_hash` at the address
/// computed for it.
///
/// Without an address the deployment fails and nothing changes. Otherwise the
/// class is recorded as deployed at the address, and the task runs the constructor
/// there; the task keeps the cached state as it was before, to go back to.
pub fn plan_deploy(
    run: &mut Run,
    class_hash: ClassHash,
    constructor_calldata: &Vec<Felt>,
    address: Option<ContractAddress>,
) -> (r: Result<ExecutionTask, DispatchError>)
    ensures
        deploy_planned(
            old(run).state@,
            class_hash,
            constructor_calldata@,
            address,
            r,
            final(run).state@,
        ),
        final(run).cheats == old(run).cheats,
        final(run).fork == old(run).fork,
{
    let address = match address {
        Some(address) => address,
        None => {
            return Err(
                DispatchError::Command(
                    StarknetCommandError::Unhandleable(
                        "Failed to compute the address of the contract".to_owned(),
                    ),
                ),
            );
        },
    };
    let checkpoint = run.state.duplicate();
    run.state.set_class_hash_at(address, class_hash);
    Ok(
        ExecutionTask {
            operation: OperationClass::Deploy,
            address,
            class_hash,
            selector: None,
            calldata: copy_felts(constructor_calldata),
            checkpoint,
        },
    )
}

/// Begins the deployment of a contract of the class `class_hash`.
///
/// Where the expected cost is above the ceiling there is no task and nothing
/// changes. Otherwise the class has to be declared: it is read from the cached
/// state, and where that read needs a request first the request is handed back. The
/// address of the new contract follows from the salt, the class and the arguments
/// of the constructor, which all have to be elements of the field. The task runs
/// the constructor at that address, where the class now stands as deployed.
pub fn begin_deploy(
    run: &mut Run,
    class_hash: ClassHash,
    constructor_calldata: &Vec<Felt>,
    salt: Felt,
    fee: &FeeLimit,
) -> (r: Result<Step<ExecutionTask>, DispatchError>)
    ensures
        deploy_begun(
            old(run).state@,
            optional_fork(old(run).fork),
            class_hash,
            constructor_calldata@,
            salt,
            *fee,
            r,
            final(run).state@,
        ),
        final(run).cheats == old(run).cheats,
        final(run).fork == old(run).fork,
{
    match check_fee(fee) {
        Err(error) => {
            return Err(error);
        },
        Ok(_) => {},
    }
    match run.state.get_class(run.fork.as_ref(), class_hash) {
        StateRead::Fetch(request) => {
            return Ok(Step::Fetch(request));
        },
        StateRead::NotFound => {
            return Err(
                DispatchError::Command(
                    StarknetCommandError::Handleable(ProviderErrorKind::ClassHashNotFound),
                ),
            );
        },
        StateRead::Found(_) => {},
    }
    let address = compute_contract_address(salt, class_hash, constructor_calldata, Felt::zero());
    match plan_deploy(run, class_hash, constructor_calldata, address) {
        Ok(task) => Ok(Step::Ready(task)),
        Err(error) => Err(error),
    }
}

/// Whether `r` and the cached state `after` are what declaring a contract and
/// beginning its deployment in the cached state `before` comes to: the declaration,
/// and where it succeeds the beginning of the deployment of the declared class in the
/// state that the declaration left.
pub open spec fn declare_deploy_begun(
    before: CachedStateView,
    fork: Option<ForkView>,
    schedule: FeeSchedule,
    contract_name: Seq<char>,
    calldata: Seq<Felt>,
    salt: Felt,
    contracts: Map<Seq<char>, (ArtifactsView, Seq<char>)>,
    fee: FeeLimit,
    r: Result<(DeclareOutcome, Step<ExecutionTask>), DispatchError>,
    after: CachedStateView,
) -> bool {
    match r {
        Ok((outcome, step)) => exists|between: CachedStateView|
            {
                &&& declared(before, schedule, contract_name, contracts, fee, Ok(outcome), between)
                &&& deploy_begun(
                    between,
                    fork,
                    outcome.class_hash,
                    calldata,
                    salt,
                    fee,
                    Ok(step),
                    after,
                )
            },
        Err(error) => {
            ||| declared(before, schedule, contract_name, contracts, fee, Err(error), after)
            ||| exists|outcome: DeclareOutcome, between: CachedStateView|
                {
                    &&& declared(
                        before,
                        schedule,
                        contract_name,
                        contracts,
                        fee,
                        Ok(outcome),
                        between,
                    )
                    &&& deploy_begun(
                        between,
                        fork,
                        outcome.class_hash,
                        calldata,
                        salt,
                        fee,
                        Err(error),
                        after,
                    )
                }
        },
    }
}

/// Declares the contract that the command names and begins the deployment of the
/// declared class, with the arguments of the command.
///
/// The salt is the one of the command, else `generated_salt`. A failure of the
/// declaration ends the operation; a failure to begin the deployment leaves the
/// class declared.
pub fn begin_declare_deploy(
    run: &mut Run,
    schedule: &FeeSchedule,
    command: &DeclareDeploy,
    generated_salt: Felt,
    contracts: &ContractsTable,
    fee: &FeeLimit,
) -> (r: Result<(DeclareOutcome, Step<ExecutionTask>), DispatchError>)
    ensures
        declare_deploy_begun(
            old(run).state@,
            optional_fork(old(run).fork),
            *schedule,
            command.contract_name@,
            command.deploy_args.constructor_calldata@,
            command.deploy_args.chosen_salt(generated_salt),
            contracts@,
            *fee,
            r,
            final(run).state@,
        ),
        final(run).cheats == old(run).cheats,
        final(run).fork == old(run).fork,
{
    let outcome = match declare(run, schedule, command.contract_name.as_str(), contracts, fee) {
        Ok(outcome) => outcome,
        Err(error) => {
            return Err(error);
        },
    };
    let salt = command.deploy_args.salt_or(generated_salt);
    match begin_deploy(
        run,
        outcome.class_hash,
        &command.deploy_args.constructor_calldata,
        salt,
        fee,
    ) {
        Ok(step) => Ok((outcome, step)),
        Err(error) => Err(error),
    }
}

/// Whether the writes of a task stay in the cached state: those of a deployment or
/// an invocation that succeeded.
pub open spec fn keeps_writes(operation: OperationClass, verdict: EngineVerdict) -> bool {
    verdict is Success && operation != OperationClass::Call
}

/// The outcome of an execution, from what the engine reported and what the
/// interception layer observed.
pub open spec fn executed(
    schedule: FeeSchedule,
    operation: OperationClass,
    observed: SyscallCounts,
    result: EngineResult,
) -> ExecutionOutcome {
    match result.verdict {
        EngineVerdict::Success { return_data } => ExecutionOutcome::Success {
            return_data,
            events: result.events,
            resource_report: ResourceReport {
                gas: gas_cost(schedule, operation, result.vm_resources, observed) as u128,
                vm_resources: result.vm_resources,
                syscall_counts: observed,
            },
        },
        EngineVerdict::Revert { reason } => ExecutionOutcome::Revert { reason },
        EngineVerdict::Fault { detail } => ExecutionOutcome::EngineError { detail },
        EngineVerdict::Provider { kind } => ExecutionOutcome::ProviderError { detail: kind },
    }
}

/// Finishes a task with what the engine reported.
///
/// A success carries the returned data, the events and the report of the resources
/// used. The writes that the engine made stay in the cached state where a
/// deployment or an invocation succeeded; in every other case the cached state is
/// again what it was when the task was begun.
pub fn finish_execution(
    run: &mut Run,
    schedule: &FeeSchedule,
    task: ExecutionTask,
    layer: &InterceptionLayer,
    result: EngineResult,
) -> (r: ExecutionOutcome)
    ensures
        r == executed(*schedule, task.operation, layer.observed, result),
        final(run).state@ == if keeps_writes(task.operation, result.verdict) {
            old(run).state@
        } else {
            task.checkpoint@
        },
        final(run).cheats == old(run).cheats,
        final(run).fork == old(run).fork,
{
    let operation = task.operation;
    let keep = match (&result.verdict, operation) {
        (EngineVerdict::Success { .. }, OperationClass::Call) => false,
        (EngineVerdict::Success { .. }, _) => true,
        _ => false,
    };
    if !keep {
        run.state = task.checkpoint;
    }
    match result.verdict {
        EngineVerdict::Success { return_data } => {
            let report = build_resource_report(
                schedule,
                operation,
                result.vm_resources,
                layer.observed,
            );
            ExecutionOutcome::Success {
                return_data,
                events: result.events,
                resource_report: report,
            }
        },
        EngineVerdict::Revert { reason } => ExecutionOutcome::Revert { reason },
        EngineVerdict::Fault { detail } => ExecutionOutcome::EngineError { detail },
        EngineVerdict::Provider { kind } => ExecutionOutcome::ProviderError { detail: kind },
    }
}

/// The failure that an outcome other than success stands for: a revert with its
/// reason as it came, a fault of the engine as an unexpected failure with its
/// detail, a failure of the provider as that condition.
pub open spec fn classified_failure(outcome: ExecutionOutcome) -> Option<StarknetCommandError> {
    match outcome {
        ExecutionOutcome::Success { .. } => None,
        ExecutionOutcome::Revert { reason } => Some(
            StarknetCommandError::TransactionError(
                TransactionError::Reverted(ErrorData { data: reason }),
            ),
        ),
        ExecutionOutcome::EngineError { detail } => Some(
            StarknetCommandError::Unhandleable(detail),
        ),
        ExecutionOutcome::ProviderError { detail } => Some(
            StarknetCommandError::Handleable(detail),
        ),
    }
}

/// What the outcome of a call or an invocation comes to for the caller.
pub open spec fn call_result(outcome: ExecutionOutcome) -> Result<
    CallOutcome,
    StarknetCommandError,
> {
    match outcome {
        ExecutionOutcome::Success { return_data, events, resource_report } => Ok(
            CallOutcome { return_data, resource_report },
        ),
        _ => Err(classified_failure(outcome)->0),
    }
}

/// What the outcome of a deployment at `address` comes to for the caller.
pub open spec fn deploy_result(address: ContractAddress, outcome: ExecutionOutcome) -> Result<
    DeployOutcome,
    StarknetCommandError,
> {
    match outcome {
        ExecutionOutcome::Success { return_data, events, resource_report } => Ok(
            DeployOutcome { contract_address: address, resource_report },
        ),
        _ => Err(classified_failure(outcome)->0),
    }
}

/// Turns the outcome of a call or an invocation into the answer for the caller.
pub fn classify_call(outcome: ExecutionOutcome) -> (r: Result<CallOutcome, StarknetCommandError>)
    ensures
        r == call_result(outcome),
{
    match outcome {
        ExecutionOutcome::Success { return_data, events, resource_report } => Ok(
            CallOutcome { return_data, resource_report },
        ),
        ExecutionOutcome::Revert { reason } => Err(
            StarknetCommandError::TransactionError(
                TransactionError::Reverted(ErrorData { data: reason }),
            ),
        ),
        ExecutionOutcome::EngineError { detail } => Err(
            StarknetCommandError::Unhandleable(detail),
        ),
        ExecutionOutcome::ProviderError { detail } => Err(
            StarknetCommandError::Handleable(detail),
        ),
    }
}

/// Turns the outcome of a deployment at `address` into the answer for the caller.
pub fn classify_deploy(address: ContractAddress, outcome: ExecutionOutcome) -> (r: Result<
    DeployOutcome,
    StarknetCommandError,
>)
    ensures
        r == deploy_result(address, outcome),
{
    match outcome {
        ExecutionOutcome::Success { return_data, events, resource_report } => Ok(
            DeployOutcome { contract_address: address, resource_report },
        ),
        ExecutionOutcome::Revert { reason } => Err(
            StarknetCommandError::TransactionError(
                TransactionError::Reverted(ErrorData { data: reason }),
            ),
        ),
        ExecutionOutcome::EngineError { detail } => Err(
            StarknetCommandError::Unhandleable(detail),
        ),
        ExecutionOutcome::ProviderError { detail } => Err(
            StarknetCommandError::Handleable(detail),
        ),
    }
}

/// The failure that a refused operation stands for in the taxonomy of command
/// errors: a cost above the ceiling is the provider's condition of a fee that is too
/// small.
pub open spec fn command_error_of(error: DispatchError) -> StarknetCommandError {
    match error {
        DispatchError::FeeExceeded { .. } => StarknetCommandError::Handleable(
            ProviderErrorKind::InsufficientMaxFee,
        ),
        DispatchError::Command(error) => error,
    }
}

/// Turns the refusal of an operation into a command error.
pub fn classify_refusal(error: DispatchError) -> (r: StarknetCommandError)
    ensures
        r == command_error_of(error),
{
    match error {
        DispatchError::FeeExceeded { .. } => StarknetCommandError::Handleable(
            ProviderErrorKind::InsufficientMaxFee,
        ),
        DispatchError::Command(error) => error,
    }
}

/// A declaration whose expected cost is above the ceiling fails for that reason and
/// leaves the cached state as it was.
pub proof fn lemma_declare_respects_ceiling(
    before: CachedStateView,
    schedule: FeeSchedule,
    contract_name: Seq<char>,
    contracts: Map<Seq<char>, (ArtifactsView, Seq<char>)>,
    fee: FeeLimit,
    r: Result<DeclareOutcome, DispatchError>,
    after: CachedStateView,
)
    requires
        exceeds(fee),
        declared(before, schedule, contract_name, contracts, fee, r, after),
    ensures
        r is Err,
        r->Err_0 is FeeExceeded,
        after == before,
{
}

/// A deployment whose expected cost is above the ceiling fails for that reason and
/// leaves the cached state as it was: there is no task for the engine.
pub proof fn lemma_deploy_respects_ceiling(
    before: CachedStateView,
    fork: Option<ForkView>,
    class_hash: ClassHash,
    calldata: Seq<Felt>,
    salt: Felt,
    fee: FeeLimit,
    r: Result<Step<ExecutionTask>, DispatchError>,
    after: CachedStateView,
)
    requires
        exceeds(fee),
        deploy_begun(before, fork, class_hash, calldata, salt, fee, r, after),
    ensures
        r is Err,
        r->Err_0 is FeeExceeded,
        after == before,
{
}

/// A call or an invocation whose expected cost is above the ceiling fails for that
/// reason and leaves the cached state as it was: there is no task for the engine.
pub proof fn lemma_execution_respects_ceiling(
    before: CachedStateView,
    cheats: Map<CheatKey, CheatEntryView>,
    operation: OperationClass,
    address: ContractAddress,
    selector: Selector,
    calldata: Seq<Felt>,
    fee: FeeLimit,
    r: Result<ExecutionTask, DispatchError>,
    after: CachedStateView,
)
    requires
        exceeds(fee),
        entry_point_begun(before, cheats, operation, address, selector, calldata, fee, r, after),
    ensures
        r is Err,
        r->Err_0 is FeeExceeded,
        after == before,
{
}

/// The hash of the compiled class in the outcome of a declaration is the hash of
/// the casm code that the table holds for the contract, and so is the same for every
/// declaration of that code.
pub proof fn lemma_declare_uses_casm_hash(
    before: CachedStateView,
    schedule: FeeSchedule,
    contract_name: Seq<char>,
    contracts: Map<Seq<char>, (ArtifactsView, Seq<char>)>,
    fee: FeeLimit,
    outcome: DeclareOutcome,
    after: CachedStateView,
)
    requires
        declared(before, schedule, contract_name, contracts, fee, Ok(outcome), after),
    ensures
        contracts.contains_key(contract_name),
        casm_class_hash(contracts[contract_name].0.casm) == Ok::<Felt, Option<Seq<char>>>(
            outcome.casm_class_hash,
        ),
        sierra_class_hash(contracts[contract_name].0.sierra) == Ok::<Felt, Option<Seq<char>>>(
            outcome.class_hash,
        ),
{
}

} // verus!
