use cheatnet::assoc::Table;
use cheatnet::cheats::{Cheat, CheatScope, CheatSpan, Event};
use cheatnet::contracts::{ContractsTable, StarknetContractArtifacts};
use cheatnet::declare::{
    conclude_declare, plan_declare, prepare_declare, DeclareDeploy, DeclareRequest,
    DeclareResponse, DeclareSubmission, DeployArgs, FeeToken, RpcArgs,
};
use cheatnet::dispatcher::{
    begin_call, begin_declare_deploy, begin_deploy, begin_invoke, check_fee, plan_deploy, classify_call, classify_deploy,
    classify_refusal, declare, finish_execution, CallOutcome, DeployOutcome, DispatchError,
    EngineResult, EngineVerdict, ExecutionOutcome, ExecutionTask, FeeLimit, Step,
};
use cheatnet::errors::{
    handle_starknet_command_error, ContractArtifactsNotFoundData, ErrorData, ProviderErrorKind,
    StarknetCommandError, TransactionError, WaitForTransactionError,
};
use cheatnet::felt::Felt;
use cheatnet::fork::{BlockId, Fetched, ForkQuery, ForkRequest};
use cheatnet::interception::InterceptionLayer;
use cheatnet::resources::{
    zero_builtin_counts, zero_syscall_counts, zero_vm_resources, BuiltinName, FeeSchedule,
    OperationClass, PerBuiltin, PerOperation, PerSyscall, ResourceReport, VmResources,
};
use cheatnet::snapshot::Run;
use cheatnet::state::StateRead;

const SIERRA: &str = r#"{"sierra_program":["0x1","0x2","0x3"],"sierra_program_debug_info":{"type_names":[],"libfunc_names":[],"user_func_names":[]},"contract_class_version":"0.1.0","entry_points_by_type":{"EXTERNAL":[{"selector":"0x362398bec32bc0ebb411203221a35a0301193a96f317ebe5e40be9f60d15320","function_idx":0}],"L1_HANDLER":[],"CONSTRUCTOR":[]},"abi":[]}"#;

const CASM: &str = r#"{"prime":"0x800000000000011000000000000000000000000000000000000000000000001","compiler_version":"2.4.0","bytecode":["0xa0680017fff8000","0x7","0x482680017ffa8000"],"hints":[],"entry_points_by_type":{"EXTERNAL":[{"selector":"0x362398bec32bc0ebb411203221a35a0301193a96f317ebe5e40be9f60d15320","offset":0,"builtins":["range_check"]}],"L1_HANDLER":[],"CONSTRUCTOR":[]}}"#;

const CASM_WITH_BAD_BUILTIN: &str = r#"{"prime":"0x800000000000011000000000000000000000000000000000000000000000001","compiler_version":"2.4.0","bytecode":["0x1"],"hints":[],"entry_points_by_type":{"EXTERNAL":[{"selector":"0x1","offset":0,"builtins":["a_builtin_whose_name_is_longer_than_a_short_string_can_be"]}],"L1_HANDLER":[],"CONSTRUCTOR":[]}}"#;

fn felt(value: u128) -> Felt {
    Felt::from_u128(value)
}

fn felt_of(element: starknet::core::types::FieldElement) -> Felt {
    let bytes = element.to_bytes_be();
    Felt::new(
        u128::from_be_bytes(bytes[..16].try_into().unwrap()),
        u128::from_be_bytes(bytes[16..].try_into().unwrap()),
    )
}

fn felt_from_hex(hex: &str) -> Felt {
    felt_of(starknet::core::types::FieldElement::from_hex_be(hex).unwrap())
}

fn expected_sierra_hash() -> Felt {
    let class: starknet::core::types::contract::SierraClass =
        serde_json::from_str(SIERRA).unwrap();
    felt_of(class.class_hash().unwrap())
}

fn expected_casm_hash() -> Felt {
    let class: starknet::core::types::contract::CompiledClass =
        serde_json::from_str(CASM).unwrap();
    felt_of(class.class_hash().unwrap())
}

fn contracts() -> ContractsTable {
    let mut table: ContractsTable = Table::new();
    table.set(
        "HelloStarknet".to_string(),
        (
            StarknetContractArtifacts::new(SIERRA.to_string(), CASM.to_string()),
            "target/dev/hello.contract_class.json".to_string(),
        ),
    );
    table.set(
        "BrokenSierra".to_string(),
        (
            StarknetContractArtifacts::new("not json".to_string(), CASM.to_string()),
            "target/dev/a.json".to_string(),
        ),
    );
    table.set(
        "BrokenCasm".to_string(),
        (
            StarknetContractArtifacts::new(SIERRA.to_string(), "{}".to_string()),
            "target/dev/b.json".to_string(),
        ),
    );
    table.set(
        "BrokenBoth".to_string(),
        (
            StarknetContractArtifacts::new("[]".to_string(), "[]".to_string()),
            "target/dev/c.json".to_string(),
        ),
    );
    table.set(
        "BadBuiltin".to_string(),
        (
            StarknetContractArtifacts::new(SIERRA.to_string(), CASM_WITH_BAD_BUILTIN.to_string()),
            "target/dev/d.json".to_string(),
        ),
    );
    table
}

fn schedule() -> FeeSchedule {
    FeeSchedule {
        version: 1,
        units_per_gas: 100,
        step_cost: 1,
        builtin_costs: PerBuiltin {
            output: 0,
            pedersen: 32,
            range_check: 16,
            ecdsa: 2048,
            bitwise: 64,
            ec_op: 1024,
            keccak: 2048,
            poseidon: 32,
            segment_arena: 0,
        },
        syscall_costs: PerSyscall {
            storage_read: 10,
            storage_write: 20,
            get_caller: 1,
            get_block_info: 1,
            call_contract: 5,
            emit_event: 2,
            send_l1_message: 3,
            replace_class: 4,
        },
        base_costs: PerOperation { declare: 300, deploy: 700, call: 0, invoke: 100 },
    }
}

fn no_limit() -> FeeLimit {
    FeeLimit { ceiling: None, estimate: 1_000_000 }
}

fn too_low() -> FeeLimit {
    FeeLimit { ceiling: Some(99), estimate: 100 }
}

fn declared_run() -> (Run, Felt) {
    let mut run = Run::new();
    let outcome = declare(&mut run, &schedule(), "HelloStarknet", &contracts(), &no_limit()).unwrap();
    (run, outcome.class_hash)
}

fn deployed_run() -> (Run, Felt, Felt) {
    let (mut run, class_hash) = declared_run();
    let task = match begin_deploy(&mut run, class_hash, &vec![], felt(0), &no_limit()).unwrap() {
        Step::Ready(task) => task,
        Step::Fetch(_) => panic!("a local run asks for no request"),
    };
    let address = task.address;
    let outcome = finish_execution(
        &mut run,
        &schedule(),
        task,
        &InterceptionLayer::new(),
        success(vec![], zero_vm_resources()),
    );
    assert!(matches!(outcome, ExecutionOutcome::Success { .. }));
    (run, class_hash, address)
}

fn success(return_data: Vec<Felt>, vm_resources: VmResources) -> EngineResult {
    EngineResult { verdict: EngineVerdict::Success { return_data }, vm_resources, events: vec![] }
}

fn ended(verdict: EngineVerdict) -> EngineResult {
    EngineResult { verdict, vm_resources: zero_vm_resources(), events: vec![] }
}

fn ready(step: Result<Step<ExecutionTask>, DispatchError>) -> ExecutionTask {
    match step {
        Ok(Step::Ready(task)) => task,
        other => panic!("no task: {other:?}"),
    }
}

#[test]
fn fee_is_held_against_the_ceiling() {
    assert_eq!(check_fee(&no_limit()), Ok(()));
    assert_eq!(check_fee(&FeeLimit { ceiling: Some(100), estimate: 100 }), Ok(()));
    assert_eq!(check_fee(&FeeLimit { ceiling: Some(101), estimate: 100 }), Ok(()));
    assert_eq!(
        check_fee(&too_low()),
        Err(DispatchError::FeeExceeded { ceiling: 99, estimate: 100 })
    );
    assert_eq!(
        check_fee(&FeeLimit { ceiling: Some(0), estimate: 1 }),
        Err(DispatchError::FeeExceeded { ceiling: 0, estimate: 1 })
    );
}

#[test]
fn declare_plans_the_request_with_both_hashes() {
    let request =
        prepare_declare("HelloStarknet", Some(felt(5000)), &contracts()).unwrap();
    assert_eq!(
        request,
        DeclareRequest {
            sierra: SIERRA.to_string(),
            class_hash: expected_sierra_hash(),
            casm_class_hash: expected_casm_hash(),
            max_fee: Some(felt(5000)),
        }
    );
    assert_ne!(request.class_hash, request.casm_class_hash);
}

#[test]
fn casm_class_hash_is_stable_and_is_the_one_in_the_outcome() {
    let first = prepare_declare("HelloStarknet", None, &contracts()).unwrap();
    let second = prepare_declare("HelloStarknet", None, &contracts()).unwrap();
    assert_eq!(first.casm_class_hash, second.casm_class_hash);
    assert_eq!(first.casm_class_hash, expected_casm_hash());

    let mut run = Run::new();
    let outcome = declare(&mut run, &schedule(), "HelloStarknet", &contracts(), &no_limit()).unwrap();
    assert_eq!(outcome.casm_class_hash, first.casm_class_hash);
    assert_eq!(outcome.class_hash, first.class_hash);
}

#[test]
fn declare_of_an_unknown_contract_names_it() {
    let error = prepare_declare("Missing", None, &contracts()).unwrap_err();
    assert_eq!(
        error,
        StarknetCommandError::ContractArtifactsNotFound(ContractArtifactsNotFoundData {
            contract_name: "Missing".to_string()
        })
    );
    assert!(handle_starknet_command_error(error).starts_with("Failed to find Missing artifact"));
}

#[test]
fn artifacts_that_do_not_read_are_reported_sierra_first() {
    let unhandleable = |text: &str| Err(StarknetCommandError::Unhandleable(text.to_string()));
    assert_eq!(
        prepare_declare("BrokenSierra", None, &contracts()),
        unhandleable("Failed to parse sierra artifact")
    );
    assert_eq!(
        prepare_declare("BrokenCasm", None, &contracts()),
        unhandleable("Failed to parse casm artifact")
    );
    assert_eq!(
        prepare_declare("BrokenBoth", None, &contracts()),
        unhandleable("Failed to parse sierra artifact")
    );
    assert_eq!(
        prepare_declare("BadBuiltin", None, &contracts()),
        unhandleable("invalid builtin name")
    );
}

#[test]
fn plan_follows_from_the_outcomes_of_hashing() {
    let code = StarknetContractArtifacts::new("sierra".to_string(), "casm".to_string());
    let reason = |text: &str| Err(Some(text.to_string()));
    let unhandleable = |text: &str| Err(StarknetCommandError::Unhandleable(text.to_string()));

    assert_eq!(
        plan_declare("C", Some(felt(9)), Some(&code), Ok(felt(1)), Ok(felt(2))),
        Ok(DeclareRequest {
            sierra: "sierra".to_string(),
            class_hash: felt(1),
            casm_class_hash: felt(2),
            max_fee: Some(felt(9)),
        })
    );
    assert_eq!(
        plan_declare("C", None, None, Ok(felt(1)), Ok(felt(2))),
        Err(StarknetCommandError::ContractArtifactsNotFound(ContractArtifactsNotFoundData {
            contract_name: "C".to_string()
        }))
    );
    assert_eq!(
        plan_declare("C", None, Some(&code), Err(None), Err(None)),
        unhandleable("Failed to parse sierra artifact")
    );
    assert_eq!(
        plan_declare("C", None, Some(&code), reason("abi"), Err(None)),
        unhandleable("Failed to parse casm artifact")
    );
    assert_eq!(
        plan_declare("C", None, Some(&code), Err(None), reason("builtin")),
        unhandleable("Failed to parse sierra artifact")
    );
    assert_eq!(
        plan_declare("C", None, Some(&code), reason("abi"), reason("builtin")),
        unhandleable("builtin")
    );
    assert_eq!(plan_declare("C", None, Some(&code), reason("abi"), Ok(felt(2))), unhandleable("abi"));
    assert_eq!(
        plan_declare("C", None, Some(&code), Ok(felt(1)), reason("builtin")),
        unhandleable("builtin")
    );
}

#[test]
fn submission_is_concluded_by_kind() {
    let response = DeclareResponse { class_hash: felt(1), transaction_hash: felt(2) };
    assert_eq!(conclude_declare(DeclareSubmission::Accepted(response)), Ok(response));
    assert_eq!(
        conclude_declare(DeclareSubmission::Refused(ProviderErrorKind::ClassAlreadyDeclared)),
        Err(StarknetCommandError::Handleable(ProviderErrorKind::ClassAlreadyDeclared))
    );
    let failed = conclude_declare(DeclareSubmission::Failed).unwrap_err();
    assert_eq!(handle_starknet_command_error(failed), "Unknown RPC error");
}

#[test]
fn waiting_failures_become_command_errors() {
    assert_eq!(
        StarknetCommandError::from(WaitForTransactionError::TransactionError(
            TransactionError::Rejected
        )),
        StarknetCommandError::TransactionError(TransactionError::Rejected)
    );
    assert_eq!(
        StarknetCommandError::from(WaitForTransactionError::Other("timed out".to_string())),
        StarknetCommandError::Unhandleable("timed out".to_string())
    );
}

#[test]
fn declare_registers_the_class() {
    let mut run = Run::new();
    let outcome = declare(&mut run, &schedule(), "HelloStarknet", &contracts(), &no_limit()).unwrap();

    assert_eq!(outcome.class_hash, expected_sierra_hash());
    assert_eq!(outcome.casm_class_hash, expected_casm_hash());
    assert_eq!(outcome.transaction_hash, None);
    assert_eq!(
        outcome.resource_report,
        ResourceReport {
            gas: 300,
            vm_resources: zero_vm_resources(),
            syscall_counts: zero_syscall_counts()
        }
    );
    assert_eq!(
        run.state.get_class(None, outcome.class_hash),
        StateRead::Found(StarknetContractArtifacts::new(SIERRA.to_string(), CASM.to_string()))
    );
}

#[test]
fn failed_declare_registers_nothing() {
    let mut run = Run::new();
    let error = declare(&mut run, &schedule(), "Missing", &contracts(), &no_limit()).unwrap_err();
    assert_eq!(
        error,
        DispatchError::Command(StarknetCommandError::ContractArtifactsNotFound(
            ContractArtifactsNotFoundData { contract_name: "Missing".to_string() }
        ))
    );
    let error = declare(&mut run, &schedule(), "BrokenCasm", &contracts(), &no_limit()).unwrap_err();
    assert_eq!(
        error,
        DispatchError::Command(StarknetCommandError::Unhandleable(
            "Failed to parse casm artifact".to_string()
        ))
    );
    assert_eq!(run.state.get_class(None, expected_sierra_hash()), StateRead::NotFound);
}

#[test]
fn declare_above_the_ceiling_changes_nothing() {
    let mut run = Run::new();
    let error = declare(&mut run, &schedule(), "HelloStarknet", &contracts(), &too_low()).unwrap_err();
    assert_eq!(error, DispatchError::FeeExceeded { ceiling: 99, estimate: 100 });
    assert_eq!(run.state.get_class(None, expected_sierra_hash()), StateRead::NotFound);
}

#[test]
fn address_follows_from_salt_class_and_arguments() {
    let salt = felt_from_hex("0x0018a7a329d1d85b621350f2b5fc9c64b2e57dfe708525f0aff2c90de1e5b9c8");
    let class_hash =
        felt_from_hex("0x0750cd490a7cd1572411169eaa8be292325990d33c5d4733655fe6b926985062");
    let mut run = Run::new();
    run.state.set_class(class_hash, StarknetContractArtifacts::new(String::new(), String::new()));

    let task = ready(begin_deploy(&mut run, class_hash, &vec![felt(1)], salt, &no_limit()));

    assert_eq!(
        task.address,
        felt_from_hex("0x00da27ef7c3869c3a6cc6a0f7bf07a51c3e590825adba8a51cae27d815839eec")
    );
    assert_eq!(task.operation, OperationClass::Deploy);
    assert_eq!(task.class_hash, class_hash);
    assert_eq!(task.selector, None);
    assert_eq!(task.calldata, vec![felt(1)]);
    assert_eq!(run.state.class_hash_at(task.address), Some(class_hash));

    let mut again = Run::new();
    again.state.set_class(class_hash, StarknetContractArtifacts::new(String::new(), String::new()));
    let same = ready(begin_deploy(&mut again, class_hash, &vec![felt(1)], salt, &no_limit()));
    assert_eq!(same.address, task.address);
    let other = ready(begin_deploy(&mut again, class_hash, &vec![felt(2)], salt, &no_limit()));
    assert_ne!(other.address, task.address);
}

#[test]
fn value_outside_the_field_has_no_address() {
    let (mut run, class_hash) = declared_run();
    let outside = Felt::new(u128::MAX, u128::MAX);
    let error = begin_deploy(&mut run, class_hash, &vec![], outside, &no_limit()).unwrap_err();
    assert_eq!(
        error,
        DispatchError::Command(StarknetCommandError::Unhandleable(
            "Failed to compute the address of the contract".to_string()
        ))
    );
    let error = begin_deploy(&mut run, class_hash, &vec![outside], felt(0), &no_limit()).unwrap_err();
    assert!(matches!(error, DispatchError::Command(StarknetCommandError::Unhandleable(_))));
}

#[test]
fn deploy_needs_a_declared_class() {
    let mut run = Run::new();
    let error = begin_deploy(&mut run, felt(0xc0), &vec![], felt(0), &no_limit()).unwrap_err();
    assert_eq!(
        error,
        DispatchError::Command(StarknetCommandError::Handleable(
            ProviderErrorKind::ClassHashNotFound
        ))
    );
    assert_eq!(
        handle_starknet_command_error(classify_refusal(error)),
        "Provided class hash does not exist"
    );
}

#[test]
fn deploy_on_a_fork_asks_for_the_class_first() {
    let block = BlockId::Number(9);
    let mut run = Run::forked(block);
    let step = begin_deploy(&mut run, felt(0xc0), &vec![], felt(0), &no_limit()).unwrap();
    assert!(matches!(
        step,
        Step::Fetch(request)
            if request == ForkRequest { query: ForkQuery::Class(felt(0xc0)), block }
    ));

    let class = StarknetContractArtifacts::new("s".to_string(), "c".to_string());
    run.fork.as_mut().unwrap().record_class(felt(0xc0), Ok(Fetched::Value(class))).unwrap();
    let task = ready(begin_deploy(&mut run, felt(0xc0), &vec![], felt(0), &no_limit()));
    assert_eq!(run.state.class_hash_at(task.address), Some(felt(0xc0)));

    run.fork.as_mut().unwrap().record_class(felt(0xc1), Ok(Fetched::NotFound)).unwrap();
    assert!(begin_deploy(&mut run, felt(0xc1), &vec![], felt(0), &no_limit()).is_err());
}

#[test]
fn deploy_above_the_ceiling_changes_nothing() {
    let (mut run, class_hash) = declared_run();
    let (mut twin, _) = declared_run();
    let before = ready(begin_deploy(&mut twin, class_hash, &vec![], felt(0), &no_limit()));
    let error = begin_deploy(&mut run, class_hash, &vec![], felt(0), &too_low()).unwrap_err();
    assert_eq!(error, DispatchError::FeeExceeded { ceiling: 99, estimate: 100 });
    assert_eq!(run.state.class_hash_at(before.address), None);
    assert_eq!(
        handle_starknet_command_error(classify_refusal(error)),
        "Max fee is smaller than the minimal transaction cost"
    );
}

#[test]
fn deployment_without_constructor_costs_the_base() {
    let (mut run, class_hash) = declared_run();
    let task = ready(begin_deploy(&mut run, class_hash, &vec![], felt(0), &no_limit()));
    let address = task.address;

    let outcome = finish_execution(
        &mut run,
        &schedule(),
        task,
        &InterceptionLayer::new(),
        success(vec![], zero_vm_resources()),
    );

    assert_eq!(
        classify_deploy(address, outcome),
        Ok(DeployOutcome {
            contract_address: address,
            resource_report: ResourceReport {
                gas: 700,
                vm_resources: zero_vm_resources(),
                syscall_counts: zero_syscall_counts()
            }
        })
    );
    assert_eq!(run.state.class_hash_at(address), Some(class_hash));
}

#[test]
fn deployment_with_constructor_adds_what_the_constructor_used() {
    let (mut run, class_hash) = declared_run();
    let task = ready(begin_deploy(&mut run, class_hash, &vec![felt(1)], felt(0), &no_limit()));
    let address = task.address;
    let mut layer = InterceptionLayer::new();
    layer.storage_write(&mut run.state, address, felt(1), felt(1));
    let mut builtin_counts = zero_builtin_counts();
    builtin_counts.set(BuiltinName::RangeCheck, 2);
    let vm = VmResources { n_steps: 88, n_memory_holes: 0, builtin_counts };

    let outcome = finish_execution(&mut run, &schedule(), task, &layer, success(vec![], vm));

    let report = classify_deploy(address, outcome).unwrap().resource_report;
    assert_eq!(report.vm_resources.n_steps, 88);
    assert_eq!(report.vm_resources.n_memory_holes, 0);
    assert_eq!(report.vm_resources.builtin_counts.range_check, 2);
    assert_eq!(report.syscall_counts.storage_write, 1);
    assert_eq!(report.syscall_counts.storage_read, 0);
    // 700 + 88 * 1 + 2 * 16 + 1 * 20
    assert_eq!(report.gas, 700 + 140);
    assert_eq!(run.state.get_storage(None, address, felt(1)), StateRead::Found(felt(1)));
}

#[test]
fn failed_constructor_leaves_no_contract() {
    let (mut run, class_hash) = declared_run();
    let task = ready(begin_deploy(&mut run, class_hash, &vec![], felt(0), &no_limit()));
    let address = task.address;
    let mut layer = InterceptionLayer::new();
    layer.storage_write(&mut run.state, address, felt(1), felt(1));

    let outcome = finish_execution(
        &mut run,
        &schedule(),
        task,
        &layer,
        ended(EngineVerdict::Revert { reason: "constructor failed".to_string() }),
    );

    assert_eq!(
        classify_deploy(address, outcome),
        Err(StarknetCommandError::TransactionError(TransactionError::Reverted(ErrorData {
            data: "constructor failed".to_string()
        })))
    );
    assert_eq!(run.state.class_hash_at(address), None);
    assert_eq!(run.state.get_storage(None, address, felt(1)), StateRead::NotFound);
    assert!(matches!(run.state.get_class(None, class_hash), StateRead::Found(_)));
}

#[test]
fn call_needs_a_contract_at_the_address() {
    let mut run = Run::new();
    let error = begin_call(&mut run, felt(0xa), felt(7), &vec![], &no_limit()).unwrap_err();
    assert_eq!(
        error,
        DispatchError::Command(StarknetCommandError::Handleable(
            ProviderErrorKind::ContractNotFound
        ))
    );
    assert!(begin_invoke(&mut run, felt(0xa), felt(7), &vec![], &no_limit()).is_err());
}

#[test]
fn call_and_invoke_above_the_ceiling_are_refused() {
    let (mut run, _, address) = deployed_run();
    run.state.set_storage(address, felt(1), felt(5));
    assert_eq!(
        begin_call(&mut run, address, felt(7), &vec![], &too_low()).unwrap_err(),
        DispatchError::FeeExceeded { ceiling: 99, estimate: 100 }
    );
    assert_eq!(
        begin_invoke(&mut run, address, felt(7), &vec![], &too_low()).unwrap_err(),
        DispatchError::FeeExceeded { ceiling: 99, estimate: 100 }
    );
    assert_eq!(run.state.get_storage(None, address, felt(1)), StateRead::Found(felt(5)));
}

#[test]
fn call_runs_the_deployed_class_or_the_elected_one() {
    let (mut run, class_hash, address) = deployed_run();
    let task = begin_call(&mut run, address, felt(7), &vec![felt(123)], &no_limit()).unwrap();
    assert_eq!(task.operation, OperationClass::Call);
    assert_eq!(task.address, address);
    assert_eq!(task.class_hash, class_hash);
    assert_eq!(task.selector, Some(felt(7)));
    assert_eq!(task.calldata, vec![felt(123)]);

    run.cheats.apply_cheat(
        CheatScope::Target(address),
        Cheat::Elect(felt(0xe1ec7)),
        CheatSpan::UntilCanceled,
    );
    let task = begin_invoke(&mut run, address, felt(7), &vec![], &no_limit()).unwrap();
    assert_eq!(task.operation, OperationClass::Invoke);
    assert_eq!(task.class_hash, felt(0xe1ec7));
}

#[test]
fn writes_of_a_call_are_gone_and_those_of_an_invoke_stay() {
    let (mut run, _, address) = deployed_run();
    run.state.set_storage(address, felt(1), felt(5));

    let task = begin_call(&mut run, address, felt(7), &vec![felt(123)], &no_limit()).unwrap();
    let mut layer = InterceptionLayer::new();
    layer.storage_write(&mut run.state, address, felt(1), felt(128));
    let outcome = finish_execution(
        &mut run,
        &schedule(),
        task,
        &layer,
        success(vec![felt(128)], zero_vm_resources()),
    );
    assert!(matches!(outcome, ExecutionOutcome::Success { .. }));
    assert_eq!(run.state.get_storage(None, address, felt(1)), StateRead::Found(felt(5)));

    let task = begin_invoke(&mut run, address, felt(7), &vec![felt(123)], &no_limit()).unwrap();
    let mut layer = InterceptionLayer::new();
    layer.storage_write(&mut run.state, address, felt(1), felt(128));
    let outcome = finish_execution(
        &mut run,
        &schedule(),
        task,
        &layer,
        success(vec![], zero_vm_resources()),
    );
    assert!(matches!(outcome, ExecutionOutcome::Success { .. }));
    assert_eq!(run.state.get_storage(None, address, felt(1)), StateRead::Found(felt(128)));
}

#[test]
fn writes_of_a_failed_invoke_are_gone() {
    let (mut run, _, address) = deployed_run();
    run.state.set_storage(address, felt(1), felt(5));
    let verdicts = vec![
        EngineVerdict::Revert { reason: "no".to_string() },
        EngineVerdict::Fault { detail: "vm".to_string() },
        EngineVerdict::Provider { kind: ProviderErrorKind::BlockNotFound },
    ];
    for verdict in verdicts {
        let task = begin_invoke(&mut run, address, felt(7), &vec![], &no_limit()).unwrap();
        let mut layer = InterceptionLayer::new();
        layer.storage_write(&mut run.state, address, felt(1), felt(128));
        layer.replace_class(&mut run.state, address, felt(0xbad));
        let outcome = finish_execution(&mut run, &schedule(), task, &layer, ended(verdict));
        assert!(!matches!(outcome, ExecutionOutcome::Success { .. }));
        assert_eq!(run.state.get_storage(None, address, felt(1)), StateRead::Found(felt(5)));
        assert_ne!(run.state.class_hash_at(address), Some(felt(0xbad)));
    }
}

#[test]
fn successful_call_reports_what_it_used() {
    let (mut run, _, address) = deployed_run();
    let task = begin_invoke(&mut run, address, felt(7), &vec![felt(123)], &no_limit()).unwrap();
    let mut layer = InterceptionLayer::new();
    layer.storage_read(&mut run.state, None, address, felt(1));
    layer.storage_write(&mut run.state, address, felt(1), felt(123));
    let mut builtin_counts = zero_builtin_counts();
    builtin_counts.set(BuiltinName::RangeCheck, 2);
    let vm = VmResources { n_steps: 126, n_memory_holes: 0, builtin_counts };
    let emitted = Event { from_address: address, keys: vec![felt(1)], data: vec![felt(123)] };
    let result = EngineResult {
        verdict: EngineVerdict::Success { return_data: vec![felt(123)] },
        vm_resources: vm,
        events: vec![emitted.clone()],
    };

    let outcome = finish_execution(&mut run, &schedule(), task, &layer, result);

    let expected_report = ResourceReport {
        // 100 + 126 * 1 + 2 * 16 + 1 * 10 + 1 * 20
        gas: 288,
        vm_resources: vm,
        syscall_counts: layer.observed,
    };
    assert_eq!(
        outcome,
        ExecutionOutcome::Success {
            return_data: vec![felt(123)],
            events: vec![emitted],
            resource_report: expected_report,
        }
    );
    assert_eq!(layer.observed.storage_read, 1);
    assert_eq!(layer.observed.storage_write, 1);
    assert_eq!(
        classify_call(outcome),
        Ok(CallOutcome { return_data: vec![felt(123)], resource_report: expected_report })
    );
}

#[test]
fn failures_are_classified_by_kind() {
    assert_eq!(
        classify_call(ExecutionOutcome::Revert { reason: "balance too low".to_string() }),
        Err(StarknetCommandError::TransactionError(TransactionError::Reverted(ErrorData {
            data: "balance too low".to_string()
        })))
    );
    assert_eq!(
        classify_call(ExecutionOutcome::EngineError { detail: "hint failed".to_string() }),
        Err(StarknetCommandError::Unhandleable("hint failed".to_string()))
    );
    assert_eq!(
        classify_call(ExecutionOutcome::ProviderError {
            detail: ProviderErrorKind::InvalidTransactionNonce
        }),
        Err(StarknetCommandError::Handleable(ProviderErrorKind::InvalidTransactionNonce))
    );
    assert_eq!(
        classify_deploy(felt(1), ExecutionOutcome::EngineError { detail: "x".to_string() }),
        Err(StarknetCommandError::Unhandleable("x".to_string()))
    );
    let reverted =
        classify_call(ExecutionOutcome::Revert { reason: "balance too low".to_string() })
            .unwrap_err();
    assert_eq!(
        handle_starknet_command_error(reverted),
        "Transaction has been reverted = balance too low"
    );
    assert_eq!(
        classify_refusal(DispatchError::Command(StarknetCommandError::Unhandleable(
            "as it came".to_string()
        ))),
        StarknetCommandError::Unhandleable("as it came".to_string())
    );
}

const MODULUS_HI: u128 = 0x0800_0000_0000_0011_0000_0000_0000_0000;

#[test]
fn field_ends_below_the_modulus() {
    assert!(Felt::zero().is_in_field());
    assert!(Felt::new(MODULUS_HI - 1, u128::MAX).is_in_field());
    assert!(Felt::new(MODULUS_HI, 0).is_in_field());
    assert!(!Felt::new(MODULUS_HI, 1).is_in_field());
    assert!(!Felt::new(MODULUS_HI + 1, 0).is_in_field());
    assert!(!Felt::new(u128::MAX, u128::MAX).is_in_field());
}

#[test]
fn there_is_an_address_exactly_for_elements_of_the_field() {
    let (mut run, class_hash) = declared_run();
    let last = Felt::new(MODULUS_HI, 0);
    let modulus = Felt::new(MODULUS_HI, 1);

    let task = ready(begin_deploy(&mut run, class_hash, &vec![last], last, &no_limit()));
    assert!(task.address.is_in_field());

    assert!(begin_deploy(&mut run, class_hash, &vec![], modulus, &no_limit()).is_err());
    assert!(begin_deploy(&mut run, class_hash, &vec![felt(1), modulus], felt(0), &no_limit())
        .is_err());
}

fn command(contract_name: &str, salt: Option<Felt>) -> DeclareDeploy {
    DeclareDeploy {
        contract_name: contract_name.to_string(),
        deploy_args: DeployArgs { constructor_calldata: vec![felt(1)], salt },
        fee_token: FeeToken::Eth,
        rpc: RpcArgs { url: None },
    }
}

#[test]
fn salt_is_the_one_given_else_the_one_generated() {
    assert_eq!(command("C", Some(felt(5))).deploy_args.salt_or(felt(9)), felt(5));
    assert_eq!(command("C", None).deploy_args.salt_or(felt(9)), felt(9));
}

#[test]
fn declare_and_deploy_at_once() {
    let mut run = Run::new();
    let (outcome, step) = begin_declare_deploy(
        &mut run,
        &schedule(),
        &command("HelloStarknet", Some(felt(5))),
        felt(9),
        &contracts(),
        &no_limit(),
    )
    .unwrap();
    let task = ready(Ok(step));

    assert_eq!(outcome.class_hash, expected_sierra_hash());
    assert_eq!(task.class_hash, outcome.class_hash);
    assert_eq!(task.calldata, vec![felt(1)]);
    assert_eq!(run.state.class_hash_at(task.address), Some(outcome.class_hash));

    let mut twin = Run::new();
    declare(&mut twin, &schedule(), "HelloStarknet", &contracts(), &no_limit()).unwrap();
    let given = ready(begin_deploy(&mut twin, outcome.class_hash, &vec![felt(1)], felt(5), &no_limit()));
    assert_eq!(task.address, given.address);

    let mut other = Run::new();
    let (_, step) = begin_declare_deploy(
        &mut other,
        &schedule(),
        &command("HelloStarknet", None),
        felt(9),
        &contracts(),
        &no_limit(),
    )
    .unwrap();
    let generated = ready(begin_deploy(&mut twin, outcome.class_hash, &vec![felt(1)], felt(9), &no_limit()));
    assert_eq!(ready(Ok(step)).address, generated.address);
    assert_ne!(generated.address, given.address);
}

#[test]
fn declare_and_deploy_fails_as_its_parts_do() {
    let mut run = Run::new();
    let missing = begin_declare_deploy(
        &mut run,
        &schedule(),
        &command("Missing", None),
        felt(9),
        &contracts(),
        &no_limit(),
    );
    assert!(matches!(
        missing,
        Err(DispatchError::Command(StarknetCommandError::ContractArtifactsNotFound(_)))
    ));

    let refused = begin_declare_deploy(
        &mut run,
        &schedule(),
        &command("HelloStarknet", None),
        felt(9),
        &contracts(),
        &too_low(),
    );
    assert!(matches!(refused, Err(DispatchError::FeeExceeded { ceiling: 99, estimate: 100 })));
    assert_eq!(run.state.get_class(None, expected_sierra_hash()), StateRead::NotFound);

    let outside = begin_declare_deploy(
        &mut run,
        &schedule(),
        &command("HelloStarknet", Some(Felt::new(u128::MAX, 0))),
        felt(9),
        &contracts(),
        &no_limit(),
    );
    assert!(matches!(
        outside,
        Err(DispatchError::Command(StarknetCommandError::Unhandleable(_)))
    ));
    // The declaration stays.
    assert!(matches!(run.state.get_class(None, expected_sierra_hash()), StateRead::Found(_)));
}

#[test]
fn deployment_is_planned_at_the_given_address() {
    let mut run = Run::new();
    run.state.set_storage(felt(0xa), felt(1), felt(5));

    let task = plan_deploy(&mut run, felt(0xc0), &vec![felt(1), felt(2)], Some(felt(0xa))).unwrap();

    assert_eq!(task.operation, OperationClass::Deploy);
    assert_eq!(task.address, felt(0xa));
    assert_eq!(task.class_hash, felt(0xc0));
    assert_eq!(task.selector, None);
    assert_eq!(task.calldata, vec![felt(1), felt(2)]);
    assert_eq!(run.state.class_hash_at(felt(0xa)), Some(felt(0xc0)));
    assert_eq!(task.checkpoint.class_hash_at(felt(0xa)), None);
    let mut checkpoint = task.checkpoint;
    assert_eq!(checkpoint.get_storage(None, felt(0xa), felt(1)), StateRead::Found(felt(5)));
}

#[test]
fn deployment_without_address_fails_and_changes_nothing() {
    let mut run = Run::new();
    let error = plan_deploy(&mut run, felt(0xc0), &vec![], None).unwrap_err();
    assert_eq!(
        error,
        DispatchError::Command(StarknetCommandError::Unhandleable(
            "Failed to compute the address of the contract".to_string()
        ))
    );
    assert_eq!(run.state.class_hash_at(felt(0xa)), None);
}
