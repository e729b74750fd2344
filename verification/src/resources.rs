//! The resource accountant: from the raw counters of one operation to its gas.

use vstd::prelude::*;

verus! {

/// The builtins of the virtual machine.
#[derive(Clone, Copy, Debug, PartialEq, Eq, Structural, Hash)]
pub enum BuiltinName {
    Output,
    Pedersen,
    RangeCheck,
    Ecdsa,
    Bitwise,
    EcOp,
    Keccak,
    Poseidon,
    SegmentArena,
}

/// The system calls that the interception layer observes.
#[derive(Clone, Copy, Debug, PartialEq, Eq, Structural, Hash)]
pub enum SyscallKind {
    StorageRead,
    StorageWrite,
    GetCaller,
    GetBlockInfo,
    CallContract,
    EmitEvent,
    SendL1Message,
    ReplaceClass,
}

/// The operations that are accounted for.
#[derive(Clone, Copy, Debug, PartialEq, Eq, Structural, Hash)]
pub enum OperationClass {
    Declare,
    Deploy,
    Call,
    Invoke,
}

/// One number for each builtin: how often it was used, or what one use costs.
#[derive(Clone, Copy, Debug, PartialEq, Eq, Structural)]
pub struct PerBuiltin<T> {
    pub output: T,
    pub pedersen: T,
    pub range_check: T,
    pub ecdsa: T,
    pub bitwise: T,
    pub ec_op: T,
    pub keccak: T,
    pub poseidon: T,
    pub segment_arena: T,
}

/// One number for each system call: how often it was made, or what one call costs.
#[derive(Clone, Copy, Debug, PartialEq, Eq, Structural)]
pub struct PerSyscall<T> {
    pub storage_read: T,
    pub storage_write: T,
    pub get_caller: T,
    pub get_block_info: T,
    pub call_contract: T,
    pub emit_event: T,
    pub send_l1_message: T,
    pub replace_class: T,
}

/// One number for each class of operation.
#[derive(Clone, Copy, Debug, PartialEq, Eq, Structural)]
pub struct PerOperation<T> {
    pub declare: T,
    pub deploy: T,
    pub call: T,
    pub invoke: T,
}

/// How often each builtin was used.
pub type BuiltinCounts = PerBuiltin<u64>;

/// How often each system call was made.
pub type SyscallCounts = PerSyscall<u64>;

/// The counters that the virtual machine reports for one operation.
#[derive(Clone, Copy, Debug, PartialEq, Eq, Structural)]
pub struct VmResources {
    pub n_steps: u64,
    pub n_memory_holes: u64,
    pub builtin_counts: BuiltinCounts,
}

/// A versioned table of weights, in units of which `units_per_gas` make one gas.
#[derive(Clone, Copy, Debug, PartialEq, Eq, Structural)]
pub struct FeeSchedule {
    pub version: u32,
    pub units_per_gas: u32,
    pub step_cost: u32,
    pub builtin_costs: PerBuiltin<u32>,
    pub syscall_costs: PerSyscall<u32>,
    pub base_costs: PerOperation<u32>,
}

/// What one operation used, and what that costs in units of the schedule.
#[derive(Clone, Copy, Debug, PartialEq, Eq, Structural)]
pub struct ResourceReport {
    pub gas: u128,
    pub vm_resources: VmResources,
    pub syscall_counts: SyscallCounts,
}

impl<T: Copy> PerBuiltin<T> {
    /// The number that stands for the builtin.
    pub open spec fn of(self, name: BuiltinName) -> T {
        match name {
            BuiltinName::Output => self.output,
            BuiltinName::Pedersen => self.pedersen,
            BuiltinName::RangeCheck => self.range_check,
            BuiltinName::Ecdsa => self.ecdsa,
            BuiltinName::Bitwise => self.bitwise,
            BuiltinName::EcOp => self.ec_op,
            BuiltinName::Keccak => self.keccak,
            BuiltinName::Poseidon => self.poseidon,
            BuiltinName::SegmentArena => self.segment_arena,
        }
    }

    /// The number that stands for the builtin.
    pub fn get(&self, name: BuiltinName) -> (r: T)
        ensures
            r == self.of(name),
    {
        match name {
            BuiltinName::Output => self.output,
            BuiltinName::Pedersen => self.pedersen,
            BuiltinName::RangeCheck => self.range_check,
            BuiltinName::Ecdsa => self.ecdsa,
            BuiltinName::Bitwise => self.bitwise,
            BuiltinName::EcOp => self.ec_op,
            BuiltinName::Keccak => self.keccak,
            BuiltinName::Poseidon => self.poseidon,
            BuiltinName::SegmentArena => self.segment_arena,
        }
    }

    /// The same numbers but for one builtin.
    pub open spec fn with(self, name: BuiltinName, value: T) -> Self {
        match name {
            BuiltinName::Output => PerBuiltin { output: value, ..self },
            BuiltinName::Pedersen => PerBuiltin { pedersen: value, ..self },
            BuiltinName::RangeCheck => PerBuiltin { range_check: value, ..self },
            BuiltinName::Ecdsa => PerBuiltin { ecdsa: value, ..self },
            BuiltinName::Bitwise => PerBuiltin { bitwise: value, ..self },
            BuiltinName::EcOp => PerBuiltin { ec_op: value, ..self },
            BuiltinName::Keccak => PerBuiltin { keccak: value, ..self },
            BuiltinName::Poseidon => PerBuiltin { poseidon: value, ..self },
            BuiltinName::SegmentArena => PerBuiltin { segment_arena: value, ..self },
        }
    }

    /// Gives one builtin a new number.
    pub fn set(&mut self, name: BuiltinName, value: T)
        ensures
            *final(self) == old(self).with(name, value),
    {
        match name {
            BuiltinName::Output => self.output = value,
            BuiltinName::Pedersen => self.pedersen = value,
            BuiltinName::RangeCheck => self.range_check = value,
            BuiltinName::Ecdsa => self.ecdsa = value,
            BuiltinName::Bitwise => self.bitwise = value,
            BuiltinName::EcOp => self.ec_op = value,
            BuiltinName::Keccak => self.keccak = value,
            BuiltinName::Poseidon => self.poseidon = value,
            BuiltinName::SegmentArena => self.segment_arena = value,
        }
    }
}

impl<T: Copy> PerSyscall<T> {
    /// The number that stands for the system call.
    pub open spec fn of(self, kind: SyscallKind) -> T {
        match kind {
            SyscallKind::StorageRead => self.storage_read,
            SyscallKind::StorageWrite => self.storage_write,
            SyscallKind::GetCaller => self.get_caller,
            SyscallKind::GetBlockInfo => self.get_block_info,
            SyscallKind::CallContract => self.call_contract,
            SyscallKind::EmitEvent => self.emit_event,
            SyscallKind::SendL1Message => self.send_l1_message,
            SyscallKind::ReplaceClass => self.replace_class,
        }
    }

    /// The number that stands for the system call.
    pub fn get(&self, kind: SyscallKind) -> (r: T)
        ensures
            r == self.of(kind),
    {
        match kind {
            SyscallKind::StorageRead => self.storage_read,
            SyscallKind::StorageWrite => self.storage_write,
            SyscallKind::GetCaller => self.get_caller,
            SyscallKind::GetBlockInfo => self.get_block_info,
            SyscallKind::CallContract => self.call_contract,
            SyscallKind::EmitEvent => self.emit_event,
            SyscallKind::SendL1Message => self.send_l1_message,
            SyscallKind::ReplaceClass => self.replace_class,
        }
    }

    /// The same numbers but for one system call.
    pub open spec fn with(self, kind: SyscallKind, value: T) -> Self {
        match kind {
            SyscallKind::StorageRead => PerSyscall { storage_read: value, ..self },
            SyscallKind::StorageWrite => PerSyscall { storage_write: value, ..self },
            SyscallKind::GetCaller => PerSyscall { get_caller: value, ..self },
            SyscallKind::GetBlockInfo => PerSyscall { get_block_info: value, ..self },
            SyscallKind::CallContract => PerSyscall { call_contract: value, ..self },
            SyscallKind::EmitEvent => PerSyscall { emit_event: value, ..self },
            SyscallKind::SendL1Message => PerSyscall { send_l1_message: value, ..self },
            SyscallKind::ReplaceClass => PerSyscall { replace_class: value, ..self },
        }
    }

    /// Gives one system call a new number.
    pub fn set(&mut self, kind: SyscallKind, value: T)
        ensures
            *final(self) == old(self).with(kind, value),
    {
        match kind {
            SyscallKind::StorageRead => self.storage_read = value,
            SyscallKind::StorageWrite => self.storage_write = value,
            SyscallKind::GetCaller => self.get_caller = value,
            SyscallKind::GetBlockInfo => self.get_block_info = value,
            SyscallKind::CallContract => self.call_contract = value,
            SyscallKind::EmitEvent => self.emit_event = value,
            SyscallKind::SendL1Message => self.send_l1_message = value,
            SyscallKind::ReplaceClass => self.replace_class = value,
        }
    }
}

impl<T: Copy> PerOperation<T> {
    /// The number that stands for the class of operation.
    pub open spec fn of(self, operation: OperationClass) -> T {
        match operation {
            OperationClass::Declare => self.declare,
            OperationClass::Deploy => self.deploy,
            OperationClass::Call => self.call,
            OperationClass::Invoke => self.invoke,
        }
    }

    /// The number that stands for the class of operation.
    pub fn get(&self, operation: OperationClass) -> (r: T)
        ensures
            r == self.of(operation),
    {
        match operation {
            OperationClass::Declare => self.declare,
            OperationClass::Deploy => self.deploy,
            OperationClass::Call => self.call,
            OperationClass::Invoke => self.invoke,
        }
    }
}

/// No use of any builtin.
pub open spec fn no_builtins() -> BuiltinCounts {
    PerBuiltin {
        output: 0,
        pedersen: 0,
        range_check: 0,
        ecdsa: 0,
        bitwise: 0,
        ec_op: 0,
        keccak: 0,
        poseidon: 0,
        segment_arena: 0,
    }
}

/// No system call.
pub open spec fn no_syscalls() -> SyscallCounts {
    PerSyscall {
        storage_read: 0,
        storage_write: 0,
        get_caller: 0,
        get_block_info: 0,
        call_contract: 0,
        emit_event: 0,
        send_l1_message: 0,
        replace_class: 0,
    }
}

/// The counters of a machine that has not run.
pub open spec fn idle_machine() -> VmResources {
    VmResources { n_steps: 0, n_memory_holes: 0, builtin_counts: no_builtins() }
}

/// Counters that are all zero.
pub fn zero_builtin_counts() -> (r: BuiltinCounts)
    ensures
        r == no_builtins(),
{
    PerBuiltin {
        output: 0,
        pedersen: 0,
        range_check: 0,
        ecdsa: 0,
        bitwise: 0,
        ec_op: 0,
        keccak: 0,
        poseidon: 0,
        segment_arena: 0,
    }
}

/// Counters that are all zero.
pub fn zero_syscall_counts() -> (r: SyscallCounts)
    ensures
        r == no_syscalls(),
{
    PerSyscall {
        storage_read: 0,
        storage_write: 0,
        get_caller: 0,
        get_block_info: 0,
        call_contract: 0,
        emit_event: 0,
        send_l1_message: 0,
        replace_class: 0,
    }
}

/// The counters of a machine that has not run.
pub fn zero_vm_resources() -> (r: VmResources)
    ensures
        r == idle_machine(),
{
    VmResources { n_steps: 0, n_memory_holes: 0, builtin_counts: zero_builtin_counts() }
}

/// What the uses of builtins cost: for each builtin its weight times its count.
pub open spec fn builtins_cost(costs: PerBuiltin<u32>, counts: BuiltinCounts) -> int {
    costs.output * counts.output + costs.pedersen * counts.pedersen + costs.range_check
        * counts.range_check + costs.ecdsa * counts.ecdsa + costs.bitwise * counts.bitwise
        + costs.ec_op * counts.ec_op + costs.keccak * counts.keccak + costs.poseidon
        * counts.poseidon + costs.segment_arena * counts.segment_arena
}

/// What the system calls cost: for each kind its weight times its count.
pub open spec fn syscalls_cost(costs: PerSyscall<u32>, counts: SyscallCounts) -> int {
    costs.storage_read * counts.storage_read + costs.storage_write * counts.storage_write
        + costs.get_caller * counts.get_caller + costs.get_block_info * counts.get_block_info
        + costs.call_contract * counts.call_contract + costs.emit_event * counts.emit_event
        + costs.send_l1_message * counts.send_l1_message + costs.replace_class
        * counts.replace_class
}

/// The gas of one operation, in units of the schedule: the base cost of its class,
/// the steps, the builtins and the system calls, each weighted as the schedule says.
/// Memory holes carry no weight.
pub open spec fn gas_cost(
    schedule: FeeSchedule,
    operation: OperationClass,
    vm: VmResources,
    syscalls: SyscallCounts,
) -> int {
    schedule.base_costs.of(operation) + schedule.step_cost * vm.n_steps + builtins_cost(
        schedule.builtin_costs,
        vm.builtin_counts,
    ) + syscalls_cost(schedule.syscall_costs, syscalls)
}

/// A weight times a count.
fn weighted(cost: u32, count: u64) -> (r: u128)
    ensures
        r == cost * count,
        r <= 0xffff_ffff * 0xffff_ffff_ffff_ffff,
{
    assert(cost * count <= 0xffff_ffff * 0xffff_ffff_ffff_ffff) by (nonlinear_arith)
        requires
            cost <= 0xffff_ffff,
            count <= 0xffff_ffff_ffff_ffff,
    ;
    assert(0 <= cost * count) by (nonlinear_arith);
    (cost as u128) * (count as u128)
}

/// What the uses of builtins cost.
fn cost_of_builtins(costs: &PerBuiltin<u32>, counts: &BuiltinCounts) -> (r: u128)
    ensures
        r == builtins_cost(*costs, *counts),
        r <= 9 * (0xffff_ffff * 0xffff_ffff_ffff_ffff),
{
    let a = weighted(costs.output, counts.output);
    let b = weighted(costs.pedersen, counts.pedersen);
    let c = weighted(costs.range_check, counts.range_check);
    let d = weighted(costs.ecdsa, counts.ecdsa);
    let e = weighted(costs.bitwise, counts.bitwise);
    let f = weighted(costs.ec_op, counts.ec_op);
    let g = weighted(costs.keccak, counts.keccak);
    let h = weighted(costs.poseidon, counts.poseidon);
    let i = weighted(costs.segment_arena, counts.segment_arena);
    a + b + c + d + e + f + g + h + i
}

/// What the system calls cost.
fn cost_of_syscalls(costs: &PerSyscall<u32>, counts: &SyscallCounts) -> (r: u128)
    ensures
        r == syscalls_cost(*costs, *counts),
        r <= 8 * (0xffff_ffff * 0xffff_ffff_ffff_ffff),
{
    let a = weighted(costs.storage_read, counts.storage_read);
    let b = weighted(costs.storage_write, counts.storage_write);
    let c = weighted(costs.get_caller, counts.get_caller);
    let d = weighted(costs.get_block_info, counts.get_block_info);
    let e = weighted(costs.call_contract, counts.call_contract);
    let f = weighted(costs.emit_event, counts.emit_event);
    let g = weighted(costs.send_l1_message, counts.send_l1_message);
    let h = weighted(costs.replace_class, counts.replace_class);
    a + b + c + d + e + f + g + h
}

/// Computes the gas of one operation from its counters.
///
/// The result depends on the schedule and the counters alone.
pub fn estimate_gas(
    schedule: &FeeSchedule,
    operation: OperationClass,
    vm: &VmResources,
    syscalls: &SyscallCounts,
) -> (r: u128)
    ensures
        r == gas_cost(*schedule, operation, *vm, *syscalls),
{
    let base = schedule.base_costs.get(operation) as u128;
    let steps = weighted(schedule.step_cost, vm.n_steps);
    let builtins = cost_of_builtins(&schedule.builtin_costs, &vm.builtin_counts);
    let calls = cost_of_syscalls(&schedule.syscall_costs, syscalls);
    base + steps + builtins + calls
}

/// Builds the report of one operation: its counters as they came, and their gas.
pub fn build_resource_report(
    schedule: &FeeSchedule,
    operation: OperationClass,
    vm: VmResources,
    syscalls: SyscallCounts,
) -> (r: ResourceReport)
    ensures
        r.gas == gas_cost(*schedule, operation, vm, syscalls),
        r.vm_resources == vm,
        r.syscall_counts == syscalls,
{
    let gas = estimate_gas(schedule, operation, &vm, &syscalls);
    ResourceReport { gas, vm_resources: vm, syscall_counts: syscalls }
}

/// The count after one more call: it stops at the largest number it can hold.
pub open spec fn counted_once(count: u64) -> u64 {
    if count < u64::MAX {
        (count + 1) as u64
    } else {
        count
    }
}

/// Counts one more system call of the given kind.
pub fn count_syscall(counts: &mut SyscallCounts, kind: SyscallKind)
    ensures
        *final(counts) == old(counts).with(kind, counted_once(old(counts).of(kind))),
{
    let count = counts.get(kind);
    let next = if count < u64::MAX {
        count + 1
    } else {
        count
    };
    counts.set(kind, next);
}

} // verus!
