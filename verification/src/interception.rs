//! The syscall interception layer: what a contract is told when it asks for a fact
//! that a cheat may override, and the count of what it asked.

use vstd::prelude::*;
use crate::cheats::{
    active_cheat, BlockInfo, BlockInfoOverride, Cheat, CheatEntryView, CheatKey, CheatKind,
    CheatRegistry, CheatRegistryView, CheatScope, CheatSpan, CheatView, Event, L1Message, spied,
};
use crate::felt::{copy_felts, ClassHash, ContractAddress, Felt, Selector, StorageKey};
use crate::fork::{borrowed_fork, ForkQuery, ForkStateReader, StorageSlot};
use crate::resources::{
    count_syscall, counted_once, no_syscalls, zero_syscall_counts, SyscallCounts, SyscallKind,
};
use crate::state::{
    fork_block, fork_storage, state_kept, state_read, CachedState, CachedStateView, StateRead,
};

verus! {

/// The caller that the contract `executing` sees.
pub open spec fn intercepted_caller(
    cheats: Map<CheatKey, CheatEntryView>,
    executing: ContractAddress,
    actual: ContractAddress,
) -> ContractAddress {
    match active_cheat(cheats, CheatKind::Caller, executing) {
        Some(CheatView::Caller(caller)) => caller,
        _ => actual,
    }
}

/// A block with the set parts of an override in place of the true ones.
pub open spec fn overridden_block(actual: BlockInfo, part: BlockInfoOverride) -> BlockInfo {
    BlockInfo {
        timestamp: match part.timestamp {
            Some(timestamp) => timestamp,
            None => actual.timestamp,
        },
        block_number: match part.block_number {
            Some(block_number) => block_number,
            None => actual.block_number,
        },
        sequencer: match part.sequencer {
            Some(sequencer) => sequencer,
            None => actual.sequencer,
        },
    }
}

/// The block that the contract `executing` sees.
pub open spec fn intercepted_block_info(
    cheats: Map<CheatKey, CheatEntryView>,
    executing: ContractAddress,
    actual: BlockInfo,
) -> BlockInfo {
    match active_cheat(cheats, CheatKind::BlockInfo, executing) {
        Some(CheatView::BlockInfo(part)) => overridden_block(actual, part),
        _ => actual,
    }
}

/// The class whose code runs at `address`: the elected one, else the deployed one.
pub open spec fn intercepted_class(
    cheats: Map<CheatKey, CheatEntryView>,
    address: ContractAddress,
    deployed: Option<ClassHash>,
) -> Option<ClassHash> {
    match active_cheat(cheats, CheatKind::Elect, address) {
        Some(CheatView::Elect(class_hash)) => Some(class_hash),
        _ => deployed,
    }
}

/// The canned result of calling `selector` at `callee`, where the call is mocked.
pub open spec fn mocked_call(
    cheats: Map<CheatKey, CheatEntryView>,
    callee: ContractAddress,
    selector: Selector,
) -> Option<Seq<Felt>> {
    match active_cheat(cheats, CheatKind::MockCall(selector), callee) {
        Some(CheatView::MockCall { return_data, .. }) => Some(return_data),
        _ => None,
    }
}

/// The counts after one more system call of the given kind.
pub open spec fn counted(counts: SyscallCounts, kind: SyscallKind) -> SyscallCounts {
    counts.with(kind, counted_once(counts.of(kind)))
}

/// The view of canned data that may be absent.
pub open spec fn optional_felts(data: Option<Vec<Felt>>) -> Option<Seq<Felt>> {
    match data {
        Some(list) => Some(list@),
        None => None,
    }
}

/// The layer between the execution engine and the run, for one operation.
#[derive(Clone, Copy, Debug, PartialEq, Eq)]
pub struct InterceptionLayer {
    /// The system calls observed so far in this operation.
    pub observed: SyscallCounts,
}

impl InterceptionLayer {
    /// A layer that has observed nothing.
    pub fn new() -> (r: Self)
        ensures
            r.observed == no_syscalls(),
    {
        InterceptionLayer { observed: zero_syscall_counts() }
    }

    /// Answers the contract `executing` that asks for its caller.
    ///
    /// The answer is the overriding caller where a cheat is in force for that
    /// contract or for all, else the true one.
    pub fn get_caller(
        &mut self,
        cheats: &CheatRegistry,
        executing: ContractAddress,
        actual: ContractAddress,
    ) -> (r: ContractAddress)
        ensures
            r == intercepted_caller(cheats@.cheats, executing, actual),
            final(self).observed == counted(old(self).observed, SyscallKind::GetCaller),
    {
        count_syscall(&mut self.observed, SyscallKind::GetCaller);
        match cheats.lookup(CheatKind::Caller, executing) {
            Some(Cheat::Caller(caller)) => *caller,
            _ => actual,
        }
    }

    /// Answers the contract `executing` that asks for the block.
    ///
    /// Each part of the answer is the overriding one where a cheat in force sets it,
    /// else the true one.
    pub fn get_block_info(
        &mut self,
        cheats: &CheatRegistry,
        executing: ContractAddress,
        actual: BlockInfo,
    ) -> (r: BlockInfo)
        ensures
            r == intercepted_block_info(cheats@.cheats, executing, actual),
            final(self).observed == counted(old(self).observed, SyscallKind::GetBlockInfo),
    {
        count_syscall(&mut self.observed, SyscallKind::GetBlockInfo);
        match cheats.lookup(CheatKind::BlockInfo, executing) {
            Some(Cheat::BlockInfo(part)) => BlockInfo {
                timestamp: match part.timestamp {
                    Some(timestamp) => timestamp,
                    None => actual.timestamp,
                },
                block_number: match part.block_number {
                    Some(block_number) => block_number,
                    None => actual.block_number,
                },
                sequencer: match part.sequencer {
                    Some(sequencer) => sequencer,
                    None => actual.sequencer,
                },
            },
            _ => actual,
        }
    }

    /// Decides a call of `selector` at `callee`.
    ///
    /// Where the call is mocked the canned data is the answer and the code of the
    /// callee is not to be run; else there is no answer and the call goes on.
    pub fn call_contract(
        &mut self,
        cheats: &CheatRegistry,
        callee: ContractAddress,
        selector: Selector,
    ) -> (r: Option<Vec<Felt>>)
        ensures
            optional_felts(r) == mocked_call(cheats@.cheats, callee, selector),
            final(self).observed == counted(old(self).observed, SyscallKind::CallContract),
    {
        count_syscall(&mut self.observed, SyscallKind::CallContract);
        match cheats.lookup(CheatKind::MockCall(selector), callee) {
            Some(Cheat::MockCall { return_data, .. }) => Some(copy_felts(return_data)),
            _ => None,
        }
    }

    /// The class whose code runs at `address`: the elected one where a cheat is in
    /// force, else the one deployed there.
    pub fn class_to_run(&self, cheats: &CheatRegistry, state: &CachedState, address: ContractAddress) -> (r:
        Option<ClassHash>)
        ensures
            r == intercepted_class(
                cheats@.cheats,
                address,
                if state@.deployed.contains_key(address) {
                    Some(state@.deployed[address])
                } else {
                    None
                },
            ),
    {
        match cheats.lookup(CheatKind::Elect, address) {
            Some(Cheat::Elect(class_hash)) => Some(*class_hash),
            _ => state.class_hash_at(address),
        }
    }

    /// Takes note of an event that a contract emits. The event goes its way; a copy
    /// is captured where the capture takes it in.
    pub fn emit_event(&mut self, cheats: &mut CheatRegistry, event: &Event)
        ensures
            final(cheats)@ == (CheatRegistryView {
                captured: if spied(old(cheats)@.spy, event.from_address) {
                    old(cheats)@.captured.push(event@)
                } else {
                    old(cheats)@.captured
                },
                ..old(cheats)@
            }),
            final(self).observed == counted(old(self).observed, SyscallKind::EmitEvent),
    {
        count_syscall(&mut self.observed, SyscallKind::EmitEvent);
        cheats.observe_event(event);
    }

    /// Takes note of a message that a contract sends. The message goes its way; a
    /// copy joins the waiting messages where the collection is active.
    pub fn send_l1_message(&mut self, cheats: &mut CheatRegistry, message: &L1Message)
        ensures
            final(cheats)@ == (CheatRegistryView {
                messages: if old(cheats)@.collecting {
                    old(cheats)@.messages.push(message@)
                } else {
                    old(cheats)@.messages
                },
                ..old(cheats)@
            }),
            final(self).observed == counted(old(self).observed, SyscallKind::SendL1Message),
    {
        count_syscall(&mut self.observed, SyscallKind::SendL1Message);
        cheats.observe_message(message);
    }

    /// Puts another class at the address of a contract.
    pub fn replace_class(
        &mut self,
        state: &mut CachedState,
        address: ContractAddress,
        class_hash: ClassHash,
    )
        ensures
            final(state)@ == (CachedStateView {
                deployed: old(state)@.deployed.insert(address, class_hash),
                ..old(state)@
            }),
            final(self).observed == counted(old(self).observed, SyscallKind::ReplaceClass),
    {
        count_syscall(&mut self.observed, SyscallKind::ReplaceClass);
        state.set_class_hash_at(address, class_hash);
    }

    /// Reads a storage slot for a contract. The read is counted once it is
    /// answered, not while a request is still needed.
    pub fn storage_read(
        &mut self,
        state: &mut CachedState,
        fork: Option<&ForkStateReader>,
        address: ContractAddress,
        key: StorageKey,
    ) -> (r: StateRead<Felt>)
        ensures
            r@ == state_read(
                old(state)@.storage,
                fork_storage(borrowed_fork(fork)),
                StorageSlot { address, key },
                ForkQuery::Storage(StorageSlot { address, key }),
                fork_block(borrowed_fork(fork)),
            ),
            final(state)@ == (CachedStateView {
                storage: state_kept(
                    old(state)@.storage,
                    fork_storage(borrowed_fork(fork)),
                    StorageSlot { address, key },
                    ForkQuery::Storage(StorageSlot { address, key }),
                    fork_block(borrowed_fork(fork)),
                ),
                ..old(state)@
            }),
            final(self).observed == if r@ is Fetch {
                old(self).observed
            } else {
                counted(old(self).observed, SyscallKind::StorageRead)
            },
    {
        let read = state.get_storage(fork, address, key);
        match &read {
            StateRead::Fetch(_) => {},
            _ => {
                count_syscall(&mut self.observed, SyscallKind::StorageRead);
            },
        }
        read
    }

    /// Writes a storage slot for a contract.
    pub fn storage_write(
        &mut self,
        state: &mut CachedState,
        address: ContractAddress,
        key: StorageKey,
        value: Felt,
    )
        ensures
            final(state)@ == (CachedStateView {
                storage: old(state)@.storage.insert(StorageSlot { address, key }, value),
                ..old(state)@
            }),
            final(self).observed == counted(old(self).observed, SyscallKind::StorageWrite),
    {
        count_syscall(&mut self.observed, SyscallKind::StorageWrite);
        state.set_storage(address, key, value);
    }
}

/// The key under which a caller override for one contract is kept.
pub open spec fn target_caller_key(target: ContractAddress) -> CheatKey {
    CheatKey { kind: CheatKind::Caller, scope: CheatScope::Target(target) }
}

/// The key under which the caller override for all contracts is kept.
pub open spec fn global_caller_key() -> CheatKey {
    CheatKey { kind: CheatKind::Caller, scope: CheatScope::Global }
}

/// A caller override installed for one contract shows while that contract runs, and
/// changes nothing for any other contract, such as one that it calls.
pub proof fn lemma_target_caller_is_scoped(
    cheats: Map<CheatKey, CheatEntryView>,
    target: ContractAddress,
    other: ContractAddress,
    caller: ContractAddress,
    span: CheatSpan,
    actual: ContractAddress,
)
    requires
        other != target,
    ensures
        intercepted_caller(
            cheats.insert(
                target_caller_key(target),
                CheatEntryView { cheat: CheatView::Caller(caller), span },
            ),
            target,
            actual,
        ) == caller,
        intercepted_caller(
            cheats.insert(
                target_caller_key(target),
                CheatEntryView { cheat: CheatView::Caller(caller), span },
            ),
            other,
            actual,
        ) == intercepted_caller(cheats, other, actual),
{
}

/// A caller override installed for all contracts shows at every contract that has
/// none of its own.
pub proof fn lemma_global_caller_reaches_all(
    cheats: Map<CheatKey, CheatEntryView>,
    executing: ContractAddress,
    caller: ContractAddress,
    span: CheatSpan,
    actual: ContractAddress,
)
    requires
        !cheats.contains_key(target_caller_key(executing)),
    ensures
        intercepted_caller(
            cheats.insert(
                global_caller_key(),
                CheatEntryView { cheat: CheatView::Caller(caller), span },
            ),
            executing,
            actual,
        ) == caller,
{
}

/// An override for the very contract that runs wins over the one for all.
pub proof fn lemma_target_wins_over_global(
    cheats: Map<CheatKey, CheatEntryView>,
    kind: CheatKind,
    executing: ContractAddress,
)
    requires
        cheats.contains_key(CheatKey { kind, scope: CheatScope::Target(executing) }),
    ensures
        active_cheat(cheats, kind, executing) == Some(
            cheats[CheatKey { kind, scope: CheatScope::Target(executing) }].cheat,
        ),
{
}

/// Once the overrides for a contract and for all are canceled, the contract sees the
/// true value again.
pub proof fn lemma_canceled_cheat_is_gone(
    cheats: Map<CheatKey, CheatEntryView>,
    kind: CheatKind,
    executing: ContractAddress,
)
    ensures
        active_cheat(
            cheats.remove(CheatKey { kind, scope: CheatScope::Target(executing) }).remove(
                CheatKey { kind, scope: CheatScope::Global },
            ),
            kind,
            executing,
        ) is None,
{
}

/// Installing an override twice is the same as installing the second one alone.
pub proof fn lemma_apply_overwrites(
    cheats: Map<CheatKey, CheatEntryView>,
    key: CheatKey,
    first: CheatEntryView,
    second: CheatEntryView,
)
    ensures
        cheats.insert(key, first).insert(key, second) == cheats.insert(key, second),
{
}

} // verus!
