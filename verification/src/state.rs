//! The cached state: the mutable view of contract state that one run owns.
//!
//! Writes go to the local maps and nowhere else. A read looks in the local maps
//! first; what it does not find there it takes from the fork state reader, where the
//! run has one, and keeps.

use vstd::prelude::*;
use crate::assoc::{Table, TableValue};
use crate::contracts::ArtifactsView;
use crate::felt::{ClassHash, ContractAddress, Felt, Nonce, StorageKey};
use crate::fork::{
    borrowed_fork, fork_lookup, BlockId, CompiledClass, Fetched, ForkQuery, ForkRead, ForkReadView, ForkRequest,
    ForkStateReader, ForkView, StorageSlot,
};

verus! {

/// The answer of the cached state to a read.
#[derive(Clone, Debug, PartialEq, Eq)]
pub enum StateRead<T> {
    /// The datum.
    Found(T),
    /// Neither the local maps nor the chain hold anything under the key.
    NotFound,
    /// The local maps hold nothing and the chain has not been asked: this request
    /// settles the read.
    Fetch(ForkRequest),
}

/// What a read stands for.
pub enum StateReadView<T> {
    Found(T),
    NotFound,
    Fetch(ForkRequest),
}

impl<T: View> View for StateRead<T> {
    type V = StateReadView<T::V>;

    open spec fn view(&self) -> StateReadView<T::V> {
        match self {
            StateRead::Found(value) => StateReadView::Found(value@),
            StateRead::NotFound => StateReadView::NotFound,
            StateRead::Fetch(request) => StateReadView::Fetch(*request),
        }
    }
}

/// The local maps of a run.
#[derive(Debug)]
pub struct CachedState {
    storage: Table<StorageSlot, Felt>,
    classes: Table<ClassHash, CompiledClass>,
    nonces: Table<ContractAddress, Nonce>,
    deployed: Table<ContractAddress, ClassHash>,
}

/// What a cached state stands for.
pub struct CachedStateView {
    pub storage: Map<StorageSlot, Felt>,
    pub classes: Map<ClassHash, ArtifactsView>,
    pub nonces: Map<ContractAddress, Nonce>,
    pub deployed: Map<ContractAddress, ClassHash>,
}

impl View for CachedState {
    type V = CachedStateView;

    closed spec fn view(&self) -> CachedStateView {
        CachedStateView {
            storage: self.storage@,
            classes: self.classes@,
            nonces: self.nonces@,
            deployed: self.deployed@,
        }
    }
}

/// What the fork says to a read that the local map could not answer.
pub open spec fn fork_part<K, T>(
    fork: Option<Map<K, Option<T>>>,
    key: K,
    request: ForkQuery,
    block: Option<BlockId>,
) -> StateReadView<T> {
    match (fork, block) {
        (Some(known), Some(block)) => match fork_lookup(
            known,
            key,
            ForkRequest { query: request, block },
        ) {
            ForkReadView::Known(Some(value)) => StateReadView::Found(value),
            ForkReadView::Known(None) => StateReadView::NotFound,
            ForkReadView::Unknown(request) => StateReadView::Fetch(request),
        },
        _ => StateReadView::NotFound,
    }
}

/// The answer to a read of `key`: the local value where there is one, else what the
/// fork says.
pub open spec fn state_read<K, T>(
    local: Map<K, T>,
    fork: Option<Map<K, Option<T>>>,
    key: K,
    request: ForkQuery,
    block: Option<BlockId>,
) -> StateReadView<T> {
    if local.contains_key(key) {
        StateReadView::Found(local[key])
    } else {
        fork_part(fork, key, request, block)
    }
}

/// The local map after a read of `key`: a value that came from the fork is kept.
pub open spec fn state_kept<K, T>(
    local: Map<K, T>,
    fork: Option<Map<K, Option<T>>>,
    key: K,
    request: ForkQuery,
    block: Option<BlockId>,
) -> Map<K, T> {
    match state_read(local, fork, key, request, block) {
        StateReadView::Found(value) => local.insert(key, value),
        _ => local,
    }
}

/// What a fork that may be absent knows of storage.
pub open spec fn fork_storage(fork: Option<ForkView>) -> Option<Map<StorageSlot, Option<Felt>>> {
    match fork {
        Some(reader) => Some(reader.storage),
        None => None,
    }
}

/// What a fork that may be absent knows of classes.
pub open spec fn fork_classes(fork: Option<ForkView>) -> Option<Map<ClassHash, Option<ArtifactsView>>> {
    match fork {
        Some(reader) => Some(reader.classes),
        None => None,
    }
}

/// What a fork that may be absent knows of nonces.
pub open spec fn fork_nonces(fork: Option<ForkView>) -> Option<Map<ContractAddress, Option<Nonce>>> {
    match fork {
        Some(reader) => Some(reader.nonces),
        None => None,
    }
}

/// The block of a fork that may be absent.
pub open spec fn fork_block(fork: Option<ForkView>) -> Option<BlockId> {
    match fork {
        Some(reader) => Some(reader.block),
        None => None,
    }
}

/// The nonce that counting starts from where none is recorded.
pub open spec fn nonce_or_zero(read: StateReadView<Nonce>) -> Nonce {
    match read {
        StateReadView::Found(nonce) => nonce,
        _ => Felt { hi: 0, lo: 0 },
    }
}

/// The state with nothing in its local maps.
pub open spec fn empty_state() -> CachedStateView {
    CachedStateView {
        storage: Map::empty(),
        classes: Map::empty(),
        nonces: Map::empty(),
        deployed: Map::empty(),
    }
}

impl CachedState {
    /// A state with nothing in its local maps.
    pub fn new() -> (r: Self)
        ensures
            r@ == empty_state(),
    {
        CachedState {
            storage: Table::new(),
            classes: Table::new(),
            nonces: Table::new(),
            deployed: Table::new(),
        }
    }

    /// Reads a storage slot.
    ///
    /// A value that was written locally is the answer, whatever the chain holds.
    /// Otherwise the fork answers, where the run has one, and a value it gives is
    /// kept in the local map.
    pub fn get_storage(
        &mut self,
        fork: Option<&ForkStateReader>,
        address: ContractAddress,
        key: StorageKey,
    ) -> (r: StateRead<Felt>)
        ensures
            r@ == state_read(
                old(self)@.storage,
                fork_storage(borrowed_fork(fork)),
                StorageSlot { address, key },
                ForkQuery::Storage(StorageSlot { address, key }),
                fork_block(borrowed_fork(fork)),
            ),
            final(self)@ == (CachedStateView {
                storage: state_kept(
                    old(self)@.storage,
                    fork_storage(borrowed_fork(fork)),
                    StorageSlot { address, key },
                    ForkQuery::Storage(StorageSlot { address, key }),
                    fork_block(borrowed_fork(fork)),
                ),
                ..old(self)@
            }),
    {
        let slot = StorageSlot { address, key };
        match self.storage.get(&slot) {
            Some(value) => {
                let value = *value;
                assert(self@.storage.insert(slot, value) =~= self@.storage);
                return StateRead::Found(value);
            },
            None => {},
        }
        match fork {
            Some(reader) => match reader.read_storage(address, key) {
                ForkRead::Known(Fetched::Value(value)) => {
                    self.storage.set(slot, value);
                    StateRead::Found(value)
                },
                ForkRead::Known(Fetched::NotFound) => StateRead::NotFound,
                ForkRead::Unknown(request) => StateRead::Fetch(request),
            },
            None => StateRead::NotFound,
        }
    }

    /// Writes a storage slot, in the local map only.
    pub fn set_storage(&mut self, address: ContractAddress, key: StorageKey, value: Felt)
        ensures
            final(self)@ == (CachedStateView {
                storage: old(self)@.storage.insert(StorageSlot { address, key }, value),
                ..old(self)@
            }),
    {
        self.storage.set(StorageSlot { address, key }, value);
    }

    /// Reads a class.
    ///
    /// A class that was set locally is the answer. Otherwise the fork answers, where
    /// the run has one, and a class it gives is kept in the local map.
    pub fn get_class(&mut self, fork: Option<&ForkStateReader>, class_hash: ClassHash) -> (r:
        StateRead<CompiledClass>)
        ensures
            r@ == state_read(
                old(self)@.classes,
                fork_classes(borrowed_fork(fork)),
                class_hash,
                ForkQuery::Class(class_hash),
                fork_block(borrowed_fork(fork)),
            ),
            final(self)@ == (CachedStateView {
                classes: state_kept(
                    old(self)@.classes,
                    fork_classes(borrowed_fork(fork)),
                    class_hash,
                    ForkQuery::Class(class_hash),
                    fork_block(borrowed_fork(fork)),
                ),
                ..old(self)@
            }),
    {
        match self.classes.get(&class_hash) {
            Some(class) => {
                let class = class.duplicate();
                assert(self@.classes.insert(class_hash, class@) =~= self@.classes);
                return StateRead::Found(class);
            },
            None => {},
        }
        match fork {
            Some(reader) => match reader.read_class(class_hash) {
                ForkRead::Known(Fetched::Value(class)) => {
                    let kept = class.duplicate();
                    self.classes.set(class_hash, kept);
                    StateRead::Found(class)
                },
                ForkRead::Known(Fetched::NotFound) => StateRead::NotFound,
                ForkRead::Unknown(request) => StateRead::Fetch(request),
            },
            None => StateRead::NotFound,
        }
    }

    /// Sets a class, in the local map only.
    pub fn set_class(&mut self, class_hash: ClassHash, class: CompiledClass)
        ensures
            final(self)@ == (CachedStateView {
                classes: old(self)@.classes.insert(class_hash, class@),
                ..old(self)@
            }),
    {
        self.classes.set(class_hash, class);
    }

    /// Reads the nonce of a contract.
    ///
    /// A nonce that was counted locally is the answer. Otherwise the fork answers,
    /// where the run has one, and a nonce it gives is kept in the local map.
    pub fn get_nonce(&mut self, fork: Option<&ForkStateReader>, address: ContractAddress) -> (r:
        StateRead<Nonce>)
        ensures
            r@ == state_read(
                old(self)@.nonces,
                fork_nonces(borrowed_fork(fork)),
                address,
                ForkQuery::Nonce(address),
                fork_block(borrowed_fork(fork)),
            ),
            final(self)@ == (CachedStateView {
                nonces: state_kept(
                    old(self)@.nonces,
                    fork_nonces(borrowed_fork(fork)),
                    address,
                    ForkQuery::Nonce(address),
                    fork_block(borrowed_fork(fork)),
                ),
                ..old(self)@
            }),
    {
        match self.nonces.get(&address) {
            Some(nonce) => {
                let nonce = *nonce;
                assert(self@.nonces.insert(address, nonce) =~= self@.nonces);
                return StateRead::Found(nonce);
            },
            None => {},
        }
        match fork {
            Some(reader) => match reader.read_nonce(address) {
                ForkRead::Known(Fetched::Value(nonce)) => {
                    self.nonces.set(address, nonce);
                    StateRead::Found(nonce)
                },
                ForkRead::Known(Fetched::NotFound) => StateRead::NotFound,
                ForkRead::Unknown(request) => StateRead::Fetch(request),
            },
            None => StateRead::NotFound,
        }
    }

    /// Counts the nonce of a contract up by one.
    ///
    /// The count goes on from the nonce that a read gives, and from zero where the
    /// read finds none; the new nonce is written in the local map and handed back.
    /// Where the read needs a request first, nothing is written and the request is
    /// handed back.
    pub fn increment_nonce(&mut self, fork: Option<&ForkStateReader>, address: ContractAddress) -> (r:
        StateRead<Nonce>)
        ensures
            match state_read(
                old(self)@.nonces,
                fork_nonces(borrowed_fork(fork)),
                address,
                ForkQuery::Nonce(address),
                fork_block(borrowed_fork(fork)),
            ) {
                StateReadView::Fetch(request) => r@ == StateReadView::<Nonce>::Fetch(request)
                    && final(self)@ == old(self)@,
                read => r@ == StateReadView::Found(nonce_or_zero(read).next()) && final(self)@ == (
                CachedStateView {
                    nonces: old(self)@.nonces.insert(address, nonce_or_zero(read).next()),
                    ..old(self)@
                }),
            },
    {
        let current = match self.nonces.get(&address) {
            Some(nonce) => *nonce,
            None => match fork {
                Some(reader) => match reader.read_nonce(address) {
                    ForkRead::Known(Fetched::Value(nonce)) => nonce,
                    ForkRead::Known(Fetched::NotFound) => Felt::zero(),
                    ForkRead::Unknown(request) => {
                        return StateRead::Fetch(request);
                    },
                },
                None => Felt::zero(),
            },
        };
        let next = current.successor();
        self.nonces.set(address, next);
        StateRead::Found(next)
    }

    /// The class of the contract deployed at an address, if one is.
    pub fn class_hash_at(&self, address: ContractAddress) -> (r: Option<ClassHash>)
        ensures
            r == if self@.deployed.contains_key(address) {
                Some(self@.deployed[address])
            } else {
                None
            },
    {
        match self.deployed.get(&address) {
            Some(class_hash) => Some(*class_hash),
            None => None,
        }
    }

    /// Records that a contract of the given class is deployed at an address.
    pub fn set_class_hash_at(&mut self, address: ContractAddress, class_hash: ClassHash)
        ensures
            final(self)@ == (CachedStateView {
                deployed: old(self)@.deployed.insert(address, class_hash),
                ..old(self)@
            }),
    {
        self.deployed.set(address, class_hash);
    }

    /// A copy of the state.
    pub fn duplicate(&self) -> (r: Self)
        ensures
            r@ == self@,
    {
        CachedState {
            storage: self.storage.duplicate(),
            classes: self.classes.duplicate(),
            nonces: self.nonces.duplicate(),
            deployed: self.deployed.duplicate(),
        }
    }
}

/// After a write to a key, a read of the key gives the written value, whatever the
/// fork knows of the key.
pub proof fn lemma_write_then_read<K, T>(
    local: Map<K, T>,
    fork: Option<Map<K, Option<T>>>,
    key: K,
    value: T,
    request: ForkQuery,
    block: Option<BlockId>,
)
    ensures
        state_read(local.insert(key, value), fork, key, request, block) == StateReadView::Found(
            value,
        ),
{
}

/// A value that the local map holds stays the answer through reads of any key,
/// whatever the fork has come to know meanwhile.
pub proof fn lemma_local_value_stays<K, T>(
    local: Map<K, T>,
    fork: Option<Map<K, Option<T>>>,
    later_fork: Option<Map<K, Option<T>>>,
    key: K,
    other: K,
    request: ForkQuery,
    other_request: ForkQuery,
    block: Option<BlockId>,
)
    requires
        local.contains_key(key),
    ensures
        state_read(
            state_kept(local, fork, other, other_request, block),
            later_fork,
            key,
            request,
            block,
        ) == StateReadView::Found(local[key]),
{
}

/// A read that found a value is answered from the local map from then on: the same
/// value, with no request, whatever the fork knows.
pub proof fn lemma_read_twice<K, T>(
    local: Map<K, T>,
    fork: Option<Map<K, Option<T>>>,
    later_fork: Option<Map<K, Option<T>>>,
    key: K,
    request: ForkQuery,
    block: Option<BlockId>,
)
    requires
        state_read(local, fork, key, request, block) is Found,
    ensures
        state_read(state_kept(local, fork, key, request, block), later_fork, key, request, block)
            == state_read(local, fork, key, request, block),
{
}

} // verus!
