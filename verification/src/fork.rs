//! The fork state reader: what is known of a remote chain at one pinned block.
//!
//! The reader makes no request itself. A read answers from what is known, or says
//! which request would settle it; the answer to that request is then recorded, and
//! every later read of the same key is a lookup.

use vstd::prelude::*;
use crate::assoc::{Table, TableKey, TableValue};
use crate::contracts::{ArtifactsView, StarknetContractArtifacts};
use crate::errors::ProviderErrorKind;
use crate::felt::{ClassHash, ContractAddress, Felt, StorageKey};

verus! {

/// A named block.
#[derive(Clone, Copy, Debug, PartialEq, Eq, Structural, Hash)]
pub enum BlockTag {
    Latest,
    Pending,
}

/// The block that the reads of a run are pinned to.
#[derive(Clone, Copy, Debug, PartialEq, Eq, Structural, Hash)]
pub enum BlockId {
    Number(u64),
    Hash(Felt),
    Tag(BlockTag),
}

/// A slot of one contract's storage.
#[derive(Clone, Copy, Debug, PartialEq, Eq, Structural, Hash)]
pub struct StorageSlot {
    pub address: ContractAddress,
    pub key: StorageKey,
}

impl View for StorageSlot {
    type V = StorageSlot;

    open spec fn view(&self) -> StorageSlot {
        *self
    }
}

impl TableKey for StorageSlot {
    fn same(&self, other: &Self) -> (r: bool) {
        self.address.same(&other.address) && self.key.same(&other.key)
    }

    fn duplicate(&self) -> (r: Self) {
        *self
    }
}

/// A class as it is declared: its compiled code.
pub type CompiledClass = StarknetContractArtifacts;

impl TableValue for StarknetContractArtifacts {
    fn duplicate(&self) -> (r: Self) {
        StarknetContractArtifacts { sierra: self.sierra.clone(), casm: self.casm.clone() }
    }
}

/// What a remote chain holds under a key: a datum, or nothing.
#[derive(Clone, Debug, PartialEq, Eq)]
pub enum Fetched<T> {
    Value(T),
    NotFound,
}

impl<T: View> View for Fetched<T> {
    type V = Option<T::V>;

    open spec fn view(&self) -> Option<T::V> {
        match self {
            Fetched::Value(value) => Some(value@),
            Fetched::NotFound => None,
        }
    }
}

impl<T: TableValue> TableValue for Fetched<T> {
    fn duplicate(&self) -> (r: Self) {
        match self {
            Fetched::Value(value) => Fetched::Value(value.duplicate()),
            Fetched::NotFound => Fetched::NotFound,
        }
    }
}

/// What is asked of the remote chain.
#[derive(Clone, Copy, Debug, PartialEq, Eq, Structural, Hash)]
pub enum ForkQuery {
    Storage(StorageSlot),
    Class(ClassHash),
    Nonce(ContractAddress),
}

/// A request to the network: a query at the pinned block.
#[derive(Clone, Copy, Debug, PartialEq, Eq, Structural, Hash)]
pub struct ForkRequest {
    pub query: ForkQuery,
    pub block: BlockId,
}

/// The answer of the reader to a read.
#[derive(Clone, Debug, PartialEq, Eq)]
pub enum ForkRead<T> {
    /// The key has been fetched before: this is what the chain holds under it.
    Known(Fetched<T>),
    /// The key has not been fetched: this request settles it.
    Unknown(ForkRequest),
}

/// What a read stands for.
pub enum ForkReadView<T> {
    Known(Option<T>),
    Unknown(ForkRequest),
}

impl<T: View> View for ForkRead<T> {
    type V = ForkReadView<T::V>;

    open spec fn view(&self) -> ForkReadView<T::V> {
        match self {
            ForkRead::Known(fetched) => ForkReadView::Known(fetched@),
            ForkRead::Unknown(request) => ForkReadView::Unknown(*request),
        }
    }
}

/// What the network answered to a request: what the chain holds, or a failure.
pub type ForkResponse<T> = Result<Fetched<T>, ProviderErrorKind>;

/// What has been fetched from the remote chain, by kind of datum and key.
#[derive(Debug)]
pub struct ForkStateReader {
    block: BlockId,
    storage: Table<StorageSlot, Fetched<Felt>>,
    classes: Table<ClassHash, Fetched<CompiledClass>>,
    nonces: Table<ContractAddress, Fetched<Felt>>,
}

/// What a reader stands for: the pinned block, and for each key that was fetched
/// what the chain holds under it.
pub struct ForkView {
    pub block: BlockId,
    pub storage: Map<StorageSlot, Option<Felt>>,
    pub classes: Map<ClassHash, Option<ArtifactsView>>,
    pub nonces: Map<ContractAddress, Option<Felt>>,
}

impl View for ForkStateReader {
    type V = ForkView;

    closed spec fn view(&self) -> ForkView {
        ForkView {
            block: self.block,
            storage: self.storage@,
            classes: self.classes@,
            nonces: self.nonces@,
        }
    }
}

/// The view of a borrowed reader that may be absent.
pub open spec fn borrowed_fork(fork: Option<&ForkStateReader>) -> Option<ForkView> {
    match fork {
        Some(reader) => Some(reader@),
        None => None,
    }
}

/// The view of a reader that may be absent.
pub open spec fn optional_fork(fork: Option<ForkStateReader>) -> Option<ForkView> {
    match fork {
        Some(reader) => Some(reader@),
        None => None,
    }
}

/// The answer to a read of `key` from what is known in `known`.
pub open spec fn fork_lookup<K, T>(
    known: Map<K, Option<T>>,
    key: K,
    request: ForkRequest,
) -> ForkReadView<T> {
    if known.contains_key(key) {
        ForkReadView::Known(known[key])
    } else {
        ForkReadView::Unknown(request)
    }
}

/// What is known after a response for `key` came in: a failure leaves no trace, and
/// what was known of the key before stays as it was.
pub open spec fn fork_recorded<K, T>(
    known: Map<K, Option<T>>,
    key: K,
    response: Result<Option<T>, ProviderErrorKind>,
) -> Map<K, Option<T>> {
    match response {
        Ok(fetched) => if known.contains_key(key) {
            known
        } else {
            known.insert(key, fetched)
        },
        Err(_) => known,
    }
}

/// What a recorded response gives the reader of the key: a failure as it came, else
/// what is now known of the key.
pub open spec fn fork_answer<K, T>(
    known: Map<K, Option<T>>,
    key: K,
    response: Result<Option<T>, ProviderErrorKind>,
) -> Result<Option<T>, ProviderErrorKind> {
    match response {
        Ok(fetched) => Ok(fork_recorded(known, key, response)[key]),
        Err(failure) => Err(failure),
    }
}

/// What a response stands for.
pub open spec fn response_view<T: View>(response: ForkResponse<T>) -> Result<
    Option<T::V>,
    ProviderErrorKind,
> {
    match response {
        Ok(fetched) => Ok(fetched@),
        Err(failure) => Err(failure),
    }
}

/// The reader that knows nothing yet of the chain at `block`.
pub open spec fn fresh_fork(block: BlockId) -> ForkView {
    ForkView { block, storage: Map::empty(), classes: Map::empty(), nonces: Map::empty() }
}

impl ForkStateReader {
    /// A reader that knows nothing yet of the chain at `block`.
    pub fn new(block: BlockId) -> (r: Self)
        ensures
            r@ == fresh_fork(block),
    {
        ForkStateReader {
            block,
            storage: Table::new(),
            classes: Table::new(),
            nonces: Table::new(),
        }
    }

    /// The block that every read is pinned to.
    pub fn block(&self) -> (r: BlockId)
        ensures
            r == self@.block,
    {
        self.block
    }

    /// Reads a storage slot.
    pub fn read_storage(&self, address: ContractAddress, key: StorageKey) -> (r: ForkRead<Felt>)
        ensures
            r@ == fork_lookup(
                self@.storage,
                StorageSlot { address, key },
                ForkRequest {
                    query: ForkQuery::Storage(StorageSlot { address, key }),
                    block: self@.block,
                },
            ),
    {
        let slot = StorageSlot { address, key };
        match self.storage.get(&slot) {
            Some(fetched) => ForkRead::Known(fetched.duplicate()),
            None => ForkRead::Unknown(
                ForkRequest { query: ForkQuery::Storage(slot), block: self.block },
            ),
        }
    }

    /// Reads a class.
    pub fn read_class(&self, class_hash: ClassHash) -> (r: ForkRead<CompiledClass>)
        ensures
            r@ == fork_lookup(
                self@.classes,
                class_hash,
                ForkRequest { query: ForkQuery::Class(class_hash), block: self@.block },
            ),
    {
        match self.classes.get(&class_hash) {
            Some(fetched) => ForkRead::Known(fetched.duplicate()),
            None => ForkRead::Unknown(
                ForkRequest { query: ForkQuery::Class(class_hash), block: self.block },
            ),
        }
    }

    /// Reads the nonce of a contract.
    pub fn read_nonce(&self, address: ContractAddress) -> (r: ForkRead<Felt>)
        ensures
            r@ == fork_lookup(
                self@.nonces,
                address,
                ForkRequest { query: ForkQuery::Nonce(address), block: self@.block },
            ),
    {
        match self.nonces.get(&address) {
            Some(fetched) => ForkRead::Known(fetched.duplicate()),
            None => ForkRead::Unknown(
                ForkRequest { query: ForkQuery::Nonce(address), block: self.block },
            ),
        }
    }

    /// Records what the network answered for a storage slot.
    ///
    /// A failure is handed back and leaves no trace, so that the read can be tried
    /// again. What was known of the slot before stays; otherwise the answer is kept,
    /// also where it says that the chain holds nothing.
    pub fn record_storage(
        &mut self,
        address: ContractAddress,
        key: StorageKey,
        response: ForkResponse<Felt>,
    ) -> (r: ForkResponse<Felt>)
        ensures
            final(self)@ == (ForkView {
                storage: fork_recorded(
                    old(self)@.storage,
                    StorageSlot { address, key },
                    response_view(response),
                ),
                ..old(self)@
            }),
            response_view(r) == fork_answer(
                old(self)@.storage,
                StorageSlot { address, key },
                response_view(response),
            ),
    {
        let slot = StorageSlot { address, key };
        match response {
            Ok(fetched) => {
                match self.storage.get(&slot) {
                    Some(known) => Ok(known.duplicate()),
                    None => {
                        let answer = fetched.duplicate();
                        self.storage.set(slot, fetched);
                        Ok(answer)
                    },
                }
            },
            Err(failure) => Err(failure),
        }
    }

    /// Records what the network answered for a class.
    ///
    /// A failure is handed back and leaves no trace. What was known of the class
    /// before stays; otherwise the answer is kept.
    pub fn record_class(&mut self, class_hash: ClassHash, response: ForkResponse<CompiledClass>) -> (r:
        ForkResponse<CompiledClass>)
        ensures
            final(self)@ == (ForkView {
                classes: fork_recorded(old(self)@.classes, class_hash, response_view(response)),
                ..old(self)@
            }),
            response_view(r) == fork_answer(
                old(self)@.classes,
                class_hash,
                response_view(response),
            ),
    {
        match response {
            Ok(fetched) => {
                match self.classes.get(&class_hash) {
                    Some(known) => Ok(known.duplicate()),
                    None => {
                        let answer = fetched.duplicate();
                        self.classes.set(class_hash, fetched);
                        Ok(answer)
                    },
                }
            },
            Err(failure) => Err(failure),
        }
    }

    /// Records what the network answered for the nonce of a contract.
    ///
    /// A failure is handed back and leaves no trace. What was known of the nonce
    /// before stays; otherwise the answer is kept.
    pub fn record_nonce(&mut self, address: ContractAddress, response: ForkResponse<Felt>) -> (r:
        ForkResponse<Felt>)
        ensures
            final(self)@ == (ForkView {
                nonces: fork_recorded(old(self)@.nonces, address, response_view(response)),
                ..old(self)@
            }),
            response_view(r) == fork_answer(old(self)@.nonces, address, response_view(response)),
    {
        match response {
            Ok(fetched) => {
                match self.nonces.get(&address) {
                    Some(known) => Ok(known.duplicate()),
                    None => {
                        let answer = fetched.duplicate();
                        self.nonces.set(address, fetched);
                        Ok(answer)
                    },
                }
            },
            Err(failure) => Err(failure),
        }
    }
}

/// Once a response for a key has been recorded, a read of the key asks for no
/// request and gives what the recording gave.
pub proof fn lemma_fork_read_after_record<K, T>(
    known: Map<K, Option<T>>,
    key: K,
    fetched: Option<T>,
    request: ForkRequest,
)
    ensures
        fork_lookup(fork_recorded(known, key, Ok(fetched)), key, request) is Known,
        Ok::<Option<T>, ProviderErrorKind>(
            fork_lookup(fork_recorded(known, key, Ok(fetched)), key, request)->Known_0,
        ) == fork_answer(known, key, Ok(fetched)),
{
}

/// What is known of a key does not change when a response is recorded, for that key
/// or for another.
pub proof fn lemma_fork_known_stays<K, T>(
    known: Map<K, Option<T>>,
    key: K,
    other: K,
    response: Result<Option<T>, ProviderErrorKind>,
    request: ForkRequest,
)
    requires
        known.contains_key(key),
    ensures
        fork_lookup(fork_recorded(known, other, response), key, request) == fork_lookup(
            known,
            key,
            request,
        ),
{
}

/// A failed request leaves what is known as it was, so that the read can be tried
/// again.
pub proof fn lemma_fork_failure_leaves_no_trace<K, T>(
    known: Map<K, Option<T>>,
    key: K,
    failure: ProviderErrorKind,
)
    ensures
        fork_recorded(known, key, Err::<Option<T>, ProviderErrorKind>(failure)) == known,
{
}

} // verus!
