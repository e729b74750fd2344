use cheatnet::contracts::StarknetContractArtifacts;
use cheatnet::errors::ProviderErrorKind;
use cheatnet::felt::Felt;
use cheatnet::fork::{
    BlockId, BlockTag, Fetched, ForkQuery, ForkRead, ForkRequest, ForkStateReader, StorageSlot,
};
use cheatnet::state::{CachedState, StateRead};

fn felt(value: u128) -> Felt {
    Felt::from_u128(value)
}

fn class(text: &str) -> StarknetContractArtifacts {
    StarknetContractArtifacts::new(format!("sierra {text}"), format!("casm {text}"))
}

fn storage_request(address: u128, key: u128, block: BlockId) -> ForkRequest {
    ForkRequest {
        query: ForkQuery::Storage(StorageSlot { address: felt(address), key: felt(key) }),
        block,
    }
}

#[test]
fn felt_constructors_and_successor() {
    assert_eq!(Felt::zero(), Felt { hi: 0, lo: 0 });
    assert_eq!(Felt::from_u128(7), Felt { hi: 0, lo: 7 });
    assert_eq!(Felt::new(3, 4), Felt { hi: 3, lo: 4 });
    assert_eq!(felt(41).successor(), felt(42));
    assert_eq!(Felt::new(5, u128::MAX).successor(), Felt::new(6, 0));
    assert_eq!(Felt::new(u128::MAX, u128::MAX).successor(), Felt::zero());
}

#[test]
fn unknown_key_asks_for_one_request_at_the_pinned_block() {
    let block = BlockId::Number(17);
    let reader = ForkStateReader::new(block);
    assert_eq!(reader.block(), block);
    assert_eq!(reader.read_storage(felt(1), felt(2)), ForkRead::Unknown(storage_request(1, 2, block)));
    assert_eq!(
        reader.read_class(felt(9)),
        ForkRead::Unknown(ForkRequest { query: ForkQuery::Class(felt(9)), block })
    );
    assert_eq!(
        reader.read_nonce(felt(9)),
        ForkRead::Unknown(ForkRequest { query: ForkQuery::Nonce(felt(9)), block })
    );
}

#[test]
fn second_fork_read_needs_no_request_and_gives_the_same_value() {
    let mut reader = ForkStateReader::new(BlockId::Tag(BlockTag::Latest));
    assert!(matches!(reader.read_storage(felt(1), felt(2)), ForkRead::Unknown(_)));

    let answer = reader.record_storage(felt(1), felt(2), Ok(Fetched::Value(felt(100))));
    assert_eq!(answer, Ok(Fetched::Value(felt(100))));

    let first = reader.read_storage(felt(1), felt(2));
    let second = reader.read_storage(felt(1), felt(2));
    assert_eq!(first, ForkRead::Known(Fetched::Value(felt(100))));
    assert_eq!(first, second);

    assert!(matches!(reader.read_storage(felt(1), felt(3)), ForkRead::Unknown(_)));
    assert!(matches!(reader.read_storage(felt(2), felt(2)), ForkRead::Unknown(_)));
}

#[test]
fn fork_value_never_changes_once_read() {
    let mut reader = ForkStateReader::new(BlockId::Hash(felt(1)));
    reader.record_storage(felt(1), felt(2), Ok(Fetched::Value(felt(100)))).unwrap();

    let answer = reader.record_storage(felt(1), felt(2), Ok(Fetched::Value(felt(555))));
    assert_eq!(answer, Ok(Fetched::Value(felt(100))));
    assert_eq!(reader.read_storage(felt(1), felt(2)), ForkRead::Known(Fetched::Value(felt(100))));

    let answer = reader.record_storage(felt(1), felt(2), Ok(Fetched::NotFound));
    assert_eq!(answer, Ok(Fetched::Value(felt(100))));
}

#[test]
fn not_found_is_remembered_too() {
    let mut reader = ForkStateReader::new(BlockId::Number(1));
    assert_eq!(reader.record_storage(felt(1), felt(2), Ok(Fetched::NotFound)), Ok(Fetched::NotFound));
    assert_eq!(reader.read_storage(felt(1), felt(2)), ForkRead::Known(Fetched::NotFound));

    assert_eq!(reader.record_nonce(felt(1), Ok(Fetched::NotFound)), Ok(Fetched::NotFound));
    assert_eq!(reader.read_nonce(felt(1)), ForkRead::Known(Fetched::NotFound));

    assert_eq!(reader.record_class(felt(1), Ok(Fetched::NotFound)), Ok(Fetched::NotFound));
    assert_eq!(reader.read_class(felt(1)), ForkRead::Known(Fetched::NotFound));
}

#[test]
fn failed_request_leaves_no_trace_and_can_be_tried_again() {
    let block = BlockId::Number(1);
    let mut reader = ForkStateReader::new(block);

    let failure = reader.record_storage(felt(1), felt(2), Err(ProviderErrorKind::BlockNotFound));
    assert_eq!(failure, Err(ProviderErrorKind::BlockNotFound));
    assert_eq!(reader.read_storage(felt(1), felt(2)), ForkRead::Unknown(storage_request(1, 2, block)));

    let retried = reader.record_storage(felt(1), felt(2), Ok(Fetched::Value(felt(8))));
    assert_eq!(retried, Ok(Fetched::Value(felt(8))));
    assert_eq!(reader.read_storage(felt(1), felt(2)), ForkRead::Known(Fetched::Value(felt(8))));

    assert_eq!(
        reader.record_class(felt(3), Err(ProviderErrorKind::Unknown)),
        Err(ProviderErrorKind::Unknown)
    );
    assert!(matches!(reader.read_class(felt(3)), ForkRead::Unknown(_)));
    assert_eq!(
        reader.record_nonce(felt(3), Err(ProviderErrorKind::ContractNotFound)),
        Err(ProviderErrorKind::ContractNotFound)
    );
    assert!(matches!(reader.read_nonce(felt(3)), ForkRead::Unknown(_)));
}

#[test]
fn classes_and_nonces_are_fetched_once() {
    let mut reader = ForkStateReader::new(BlockId::Number(1));
    assert_eq!(
        reader.record_class(felt(5), Ok(Fetched::Value(class("a")))),
        Ok(Fetched::Value(class("a")))
    );
    assert_eq!(
        reader.record_class(felt(5), Ok(Fetched::Value(class("b")))),
        Ok(Fetched::Value(class("a")))
    );
    assert_eq!(reader.read_class(felt(5)), ForkRead::Known(Fetched::Value(class("a"))));

    assert_eq!(reader.record_nonce(felt(5), Ok(Fetched::Value(felt(3)))), Ok(Fetched::Value(felt(3))));
    assert_eq!(reader.record_nonce(felt(5), Ok(Fetched::Value(felt(4)))), Ok(Fetched::Value(felt(3))));
    assert_eq!(reader.read_nonce(felt(5)), ForkRead::Known(Fetched::Value(felt(3))));
}

#[test]
fn local_state_without_fork() {
    let mut state = CachedState::new();
    assert_eq!(state.get_storage(None, felt(1), felt(2)), StateRead::NotFound);
    assert_eq!(state.get_class(None, felt(1)), StateRead::NotFound);
    assert_eq!(state.get_nonce(None, felt(1)), StateRead::NotFound);
    assert_eq!(state.class_hash_at(felt(1)), None);

    state.set_storage(felt(1), felt(2), felt(3));
    assert_eq!(state.get_storage(None, felt(1), felt(2)), StateRead::Found(felt(3)));
    assert_eq!(state.get_storage(None, felt(2), felt(1)), StateRead::NotFound);

    state.set_storage(felt(1), felt(2), felt(4));
    assert_eq!(state.get_storage(None, felt(1), felt(2)), StateRead::Found(felt(4)));

    state.set_class(felt(7), class("x"));
    assert_eq!(state.get_class(None, felt(7)), StateRead::Found(class("x")));

    state.set_class_hash_at(felt(1), felt(7));
    assert_eq!(state.class_hash_at(felt(1)), Some(felt(7)));
}

#[test]
fn written_value_wins_over_the_fork() {
    let mut reader = ForkStateReader::new(BlockId::Number(1));
    reader.record_storage(felt(1), felt(2), Ok(Fetched::Value(felt(100)))).unwrap();
    let mut state = CachedState::new();

    state.set_storage(felt(1), felt(2), felt(7));

    assert_eq!(state.get_storage(Some(&reader), felt(1), felt(2)), StateRead::Found(felt(7)));
    assert_eq!(state.get_storage(Some(&reader), felt(1), felt(2)), StateRead::Found(felt(7)));
    assert_eq!(reader.read_storage(felt(1), felt(2)), ForkRead::Known(Fetched::Value(felt(100))));
}

#[test]
fn written_value_wins_over_a_key_the_fork_has_not_fetched() {
    let reader = ForkStateReader::new(BlockId::Number(1));
    let mut state = CachedState::new();
    state.set_storage(felt(1), felt(2), felt(7));
    assert_eq!(state.get_storage(Some(&reader), felt(1), felt(2)), StateRead::Found(felt(7)));
}

#[test]
fn read_falls_through_to_the_fork_and_is_kept() {
    let block = BlockId::Number(1);
    let mut reader = ForkStateReader::new(block);
    let mut state = CachedState::new();

    assert_eq!(
        state.get_storage(Some(&reader), felt(1), felt(2)),
        StateRead::Fetch(storage_request(1, 2, block))
    );

    reader.record_storage(felt(1), felt(2), Ok(Fetched::Value(felt(100)))).unwrap();
    assert_eq!(state.get_storage(Some(&reader), felt(1), felt(2)), StateRead::Found(felt(100)));

    // The value was kept: the read is now answered without the fork.
    assert_eq!(state.get_storage(None, felt(1), felt(2)), StateRead::Found(felt(100)));

    reader.record_storage(felt(1), felt(3), Ok(Fetched::NotFound)).unwrap();
    assert_eq!(state.get_storage(Some(&reader), felt(1), felt(3)), StateRead::NotFound);
}

#[test]
fn class_and_nonce_reads_fall_through_too() {
    let block = BlockId::Number(1);
    let mut reader = ForkStateReader::new(block);
    let mut state = CachedState::new();

    assert_eq!(
        state.get_class(Some(&reader), felt(5)),
        StateRead::Fetch(ForkRequest { query: ForkQuery::Class(felt(5)), block })
    );
    reader.record_class(felt(5), Ok(Fetched::Value(class("remote")))).unwrap();
    assert_eq!(state.get_class(Some(&reader), felt(5)), StateRead::Found(class("remote")));
    assert_eq!(state.get_class(None, felt(5)), StateRead::Found(class("remote")));

    assert_eq!(
        state.get_nonce(Some(&reader), felt(5)),
        StateRead::Fetch(ForkRequest { query: ForkQuery::Nonce(felt(5)), block })
    );
    reader.record_nonce(felt(5), Ok(Fetched::Value(felt(9)))).unwrap();
    assert_eq!(state.get_nonce(Some(&reader), felt(5)), StateRead::Found(felt(9)));
    assert_eq!(state.get_nonce(None, felt(5)), StateRead::Found(felt(9)));
}

#[test]
fn nonce_counts_up_from_zero_or_from_the_fork() {
    let block = BlockId::Number(1);
    let mut state = CachedState::new();
    assert_eq!(state.increment_nonce(None, felt(1)), StateRead::Found(felt(1)));
    assert_eq!(state.increment_nonce(None, felt(1)), StateRead::Found(felt(2)));
    assert_eq!(state.get_nonce(None, felt(1)), StateRead::Found(felt(2)));

    let mut reader = ForkStateReader::new(block);
    assert_eq!(
        state.increment_nonce(Some(&reader), felt(2)),
        StateRead::Fetch(ForkRequest { query: ForkQuery::Nonce(felt(2)), block })
    );
    assert_eq!(state.get_nonce(None, felt(2)), StateRead::NotFound);

    reader.record_nonce(felt(2), Ok(Fetched::Value(felt(10)))).unwrap();
    assert_eq!(state.increment_nonce(Some(&reader), felt(2)), StateRead::Found(felt(11)));
    assert_eq!(state.increment_nonce(Some(&reader), felt(2)), StateRead::Found(felt(12)));

    reader.record_nonce(felt(3), Ok(Fetched::NotFound)).unwrap();
    assert_eq!(state.increment_nonce(Some(&reader), felt(3)), StateRead::Found(felt(1)));
}

#[test]
fn copy_of_a_state_is_independent() {
    let mut state = CachedState::new();
    state.set_storage(felt(1), felt(2), felt(3));
    let copy = state.duplicate();
    state.set_storage(felt(1), felt(2), felt(4));
    state.set_class(felt(7), class("x"));

    let mut copy = copy;
    assert_eq!(copy.get_storage(None, felt(1), felt(2)), StateRead::Found(felt(3)));
    assert_eq!(copy.get_class(None, felt(7)), StateRead::NotFound);
}
