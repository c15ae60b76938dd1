use ring_mlsag::amount::{Amount, TokenId};
use ring_mlsag::watcher::{
    after_sync, before_sync, Error, SyncResult, SyncStep, MAX_BLOCKS_PER_SYNC_ITERATION,
};

#[test]
fn the_sync_thread_stops_on_request() {
    assert_eq!(before_sync(true), SyncStep::Stop);
    assert_eq!(before_sync(false), SyncStep::Sync);
}

#[test]
fn the_sync_thread_follows_the_result_of_a_pass() {
    assert_eq!(after_sync(SyncResult::AllBlocksSynced), SyncStep::Stop);
    assert_eq!(after_sync(SyncResult::BlockSyncError), SyncStep::Sleep);
    assert_eq!(after_sync(SyncResult::ReachedMaxBlocksPerIteration), SyncStep::Sync);
    assert_eq!(MAX_BLOCKS_PER_SYNC_ITERATION, 1000);
}

#[test]
fn an_io_error_is_wrapped() {
    let source = std::io::Error::new(std::io::ErrorKind::Other, "no thread");
    match Error::from(source) {
        Error::IO(e) => assert_eq!(e.kind(), std::io::ErrorKind::Other),
        Error::ThreadJoin => panic!("an io error became a join error"),
    }
}

#[test]
fn amounts_are_what_they_are_made_of() {
    let amount = Amount::new(5, TokenId::from(6u64));
    assert_eq!(amount.value, 5);
    assert_eq!(amount.token_id, TokenId(6));
    assert_eq!(Amount::default(), Amount::new(0, TokenId::from(0u64)));
}
