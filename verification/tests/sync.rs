use zcash_numi_sdk::error::Error;
use zcash_numi_sdk::light_client::sync::{
    batch_end, continuation_point, continues, replay_sync, sync_step, AccountHandle, ChainState, HeightRange,
    ImportStep, SyncAction, SyncError, SyncEvent, SyncState, SyncSummary, BATCH_SIZE,
};
use zcash_numi_sdk::light_client::LightClient;
use zcash_numi_sdk::types::Network;

const ACCOUNT: AccountHandle = AccountHandle { uuid: 0x1234 };

fn client() -> LightClient {
    LightClient::connect("http://localhost:9067".to_string(), Network::Regtest).unwrap()
}

fn start(start_height: u64, end_height: Option<u64>) -> SyncEvent {
    SyncEvent::Start { start_height, end_height }
}

fn done(blocks_processed: u64, final_height: u64, failed_ranges: Vec<HeightRange>) -> SyncState {
    SyncState::Done { summary: SyncSummary { blocks_processed, final_height, failed_ranges } }
}

#[test]
fn batch_size_is_one_hundred() {
    assert_eq!(BATCH_SIZE, 100);
    assert_eq!(batch_end(0, 1000), 99);
    assert_eq!(batch_end(100, 1000), 199);
    assert_eq!(batch_end(950, 1000), 1000);
    assert_eq!(batch_end(901, 1000), 1000);
    assert_eq!(batch_end(900, 1000), 999);
    assert_eq!(batch_end(u64::MAX - 5, u64::MAX), u64::MAX);
}

#[test]
fn sync_of_an_empty_range_is_a_no_op() {
    assert_eq!(client().sync(500, Some(500)), (done(0, 500, vec![]), SyncAction::Finish));
    let (state, actions) = replay_sync(&[start(500, None), SyncEvent::LatestHeight(Ok(500))]);
    assert_eq!(state, done(0, 500, vec![]));
    assert_eq!(actions, vec![SyncAction::ResolveLatestHeight, SyncAction::Finish]);
}

#[test]
fn sync_of_an_inverted_range_fails_before_any_fetch() {
    let expected = SyncState::Errored { error: SyncError::InvalidRange { start: 10, end: 9 } };
    assert_eq!(client().sync(10, Some(9)), (expected.clone(), SyncAction::Finish));
    let (state, actions) = replay_sync(&[start(10, None), SyncEvent::LatestHeight(Ok(9))]);
    assert_eq!(state, expected);
    assert_eq!(actions, vec![SyncAction::ResolveLatestHeight, SyncAction::Finish]);
}

#[test]
fn range_error_names_both_heights() {
    assert_eq!(
        SyncError::InvalidRange { start: 10, end: 9 }.into_error(),
        Error::InvalidParameter("Start height 10 is greater than end height 9".to_string())
    );
    assert_eq!(
        SyncError::RemoteUnavailable { batch: None, detail: "connection refused".to_string() }.into_error(),
        Error::Rpc("connection refused".to_string())
    );
    let batch = Some(HeightRange { start: 100, end: 199 });
    assert_eq!(
        SyncError::RemoteUnavailable { batch, detail: "stream reset".to_string() }.into_error(),
        Error::Rpc("Failed to fetch blocks 100 to 199: stream reset".to_string())
    );
    assert_eq!(
        SyncError::AccountImportFailed { detail: "disk full".to_string() }.into_error(),
        Error::Database("disk full".to_string())
    );
}

#[test]
fn unreachable_remote_is_fatal_while_resolving() {
    let (state, action) = client().sync(0, None);
    assert_eq!((state.clone(), action), (SyncState::Resolving { start: 0 }, SyncAction::ResolveLatestHeight));
    let (state, action) = sync_step(state, SyncEvent::LatestHeight(Err("unreachable".to_string())));
    assert_eq!(
        state,
        SyncState::Errored { error: SyncError::RemoteUnavailable { batch: None, detail: "unreachable".to_string() } }
    );
    assert_eq!(action, SyncAction::Finish);
}

#[test]
fn existing_account_is_reused() {
    let events =
        vec![start(0, Some(50)), SyncEvent::AccountLookup(Ok(Some(ACCOUNT))), SyncEvent::BlocksFetched(Ok(51))];
    let (_, actions) = replay_sync(&events);
    assert_eq!(
        actions,
        vec![
            SyncAction::LookupAccount,
            SyncAction::FetchBlocks { start: 0, end: 50 },
            SyncAction::ScanBlocks { account: ACCOUNT, from_height: 0, limit: 51 },
        ]
    );
}

#[test]
fn missing_account_is_created_once() {
    let created = AccountHandle { uuid: 77 };
    let events = vec![
        start(0, Some(50)),
        SyncEvent::AccountLookup(Ok(None)),
        SyncEvent::AccountCreated(Ok(created)),
        SyncEvent::BlocksFetched(Ok(51)),
    ];
    let (_, actions) = replay_sync(&events);
    assert_eq!(
        actions,
        vec![
            SyncAction::LookupAccount,
            SyncAction::CreateAccount,
            SyncAction::FetchBlocks { start: 0, end: 50 },
            SyncAction::ScanBlocks { account: created, from_height: 0, limit: 51 },
        ]
    );
}

#[test]
fn account_import_failure_is_fatal() {
    let (state, actions) = replay_sync(&[start(0, Some(50)), SyncEvent::AccountLookup(Err("locked".to_string()))]);
    assert_eq!(state, SyncState::Errored { error: SyncError::AccountImportFailed { detail: "locked".to_string() } });
    assert_eq!(actions, vec![SyncAction::LookupAccount, SyncAction::Finish]);
    let (state, _) = replay_sync(&[
        start(0, Some(50)),
        SyncEvent::AccountLookup(Ok(None)),
        SyncEvent::AccountCreated(Err("full".to_string())),
    ]);
    assert_eq!(state, SyncState::Errored { error: SyncError::AccountImportFailed { detail: "full".to_string() } });
}

#[test]
fn full_sync_runs_in_batches() {
    let events = vec![
        start(1000, Some(1250)),
        SyncEvent::AccountLookup(Ok(Some(ACCOUNT))),
        SyncEvent::BlocksFetched(Ok(100)),
        SyncEvent::ScanFinished { succeeded: true },
        SyncEvent::BlocksFetched(Ok(100)),
        SyncEvent::ScanFinished { succeeded: true },
        SyncEvent::BlocksFetched(Ok(51)),
        SyncEvent::ScanFinished { succeeded: true },
    ];
    let (state, actions) = replay_sync(&events);
    assert_eq!(state, done(251, 1250, vec![]));
    assert_eq!(
        actions,
        vec![
            SyncAction::LookupAccount,
            SyncAction::FetchBlocks { start: 1000, end: 1099 },
            SyncAction::ScanBlocks { account: ACCOUNT, from_height: 1000, limit: 100 },
            SyncAction::FetchBlocks { start: 1100, end: 1199 },
            SyncAction::ScanBlocks { account: ACCOUNT, from_height: 1100, limit: 100 },
            SyncAction::FetchBlocks { start: 1200, end: 1250 },
            SyncAction::ScanBlocks { account: ACCOUNT, from_height: 1200, limit: 51 },
            SyncAction::Finish,
        ]
    );
}

#[test]
fn failed_scan_is_recorded_and_the_sync_goes_on() {
    let events = vec![
        start(0, Some(150)),
        SyncEvent::AccountLookup(Ok(Some(ACCOUNT))),
        SyncEvent::BlocksFetched(Ok(100)),
        SyncEvent::ScanFinished { succeeded: false },
        SyncEvent::BlocksFetched(Ok(51)),
        SyncEvent::ScanFinished { succeeded: true },
    ];
    let (state, actions) = replay_sync(&events);
    assert_eq!(state, done(151, 150, vec![HeightRange { start: 0, end: 99 }]));
    assert_eq!(actions[3], SyncAction::FetchBlocks { start: 100, end: 150 });
    assert_eq!(actions[5], SyncAction::Finish);
}

#[test]
fn empty_batch_stops_the_sync_without_an_error() {
    let events = vec![
        start(0, Some(250)),
        SyncEvent::AccountLookup(Ok(Some(ACCOUNT))),
        SyncEvent::BlocksFetched(Ok(100)),
        SyncEvent::ScanFinished { succeeded: true },
        SyncEvent::BlocksFetched(Ok(0)),
    ];
    let (state, actions) = replay_sync(&events);
    assert_eq!(state, done(100, 99, vec![]));
    assert_eq!(actions[actions.len() - 1], SyncAction::Finish);
}

#[test]
fn empty_first_batch_reports_the_start_height() {
    let events = vec![start(40, Some(250)), SyncEvent::AccountLookup(Ok(Some(ACCOUNT))), SyncEvent::BlocksFetched(Ok(0))];
    let (state, _) = replay_sync(&events);
    assert_eq!(state, done(0, 40, vec![]));
}

#[test]
fn fetch_failure_is_fatal() {
    let events = vec![
        start(0, Some(250)),
        SyncEvent::AccountLookup(Ok(Some(ACCOUNT))),
        SyncEvent::BlocksFetched(Err("stream reset".to_string())),
    ];
    let (state, actions) = replay_sync(&events);
    let batch = Some(HeightRange { start: 0, end: 99 });
    assert_eq!(
        state,
        SyncState::Errored { error: SyncError::RemoteUnavailable { batch, detail: "stream reset".to_string() } }
    );
    assert_eq!(actions[2], SyncAction::Finish);
}

#[test]
fn unexpected_events_change_nothing() {
    let state = SyncState::Importing { start: 0, end: 10, step: ImportStep::Lookup };
    let (next, action) = sync_step(state.clone(), SyncEvent::ScanFinished { succeeded: true });
    assert_eq!(next, state);
    assert_eq!(action, SyncAction::Wait);
    let finished = done(0, 3, vec![]);
    assert_eq!(sync_step(finished.clone(), start(0, Some(9))), (finished, SyncAction::Wait));
}

#[test]
fn sync_reaches_the_top_of_the_height_range() {
    let events = vec![
        start(u64::MAX - 1, Some(u64::MAX)),
        SyncEvent::AccountLookup(Ok(Some(ACCOUNT))),
        SyncEvent::BlocksFetched(Ok(2)),
        SyncEvent::ScanFinished { succeeded: true },
    ];
    let (state, actions) = replay_sync(&events);
    assert_eq!(state, done(2, u64::MAX, vec![]));
    assert_eq!(actions[1], SyncAction::FetchBlocks { start: u64::MAX - 1, end: u64::MAX });
}

#[test]
fn processed_blocks_saturate() {
    let events = vec![
        start(0, Some(150)),
        SyncEvent::AccountLookup(Ok(Some(ACCOUNT))),
        SyncEvent::BlocksFetched(Ok(u64::MAX)),
        SyncEvent::ScanFinished { succeeded: true },
        SyncEvent::BlocksFetched(Ok(5)),
        SyncEvent::ScanFinished { succeeded: true },
    ];
    let (state, _) = replay_sync(&events);
    assert_eq!(state, done(u64::MAX, 150, vec![]));
}

#[test]
fn scan_continues_from_the_recorded_state_or_from_genesis() {
    let recorded = ChainState { height: 99, hash: [7u8; 32] };
    assert_eq!(continuation_point(Some(recorded)), recorded);
    assert_eq!(continuation_point(None), ChainState { height: 0, hash: [0u8; 32] });
    assert!(continues(&recorded, 100));
    assert!(!continues(&recorded, 99));
    assert!(!continues(&recorded, 101));
    assert!(continues(&continuation_point(None), 1));
    assert!(!continues(&ChainState { height: u64::MAX, hash: [0u8; 32] }, 0));
}
