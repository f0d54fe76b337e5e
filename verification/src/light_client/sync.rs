//! The synchronisation engine: a state machine that decides, for each reply
//! of the remote chain-data service and of wallet storage, what a sync
//! session does next.
//!
//! The caller owns the connection and the storage. It performs each action
//! that the engine asks for and hands the outcome back as an event.

use vstd::prelude::*;

verus! {

/// Number of blocks requested from the remote service at a time.
pub const BATCH_SIZE: u64 = 100;

/// An inclusive range of block heights.
#[derive(Debug, Clone, Copy, PartialEq, Eq, Structural)]
pub struct HeightRange {
    pub start: u64,
    pub end: u64,
}

/// The handle under which wallet storage keeps an account.
#[derive(Debug, Clone, Copy, PartialEq, Eq, Structural)]
pub struct AccountHandle {
    pub uuid: u128,
}

/// Why a sync session ended without a summary.
#[derive(Debug, Clone, PartialEq, Eq)]
pub enum SyncError {
    /// The start height lies above the end height.
    InvalidRange { start: u64, end: u64 },
    /// The remote service could not be reached, or its reply could not be
    /// read; `detail` is the transport's own description. `batch` is the
    /// range that was being fetched, or `None` where the latest height was
    /// being asked for.
    RemoteUnavailable { batch: Option<HeightRange>, detail: String },
    /// Wallet storage could not find or create the account.
    AccountImportFailed { detail: String },
}

/// What a finished sync session reports.
#[derive(Debug, Clone, PartialEq, Eq)]
pub struct SyncSummary {
    /// Number of blocks that were fetched and handed to the scanner.
    pub blocks_processed: u64,
    /// The last height that the session advanced past, or the start height
    /// where it advanced past none. A caller compares this with the end it
    /// asked for to tell a complete sync from one that stopped early.
    pub final_height: u64,
    /// The batches whose scan failed, in ascending order.
    pub failed_ranges: Vec<HeightRange>,
}

/// Mathematical model of a `SyncSummary`.
pub struct SyncSummaryView {
    pub blocks_processed: u64,
    pub final_height: u64,
    pub failed_ranges: Seq<HeightRange>,
}

impl View for SyncSummary {
    type V = SyncSummaryView;

    open spec fn view(&self) -> SyncSummaryView {
        SyncSummaryView {
            blocks_processed: self.blocks_processed,
            final_height: self.final_height,
            failed_ranges: self.failed_ranges@,
        }
    }
}

/// Where a session stands inside its height range.
#[derive(Debug, Clone, PartialEq, Eq)]
pub struct SyncProgress {
    /// The account whose viewing key the scanner uses.
    pub account: AccountHandle,
    /// First height of the requested range.
    pub start: u64,
    /// Last height of the requested range.
    pub end: u64,
    /// The next height to fetch.
    pub cursor: u64,
    /// Number of blocks handed to the scanner so far.
    pub blocks_processed: u64,
    /// The batches whose scan failed so far.
    pub failed_ranges: Vec<HeightRange>,
}

/// Mathematical model of a `SyncProgress`.
pub struct SyncProgressView {
    pub account: AccountHandle,
    pub start: u64,
    pub end: u64,
    pub cursor: u64,
    pub blocks_processed: u64,
    pub failed_ranges: Seq<HeightRange>,
}

impl View for SyncProgress {
    type V = SyncProgressView;

    open spec fn view(&self) -> SyncProgressView {
        SyncProgressView {
            account: self.account,
            start: self.start,
            end: self.end,
            cursor: self.cursor,
            blocks_processed: self.blocks_processed,
            failed_ranges: self.failed_ranges@,
        }
    }
}

impl SyncProgressView {
    /// The range holds at least two heights and the cursor lies inside it.
    pub open spec fn wf(self) -> bool {
        self.start < self.end && self.start <= self.cursor <= self.end
    }

    /// Last height of the batch that starts at the cursor.
    pub open spec fn batch_end(self) -> u64 {
        batch_end_of(self.cursor, self.end)
    }

    /// The summary of a session that stops where this progress stands.
    pub open spec fn summary(self) -> SyncSummaryView {
        SyncSummaryView {
            blocks_processed: self.blocks_processed,
            final_height: height_reached(self.start, self.cursor),
            failed_ranges: self.failed_ranges,
        }
    }
}

/// Last height of the batch that starts at `cursor` in a range that ends at
/// `end`: the batch holds `BATCH_SIZE` heights, or fewer where the range ends
/// before that.
pub open spec fn batch_end_of(cursor: u64, end: u64) -> u64 {
    if cursor <= end && end - cursor >= 99 {
        (cursor + 99) as u64
    } else {
        end
    }
}

/// The height that a session has reached when its cursor stands at `cursor`:
/// the height before the cursor, or the start where nothing was passed yet.
pub open spec fn height_reached(start: u64, cursor: u64) -> u64 {
    if cursor <= start {
        start
    } else {
        (cursor - 1) as u64
    }
}

/// The sum of the two counts, or `u64::MAX` where it does not fit.
pub open spec fn saturating_sum(a: u64, b: u64) -> u64 {
    if a + b > u64::MAX {
        u64::MAX
    } else {
        (a + b) as u64
    }
}

/// A position in the chain: a height and the hash of the block at it. The
/// scanner resumes from the chain state that storage recorded last.
#[derive(Debug, Clone, Copy, PartialEq, Eq)]
pub struct ChainState {
    pub height: u64,
    pub hash: [u8; 32],
}

/// Whether a chain state is the one before the first block: height zero
/// and a hash of zeros.
pub open spec fn is_genesis_state(state: ChainState) -> bool {
    state.height == 0 && forall|i: int| 0 <= i < 32 ==> #[trigger] state.hash@[i] == 0u8
}

/// The chain state that the next scan continues from, given the most recent
/// state that storage has recorded for the account, if any: the recorded
/// one, or the state before the first block where there is none.
pub fn continuation_point(recorded: Option<ChainState>) -> (state: ChainState)
    ensures
        match recorded {
            Some(last) => state == last,
            None => is_genesis_state(state),
        },
{
    match recorded {
        Some(last) => last,
        None => ChainState { height: 0, hash: [0u8; 32] },
    }
}

/// Whether a scan from `from_height` continues `state`: the scanner takes a
/// batch only where it starts right above the state it continues from.
pub fn continues(state: &ChainState, from_height: u64) -> (fits: bool)
    ensures
        fits == (from_height == state.height + 1),
{
    state.height < u64::MAX && from_height == state.height + 1
}

/// Which of the two storage requests of the import step is outstanding.
#[derive(Debug, Clone, Copy, PartialEq, Eq, Structural)]
pub enum ImportStep {
    /// Storage was asked for the account of the wallet's viewing key.
    Lookup,
    /// Storage had no such account and was asked to create it.
    Create,
}

/// State of a sync session.
#[derive(Debug, Clone, PartialEq, Eq)]
pub enum SyncState {
    /// Nothing was asked for yet.
    Idle,
    /// The remote service was asked for the latest height.
    Resolving { start: u64 },
    /// Storage was asked for the account.
    Importing { start: u64, end: u64, step: ImportStep },
    /// The remote service was asked for the batch at the cursor.
    Fetching { progress: SyncProgress },
    /// The scanner was handed `fetched` blocks of the batch at the cursor.
    Scanning { progress: SyncProgress, fetched: u64 },
    /// The session ended with a summary.
    Done { summary: SyncSummary },
    /// The session ended with a fatal error.
    Errored { error: SyncError },
}

/// Mathematical model of a `SyncState`.
pub enum SyncStateView {
    Idle,
    Resolving { start: u64 },
    Importing { start: u64, end: u64, step: ImportStep },
    Fetching { progress: SyncProgressView },
    Scanning { progress: SyncProgressView, fetched: u64 },
    Done { summary: SyncSummaryView },
    Errored { error: SyncError },
}

impl View for SyncState {
    type V = SyncStateView;

    open spec fn view(&self) -> SyncStateView {
        match *self {
            SyncState::Idle => SyncStateView::Idle,
            SyncState::Resolving { start } => SyncStateView::Resolving { start },
            SyncState::Importing { start, end, step } => SyncStateView::Importing { start, end, step },
            SyncState::Fetching { progress } => SyncStateView::Fetching { progress: progress@ },
            SyncState::Scanning { progress, fetched } => SyncStateView::Scanning { progress: progress@, fetched },
            SyncState::Done { summary } => SyncStateView::Done { summary: summary@ },
            SyncState::Errored { error } => SyncStateView::Errored { error },
        }
    }
}

impl SyncStateView {
    /// The invariant of a session: while batches are in flight, the cursor
    /// lies inside a range of at least two heights, and a scan is handed at
    /// least one block.
    pub open spec fn wf(self) -> bool {
        match self {
            SyncStateView::Importing { start, end, .. } => start < end,
            SyncStateView::Fetching { progress } => progress.wf(),
            SyncStateView::Scanning { progress, fetched } => progress.wf() && fetched > 0,
            _ => true,
        }
    }

    /// The session has ended.
    pub open spec fn is_terminal(self) -> bool {
        self is Done || self is Errored
    }
}

/// What the caller reports to the engine.
#[derive(Debug, PartialEq, Eq)]
pub enum SyncEvent {
    /// A sync of the heights from `start_height` to `end_height` is wanted;
    /// without an end, up to the latest height that the remote service knows.
    Start { start_height: u64, end_height: Option<u64> },
    /// The remote service's latest height, or why it could not be had.
    LatestHeight(std::result::Result<u64, String>),
    /// The account that storage holds for the viewing key, if any, or why
    /// storage could not be read.
    AccountLookup(std::result::Result<Option<AccountHandle>, String>),
    /// The account that storage created, or why it could not.
    AccountCreated(std::result::Result<AccountHandle, String>),
    /// The number of compact blocks that the remote service returned for the
    /// batch, or why the batch could not be fetched.
    BlocksFetched(std::result::Result<u64, String>),
    /// Whether the scanner accepted the batch.
    ScanFinished { succeeded: bool },
}

/// What the engine asks the caller to do next.
#[derive(Debug, Clone, Copy, PartialEq, Eq, Structural)]
pub enum SyncAction {
    /// Ask the remote service for its latest height.
    ResolveLatestHeight,
    /// Ask storage for the account of the wallet's viewing key.
    LookupAccount,
    /// Ask storage to create the account of the wallet's viewing key.
    CreateAccount,
    /// Fetch the compact blocks of the inclusive height range.
    FetchBlocks { start: u64, end: u64 },
    /// Hand the fetched blocks to the scanner of the account, from
    /// `from_height` on and at most `limit` of them.
    ScanBlocks { account: AccountHandle, from_height: u64, limit: u64 },
    /// The session has ended; its state holds the summary or the error.
    Finish,
    /// The event was not the one the engine waits for; it changed nothing.
    Wait,
}

/// The step that follows once both ends of the range are known: a range
/// error, the empty sync, or the import of the account.
pub open spec fn range_resolved(start: u64, end: u64) -> (SyncStateView, SyncAction) {
    if start > end {
        (SyncStateView::Errored { error: SyncError::InvalidRange { start, end } }, SyncAction::Finish)
    } else if start == end {
        (
            SyncStateView::Done {
                summary: SyncSummaryView {
                    blocks_processed: 0,
                    final_height: start,
                    failed_ranges: Seq::<HeightRange>::empty(),
                },
            },
            SyncAction::Finish,
        )
    } else {
        (SyncStateView::Importing { start, end, step: ImportStep::Lookup }, SyncAction::LookupAccount)
    }
}

/// The step that follows once the account is known: the first batch.
pub open spec fn account_ready(account: AccountHandle, start: u64, end: u64) -> (SyncStateView, SyncAction) {
    (
        SyncStateView::Fetching {
            progress: SyncProgressView {
                account,
                start,
                end,
                cursor: start,
                blocks_processed: 0,
                failed_ranges: Seq::<HeightRange>::empty(),
            },
        },
        SyncAction::FetchBlocks { start, end: batch_end_of(start, end) },
    )
}

/// The step that follows a scan: count the blocks, note the batch if its scan
/// failed, and move past the batch whether or not it did. The session is done
/// when the batch was the last of the range.
pub open spec fn batch_advanced(progress: SyncProgressView, fetched: u64, succeeded: bool) -> (SyncStateView, SyncAction) {
    let batch_end = progress.batch_end();
    let blocks_processed = saturating_sum(progress.blocks_processed, fetched);
    let failed_ranges = if succeeded {
        progress.failed_ranges
    } else {
        progress.failed_ranges.push(HeightRange { start: progress.cursor, end: batch_end })
    };
    if batch_end >= progress.end {
        (
            SyncStateView::Done {
                summary: SyncSummaryView { blocks_processed, final_height: batch_end, failed_ranges },
            },
            SyncAction::Finish,
        )
    } else {
        let cursor = (batch_end + 1) as u64;
        (
            SyncStateView::Fetching {
                progress: SyncProgressView {
                    account: progress.account,
                    start: progress.start,
                    end: progress.end,
                    cursor,
                    blocks_processed,
                    failed_ranges,
                },
            },
            SyncAction::FetchBlocks { start: cursor, end: batch_end_of(cursor, progress.end) },
        )
    }
}

/// The transition function of the engine: the state and the action that
/// follow `event` in `state`. An event that the state does not wait for
/// changes nothing.
pub open spec fn sync_next(state: SyncStateView, event: SyncEvent) -> (SyncStateView, SyncAction) {
    match (state, event) {
        (SyncStateView::Idle, SyncEvent::Start { start_height, end_height: Some(end) }) => range_resolved(
            start_height,
            end,
        ),
        (SyncStateView::Idle, SyncEvent::Start { start_height, end_height: None }) => (
            SyncStateView::Resolving { start: start_height },
            SyncAction::ResolveLatestHeight,
        ),
        (SyncStateView::Resolving { start }, SyncEvent::LatestHeight(Ok(end))) => range_resolved(start, end),
        (SyncStateView::Resolving { start }, SyncEvent::LatestHeight(Err(detail))) => (
            SyncStateView::Errored { error: SyncError::RemoteUnavailable { batch: None, detail } },
            SyncAction::Finish,
        ),
        (
            SyncStateView::Importing { start, end, step: ImportStep::Lookup },
            SyncEvent::AccountLookup(Ok(Some(account))),
        ) => account_ready(account, start, end),
        (SyncStateView::Importing { start, end, step: ImportStep::Lookup }, SyncEvent::AccountLookup(Ok(None))) => (
            SyncStateView::Importing { start, end, step: ImportStep::Create },
            SyncAction::CreateAccount,
        ),
        (SyncStateView::Importing { start, end, step: ImportStep::Lookup }, SyncEvent::AccountLookup(Err(detail))) => (
            SyncStateView::Errored { error: SyncError::AccountImportFailed { detail } },
            SyncAction::Finish,
        ),
        (
            SyncStateView::Importing { start, end, step: ImportStep::Create },
            SyncEvent::AccountCreated(Ok(account)),
        ) => account_ready(account, start, end),
        (SyncStateView::Importing { start, end, step: ImportStep::Create }, SyncEvent::AccountCreated(Err(detail))) => (
            SyncStateView::Errored { error: SyncError::AccountImportFailed { detail } },
            SyncAction::Finish,
        ),
        (SyncStateView::Fetching { progress }, SyncEvent::BlocksFetched(Ok(fetched))) => if fetched == 0 {
            (SyncStateView::Done { summary: progress.summary() }, SyncAction::Finish)
        } else {
            (
                SyncStateView::Scanning { progress, fetched },
                SyncAction::ScanBlocks { account: progress.account, from_height: progress.cursor, limit: fetched },
            )
        },
        (SyncStateView::Fetching { progress }, SyncEvent::BlocksFetched(Err(detail))) => (
            SyncStateView::Errored {
                error: SyncError::RemoteUnavailable {
                    batch: Some(HeightRange { start: progress.cursor, end: progress.batch_end() }),
                    detail,
                },
            },
            SyncAction::Finish,
        ),
        (SyncStateView::Scanning { progress, fetched }, SyncEvent::ScanFinished { succeeded }) => batch_advanced(
            progress,
            fetched,
            succeeded,
        ),
        _ => (state, SyncAction::Wait),
    }
}

/// Last height of the batch that starts at `cursor` in a range that ends at
/// `end`.
pub fn batch_end(cursor: u64, end: u64) -> (last: u64)
    ensures
        last == batch_end_of(cursor, end),
{
    if cursor <= end && end - cursor >= BATCH_SIZE - 1 {
        cursor + (BATCH_SIZE - 1)
    } else {
        end
    }
}

/// The step that follows once both ends of the range are known.
fn resolve_range(start: u64, end: u64) -> (next: (SyncState, SyncAction))
    ensures
        (next.0@, next.1) == range_resolved(start, end),
{
    if start > end {
        (SyncState::Errored { error: SyncError::InvalidRange { start, end } }, SyncAction::Finish)
    } else if start == end {
        let summary = SyncSummary { blocks_processed: 0, final_height: start, failed_ranges: Vec::new() };
        (SyncState::Done { summary }, SyncAction::Finish)
    } else {
        (SyncState::Importing { start, end, step: ImportStep::Lookup }, SyncAction::LookupAccount)
    }
}

/// The step that follows once the account is known.
fn begin_batches(account: AccountHandle, start: u64, end: u64) -> (next: (SyncState, SyncAction))
    ensures
        (next.0@, next.1) == account_ready(account, start, end),
{
    let progress = SyncProgress {
        account,
        start,
        end,
        cursor: start,
        blocks_processed: 0,
        failed_ranges: Vec::new(),
    };
    (SyncState::Fetching { progress }, SyncAction::FetchBlocks { start, end: batch_end(start, end) })
}

/// The summary of a session that stops where `progress` stands.
fn summarize(progress: SyncProgress) -> (summary: SyncSummary)
    ensures
        summary@ == progress@.summary(),
{
    let final_height = if progress.cursor <= progress.start {
        progress.start
    } else {
        progress.cursor - 1
    };
    SyncSummary {
        blocks_processed: progress.blocks_processed,
        final_height,
        failed_ranges: progress.failed_ranges,
    }
}

/// The step that follows a scan.
fn advance(progress: SyncProgress, fetched: u64, succeeded: bool) -> (next: (SyncState, SyncAction))
    ensures
        (next.0@, next.1) == batch_advanced(progress@, fetched, succeeded),
{
    let last = batch_end(progress.cursor, progress.end);
    let blocks_processed = if fetched > u64::MAX - progress.blocks_processed {
        u64::MAX
    } else {
        progress.blocks_processed + fetched
    };
    let mut failed_ranges = progress.failed_ranges;
    if !succeeded {
        failed_ranges.push(HeightRange { start: progress.cursor, end: last });
    }
    if last >= progress.end {
        let summary = SyncSummary { blocks_processed, final_height: last, failed_ranges };
        (SyncState::Done { summary }, SyncAction::Finish)
    } else {
        let cursor = last + 1;
        let next_progress = SyncProgress {
            account: progress.account,
            start: progress.start,
            end: progress.end,
            cursor,
            blocks_processed,
            failed_ranges,
        };
        let action = SyncAction::FetchBlocks { start: cursor, end: batch_end(cursor, progress.end) };
        (SyncState::Fetching { progress: next_progress }, action)
    }
}

/// Advance a sync session by one event: returns the state that follows and
/// the action that the caller is to perform next.
pub fn sync_step(state: SyncState, event: SyncEvent) -> (next: (SyncState, SyncAction))
    ensures
        (next.0@, next.1) == sync_next(state@, event),
{
    match state {
        SyncState::Idle => match event {
            SyncEvent::Start { start_height, end_height: Some(end) } => resolve_range(start_height, end),
            SyncEvent::Start { start_height, end_height: None } => (
                SyncState::Resolving { start: start_height },
                SyncAction::ResolveLatestHeight,
            ),
            _ => (SyncState::Idle, SyncAction::Wait),
        },
        SyncState::Resolving { start } => match event {
            SyncEvent::LatestHeight(Ok(end)) => resolve_range(start, end),
            SyncEvent::LatestHeight(Err(detail)) => (
                SyncState::Errored { error: SyncError::RemoteUnavailable { batch: None, detail } },
                SyncAction::Finish,
            ),
            _ => (SyncState::Resolving { start }, SyncAction::Wait),
        },
        SyncState::Importing { start, end, step: ImportStep::Lookup } => match event {
            SyncEvent::AccountLookup(Ok(Some(account))) => begin_batches(account, start, end),
            SyncEvent::AccountLookup(Ok(None)) => (
                SyncState::Importing { start, end, step: ImportStep::Create },
                SyncAction::CreateAccount,
            ),
            SyncEvent::AccountLookup(Err(detail)) => (
                SyncState::Errored { error: SyncError::AccountImportFailed { detail } },
                SyncAction::Finish,
            ),
            _ => (SyncState::Importing { start, end, step: ImportStep::Lookup }, SyncAction::Wait),
        },
        SyncState::Importing { start, end, step: ImportStep::Create } => match event {
            SyncEvent::AccountCreated(Ok(account)) => begin_batches(account, start, end),
            SyncEvent::AccountCreated(Err(detail)) => (
                SyncState::Errored { error: SyncError::AccountImportFailed { detail } },
                SyncAction::Finish,
            ),
            _ => (SyncState::Importing { start, end, step: ImportStep::Create }, SyncAction::Wait),
        },
        SyncState::Fetching { progress } => match event {
            SyncEvent::BlocksFetched(Ok(fetched)) => {
                if fetched == 0 {
                    (SyncState::Done { summary: summarize(progress) }, SyncAction::Finish)
                } else {
                    let action = SyncAction::ScanBlocks {
                        account: progress.account,
                        from_height: progress.cursor,
                        limit: fetched,
                    };
                    (SyncState::Scanning { progress, fetched }, action)
                }
            },
            SyncEvent::BlocksFetched(Err(detail)) => {
                let batch = HeightRange { start: progress.cursor, end: batch_end(progress.cursor, progress.end) };
                (
                    SyncState::Errored { error: SyncError::RemoteUnavailable { batch: Some(batch), detail } },
                    SyncAction::Finish,
                )
            },
            _ => (SyncState::Fetching { progress }, SyncAction::Wait),
        },
        SyncState::Scanning { progress, fetched } => match event {
            SyncEvent::ScanFinished { succeeded } => advance(progress, fetched, succeeded),
            _ => (SyncState::Scanning { progress, fetched }, SyncAction::Wait),
        },
        SyncState::Done { summary } => (SyncState::Done { summary }, SyncAction::Wait),
        SyncState::Errored { error } => (SyncState::Errored { error }, SyncAction::Wait),
    }
}

impl SyncEvent {
    /// A copy of the event.
    pub fn duplicate(&self) -> (copy: SyncEvent)
        ensures
            copy == *self,
    {
        match self {
            SyncEvent::Start { start_height, end_height } => SyncEvent::Start {
                start_height: *start_height,
                end_height: *end_height,
            },
            SyncEvent::LatestHeight(Ok(height)) => SyncEvent::LatestHeight(Ok(*height)),
            SyncEvent::LatestHeight(Err(detail)) => SyncEvent::LatestHeight(Err(detail.clone())),
            SyncEvent::AccountLookup(Ok(account)) => SyncEvent::AccountLookup(Ok(*account)),
            SyncEvent::AccountLookup(Err(detail)) => SyncEvent::AccountLookup(Err(detail.clone())),
            SyncEvent::AccountCreated(Ok(account)) => SyncEvent::AccountCreated(Ok(*account)),
            SyncEvent::AccountCreated(Err(detail)) => SyncEvent::AccountCreated(Err(detail.clone())),
            SyncEvent::BlocksFetched(Ok(fetched)) => SyncEvent::BlocksFetched(Ok(*fetched)),
            SyncEvent::BlocksFetched(Err(detail)) => SyncEvent::BlocksFetched(Err(detail.clone())),
            SyncEvent::ScanFinished { succeeded } => SyncEvent::ScanFinished { succeeded: *succeeded },
        }
    }
}

/// The state of a session that started idle and has seen the first `count`
/// of `events`.
pub open spec fn state_after(events: Seq<SyncEvent>, count: nat) -> SyncStateView
    decreases count,
{
    if count == 0 || count > events.len() {
        SyncStateView::Idle
    } else {
        sync_next(state_after(events, (count - 1) as nat), events[count - 1]).0
    }
}

/// The action with which a session that started idle answers the event at
/// position `index` of `events`.
pub open spec fn action_at(events: Seq<SyncEvent>, index: nat) -> SyncAction {
    sync_next(state_after(events, index), events[index as int]).1
}

/// Run a whole session over a recorded sequence of events, starting idle.
/// Returns the state after the last event and the action that answered each
/// event, in order.
pub fn replay_sync(events: &[SyncEvent]) -> (outcome: (SyncState, Vec<SyncAction>))
    ensures
        outcome.0@ == state_after(events@, events@.len()),
        outcome.1@.len() == events@.len(),
        forall|i: int| 0 <= i < events@.len() ==> outcome.1@[i] == action_at(events@, i as nat),
{
    let mut state = SyncState::Idle;
    let mut actions: Vec<SyncAction> = Vec::new();
    let mut i: usize = 0;
    while i < events.len()
        invariant
            i <= events@.len(),
            state@ == state_after(events@, i as nat),
            actions@.len() == i,
            forall|j: int| 0 <= j < i ==> actions@[j] == action_at(events@, j as nat),
        decreases events@.len() - i,
    {
        let (next_state, action) = sync_step(state, events[i].duplicate());
        state = next_state;
        actions.push(action);
        i = i + 1;
    }
    (state, actions)
}

/// The engine keeps its invariant: every step from a well-formed state leads
/// to a well-formed state.
pub proof fn lemma_step_preserves_wf(state: SyncStateView, event: SyncEvent)
    requires
        state.wf(),
    ensures
        sync_next(state, event).0.wf(),
{
}

/// Every state that a session reaches from idle is well-formed.
pub proof fn lemma_reachable_states_are_wf(events: Seq<SyncEvent>, count: nat)
    ensures
        state_after(events, count).wf(),
    decreases count,
{
    if count > 0 && count <= events.len() {
        lemma_reachable_states_are_wf(events, (count - 1) as nat);
        lemma_step_preserves_wf(state_after(events, (count - 1) as nat), events[count - 1]);
    }
}

/// A session whose start and end height are equal ends at once, with zero
/// blocks processed and without asking for a fetch. The same holds when the
/// end had to be resolved first and came back equal to the start.
pub proof fn lemma_empty_range_is_a_no_op(height: u64)
    ensures
        sync_next(SyncStateView::Idle, SyncEvent::Start { start_height: height, end_height: Some(height) }) == (
            SyncStateView::Done {
                summary: SyncSummaryView {
                    blocks_processed: 0,
                    final_height: height,
                    failed_ranges: Seq::<HeightRange>::empty(),
                },
            },
            SyncAction::Finish,
        ),
        sync_next(SyncStateView::Resolving { start: height }, SyncEvent::LatestHeight(Ok(height))) == (
            SyncStateView::Done {
                summary: SyncSummaryView {
                    blocks_processed: 0,
                    final_height: height,
                    failed_ranges: Seq::<HeightRange>::empty(),
                },
            },
            SyncAction::Finish,
        ),
{
}

/// A session whose start lies above its end fails with a range error as soon
/// as the end is known, before any account import or fetch.
pub proof fn lemma_inverted_range_is_refused(start: u64, end: u64)
    requires
        start > end,
    ensures
        sync_next(SyncStateView::Idle, SyncEvent::Start { start_height: start, end_height: Some(end) }) == (
            SyncStateView::Errored { error: SyncError::InvalidRange { start, end } },
            SyncAction::Finish,
        ),
        sync_next(SyncStateView::Resolving { start }, SyncEvent::LatestHeight(Ok(end))) == (
            SyncStateView::Errored { error: SyncError::InvalidRange { start, end } },
            SyncAction::Finish,
        ),
{
}

/// An account that storage already holds is used as it is: the engine goes
/// on to the first batch with that handle and never asks for a second
/// account to be created.
pub proof fn lemma_existing_account_is_reused(start: u64, end: u64, account: AccountHandle)
    ensures
        sync_next(
            SyncStateView::Importing { start, end, step: ImportStep::Lookup },
            SyncEvent::AccountLookup(Ok(Some(account))),
        ) == account_ready(account, start, end),
        account_ready(account, start, end).0->Fetching_progress.account == account,
        account_ready(account, start, end).1 is FetchBlocks,
{
}

/// An empty reply for a batch stops the session without an error. The height
/// it reports is the one reached before the batch, which lies strictly below
/// the requested end, and the counts and failed ranges are those gathered so
/// far.
pub proof fn lemma_empty_batch_is_a_soft_stop(progress: SyncProgressView)
    requires
        progress.wf(),
    ensures
        sync_next(SyncStateView::Fetching { progress }, SyncEvent::BlocksFetched(Ok(0))) == (
            SyncStateView::Done { summary: progress.summary() },
            SyncAction::Finish,
        ),
        progress.summary().final_height == height_reached(progress.start, progress.cursor),
        progress.summary().final_height < progress.end,
        progress.summary().blocks_processed == progress.blocks_processed,
        progress.summary().failed_ranges == progress.failed_ranges,
{
}

/// Every batch that the engine asks for lies inside the requested range,
/// starts at the cursor and holds at most `BATCH_SIZE` heights.
pub proof fn lemma_batch_bounds(progress: SyncProgressView)
    requires
        progress.wf(),
    ensures
        progress.start <= progress.cursor <= progress.batch_end() <= progress.end,
        progress.batch_end() - progress.cursor < 100,
        progress.batch_end() == progress.end || progress.batch_end() - progress.cursor == 99,
{
}

/// A finished scan moves the session past its batch whether or not the scan
/// succeeded: either the session is done at the end of the range, or the
/// cursor stands right behind the batch. A failed scan adds exactly the
/// batch's range to the failed ranges; a successful one adds nothing.
pub proof fn lemma_scan_always_advances(progress: SyncProgressView, fetched: u64, succeeded: bool)
    requires
        progress.wf(),
    ensures
        ({
            let next = sync_next(
                SyncStateView::Scanning { progress, fetched },
                SyncEvent::ScanFinished { succeeded },
            );
            let failed = if succeeded {
                progress.failed_ranges
            } else {
                progress.failed_ranges.push(HeightRange { start: progress.cursor, end: progress.batch_end() })
            };
            if progress.batch_end() == progress.end {
                &&& next.0 is Done
                &&& next.1 == SyncAction::Finish
                &&& next.0->Done_summary.final_height == progress.end
                &&& next.0->Done_summary.failed_ranges == failed
                &&& next.0->Done_summary.blocks_processed == saturating_sum(progress.blocks_processed, fetched)
            } else {
                &&& next.0 is Fetching
                &&& next.0->Fetching_progress.cursor == progress.batch_end() + 1
                &&& next.0->Fetching_progress.cursor > progress.cursor
                &&& next.0->Fetching_progress.failed_ranges == failed
                &&& next.0->Fetching_progress.blocks_processed == saturating_sum(progress.blocks_processed, fetched)
                &&& next.1 is FetchBlocks
            }
        }),
{
}

/// The position of a state in its range: the cursor while batches are in
/// flight.
pub open spec fn cursor_of(state: SyncStateView) -> Option<u64> {
    match state {
        SyncStateView::Fetching { progress } => Some(progress.cursor),
        SyncStateView::Scanning { progress, .. } => Some(progress.cursor),
        _ => None,
    }
}

/// The cursor never moves backwards: where a step leads from one state with a
/// cursor to another, the new cursor is at least the old one.
pub proof fn lemma_cursor_is_monotone(state: SyncStateView, event: SyncEvent)
    requires
        state.wf(),
        cursor_of(state) is Some,
        cursor_of(sync_next(state, event).0) is Some,
    ensures
        cursor_of(state)->Some_0 <= cursor_of(sync_next(state, event).0)->Some_0,
{
}

/// A session that has ended stays as it is, whatever is reported to it.
pub proof fn lemma_terminal_states_absorb(state: SyncStateView, event: SyncEvent)
    requires
        state.is_terminal(),
    ensures
        sync_next(state, event) == (state, SyncAction::Wait),
{
}

/// The engine asks for the end of the session exactly when it enters a
/// terminal state.
pub proof fn lemma_finish_means_terminal(state: SyncStateView, event: SyncEvent)
    requires
        !state.is_terminal(),
    ensures
        sync_next(state, event).1 == SyncAction::Finish <==> sync_next(state, event).0.is_terminal(),
{
}

} // verus!
