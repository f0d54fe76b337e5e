//! The operation poller: what to do for each clock reading and each status
//! reply while an operation of the remote processor is awaited.

use vstd::prelude::*;
use vstd::string::StringExecFns;
use crate::error::Error;
use crate::types::utils::{decimal, push_decimal};

verus! {

/// Wait budget where the caller names none, in seconds.
pub const DEFAULT_MAX_WAIT_SECONDS: u64 = 300;

/// Pause between two status requests, in seconds.
pub const POLL_INTERVAL_SECONDS: u64 = 2;

/// Status of an operation of the remote processor, decoded once from its
/// status record.
#[derive(Debug, Clone, PartialEq, Eq)]
pub enum OperationStatus {
    /// The operation has not ended.
    Pending,
    /// The operation succeeded and produced the transaction `result_id`.
    Success { result_id: String },
    /// The operation failed for `reason`.
    Failed { reason: String },
}

/// The reason given for a failure whose record names none.
pub open spec fn unknown_error() -> Seq<char> {
    "Unknown error"@
}

/// Decode the fields of a status record: the `status` word, the `txid` and
/// the `error` text, each where the record has it.
pub fn decode_operation_status(status: Option<String>, result_id: Option<String>, error: Option<String>) -> (decoded: OperationStatus)
    ensures
        match decoded {
            OperationStatus::Pending => {
                ||| status is None
                ||| (status->Some_0@ == "success"@ && result_id is None)
                ||| (status->Some_0@ != "success"@ && status->Some_0@ != "failed"@)
            },
            OperationStatus::Success { result_id: id } => {
                &&& status is Some
                &&& status->Some_0@ == "success"@
                &&& result_id == Some(id)
            },
            OperationStatus::Failed { reason } => {
                &&& status is Some
                &&& status->Some_0@ == "failed"@
                &&& match error {
                    Some(text) => reason == text,
                    None => reason@ == unknown_error(),
                }
            },
        },
{
    proof {
        reveal_strlit("success");
        reveal_strlit("failed");
    }
    match status {
        Some(word) => {
            if word == String::from_str("success") {
                match result_id {
                    Some(id) => OperationStatus::Success { result_id: id },
                    None => OperationStatus::Pending,
                }
            } else if word == String::from_str("failed") {
                match error {
                    Some(reason) => OperationStatus::Failed { reason },
                    None => OperationStatus::Failed { reason: String::from_str("Unknown error") },
                }
            } else {
                OperationStatus::Pending
            }
        },
        None => OperationStatus::Pending,
    }
}

/// What the poller has found out about an operation.
#[derive(Debug, Clone, PartialEq, Eq)]
pub enum WaitOutcome {
    /// The operation succeeded with this result identifier.
    Completed { result_id: String },
    /// The remote processor reported that the operation failed, for `reason`.
    Failed { reason: String },
    /// The wait budget of `waited_seconds` ran out while the operation was
    /// still pending. Nothing is known about how the operation will end.
    TimedOut { waited_seconds: u64 },
    /// The status of the operation could not be fetched: the transport
    /// failed or the remote processor refused the request. Nothing is known
    /// about how the operation will end.
    Aborted { error: Error },
    /// The operation has not ended and the budget is not used up.
    StillPending,
}

/// What the poller asks its caller to do next.
#[derive(Debug, Clone, PartialEq, Eq)]
pub enum PollAction {
    /// Ask the remote processor for the status records of the operation.
    FetchStatus,
    /// Sleep for `seconds`, then read the clock again.
    Sleep { seconds: u64 },
    /// Stop waiting; the outcome is final.
    Stop { outcome: WaitOutcome },
}

/// The wait budget in seconds for an optional limit.
pub open spec fn wait_budget(max_wait_seconds: Option<u64>) -> u64 {
    match max_wait_seconds {
        Some(seconds) => seconds,
        None => 300,
    }
}

/// What a list of status records says, from position `from` on: the first
/// record that is not pending decides.
pub open spec fn first_terminal(statuses: Seq<OperationStatus>, from: int) -> WaitOutcome
    decreases statuses.len() - from,
{
    if from < 0 || from >= statuses.len() {
        WaitOutcome::StillPending
    } else {
        match statuses[from] {
            OperationStatus::Success { result_id } => WaitOutcome::Completed { result_id },
            OperationStatus::Failed { reason } => WaitOutcome::Failed { reason },
            OperationStatus::Pending => first_terminal(statuses, from + 1),
        }
    }
}

/// One round of polling: the clock reading before the status request, and
/// what the request came back with.
#[derive(Debug, PartialEq, Eq)]
pub struct Poll {
    /// Whole seconds since the wait began.
    pub elapsed_seconds: u64,
    /// The records of the reply, in the order of the reply, or the error
    /// with which the request failed.
    pub reply: std::result::Result<Vec<OperationStatus>, Error>,
}

/// What the reply to a status request decides: a failed request ends the
/// wait with its error, and the records of a reply decide as
/// `first_terminal` says.
pub open spec fn reply_outcome(reply: std::result::Result<Vec<OperationStatus>, Error>) -> WaitOutcome {
    match reply {
        Ok(statuses) => first_terminal(statuses@, 0),
        Err(error) => WaitOutcome::Aborted { error },
    }
}

/// What one round decides under a budget of `budget` seconds: a timeout
/// where the clock has passed the budget, else what the reply decides.
pub open spec fn round_outcome(
    budget: u64,
    elapsed_seconds: u64,
    reply: std::result::Result<Vec<OperationStatus>, Error>,
) -> WaitOutcome {
    if elapsed_seconds > budget {
        WaitOutcome::TimedOut { waited_seconds: budget }
    } else {
        reply_outcome(reply)
    }
}

/// What a wait decides over the rounds from position `from` on: the outcome
/// of the first round that does not leave the operation pending.
pub open spec fn wait_outcome(budget: u64, polls: Seq<Poll>, from: int) -> WaitOutcome
    decreases polls.len() - from,
{
    if from < 0 || from >= polls.len() {
        WaitOutcome::StillPending
    } else {
        let outcome = round_outcome(budget, polls[from].elapsed_seconds, polls[from].reply);
        if outcome is StillPending {
            wait_outcome(budget, polls, from + 1)
        } else {
            outcome
        }
    }
}

/// Waits for one operation of the remote processor within a budget.
#[derive(Debug, Clone, PartialEq, Eq)]
pub struct OperationPoller {
    /// The operation that is awaited.
    pub operation_id: String,
    /// The wait budget in seconds.
    pub max_wait_seconds: u64,
}

impl OperationPoller {
    /// A poller for `operation_id` with the given budget, or the default of
    /// 300 seconds.
    pub fn new(operation_id: String, max_wait_seconds: Option<u64>) -> (poller: OperationPoller)
        ensures
            poller.operation_id == operation_id,
            poller.max_wait_seconds == wait_budget(max_wait_seconds),
    {
        let budget = match max_wait_seconds {
            Some(seconds) => seconds,
            None => DEFAULT_MAX_WAIT_SECONDS,
        };
        OperationPoller { operation_id, max_wait_seconds: budget }
    }

    /// Decide on a clock reading, taken before each status request: give up
    /// with a timeout once more than the budget has elapsed, else ask for the
    /// status.
    pub fn check_clock(&self, elapsed_seconds: u64) -> (action: PollAction)
        ensures
            elapsed_seconds > self.max_wait_seconds ==> action == (PollAction::Stop {
                outcome: WaitOutcome::TimedOut { waited_seconds: self.max_wait_seconds },
            }),
            elapsed_seconds <= self.max_wait_seconds ==> action == PollAction::FetchStatus,
    {
        if elapsed_seconds > self.max_wait_seconds {
            PollAction::Stop { outcome: WaitOutcome::TimedOut { waited_seconds: self.max_wait_seconds } }
        } else {
            PollAction::FetchStatus
        }
    }

    /// Decide on the status records of a reply: stop at the first record
    /// that is a success or a failure, else sleep for the poll interval.
    pub fn check_status(&self, statuses: &[OperationStatus]) -> (action: PollAction)
        ensures
            first_terminal(statuses@, 0) is StillPending ==> action == (PollAction::Sleep { seconds: 2 }),
            !(first_terminal(statuses@, 0) is StillPending) ==> action == (PollAction::Stop {
                outcome: first_terminal(statuses@, 0),
            }),
    {
        let outcome = scan_statuses(statuses);
        match outcome {
            WaitOutcome::StillPending => PollAction::Sleep { seconds: POLL_INTERVAL_SECONDS },
            _ => PollAction::Stop { outcome },
        }
    }

    /// Decide on what a status request came back with: a failed request ends
    /// the wait with its error, unchanged, and no further request is made;
    /// the records of a reply decide as `check_status` says.
    pub fn check_reply(&self, reply: std::result::Result<Vec<OperationStatus>, Error>) -> (action: PollAction)
        ensures
            reply_outcome(reply) is StillPending ==> action == (PollAction::Sleep { seconds: 2 }),
            !(reply_outcome(reply) is StillPending) ==> action == (PollAction::Stop { outcome: reply_outcome(reply) }),
    {
        match reply {
            Ok(statuses) => self.check_status(statuses.as_slice()),
            Err(error) => PollAction::Stop { outcome: WaitOutcome::Aborted { error } },
        }
    }

    /// Run the poller over recorded rounds, in order, and return the outcome
    /// of the first round that ends the wait; `StillPending` where none does.
    pub fn replay(&self, polls: &[Poll]) -> (outcome: WaitOutcome)
        ensures
            outcome == wait_outcome(self.max_wait_seconds, polls@, 0),
    {
        let mut i: usize = 0;
        while i < polls.len()
            invariant
                i <= polls@.len(),
                wait_outcome(self.max_wait_seconds, polls@, 0) == wait_outcome(
                    self.max_wait_seconds,
                    polls@,
                    i as int,
                ),
            decreases polls@.len() - i,
        {
            match self.check_clock(polls[i].elapsed_seconds) {
                PollAction::Stop { outcome } => {
                    return outcome;
                },
                _ => {},
            }
            match &polls[i].reply {
                Ok(statuses) => match self.check_status(statuses.as_slice()) {
                    PollAction::Stop { outcome } => {
                        return outcome;
                    },
                    _ => {},
                },
                Err(error) => {
                    return WaitOutcome::Aborted { error: error.duplicate() };
                },
            }
            i = i + 1;
        }
        WaitOutcome::StillPending
    }
}

/// What a list of status records says: the first record that is not pending
/// decides.
fn scan_statuses(statuses: &[OperationStatus]) -> (outcome: WaitOutcome)
    ensures
        outcome == first_terminal(statuses@, 0),
{
    let mut i: usize = 0;
    while i < statuses.len()
        invariant
            i <= statuses@.len(),
            first_terminal(statuses@, 0) == first_terminal(statuses@, i as int),
        decreases statuses@.len() - i,
    {
        match &statuses[i] {
            OperationStatus::Success { result_id } => {
                return WaitOutcome::Completed { result_id: result_id.clone() };
            },
            OperationStatus::Failed { reason } => {
                return WaitOutcome::Failed { reason: reason.clone() };
            },
            OperationStatus::Pending => {},
        }
        i = i + 1;
    }
    WaitOutcome::StillPending
}

/// Message for a remote failure: names the operation and gives the remote
/// processor's reason verbatim.
pub open spec fn failure_text(operation_id: Seq<char>, reason: Seq<char>) -> Seq<char> {
    "Operation "@ + operation_id + " failed: "@ + reason
}

/// Message for a timeout: says how long was waited, and that the operation
/// was not reported as failed and may still complete.
pub open spec fn timeout_text(operation_id: Seq<char>, waited_seconds: u64) -> Seq<char> {
    "Operation "@ + operation_id + " is still pending after "@ + decimal(waited_seconds as nat)
        + " seconds; it was not reported as failed and may still complete"@
}

/// The message of a remote failure.
pub fn failure_message(operation_id: &str, reason: &str) -> (message: String)
    ensures
        message@ == failure_text(operation_id@, reason@),
{
    let mut message = String::from_str("Operation ");
    message.append(operation_id);
    message.append(" failed: ");
    message.append(reason);
    message
}

/// The message of a timeout.
pub fn timeout_message(operation_id: &str, waited_seconds: u64) -> (message: String)
    ensures
        message@ == timeout_text(operation_id@, waited_seconds),
{
    let mut message = String::from_str("Operation ");
    message.append(operation_id);
    message.append(" is still pending after ");
    push_decimal(&mut message, waited_seconds);
    message.append(" seconds; it was not reported as failed and may still complete");
    message
}

/// Whether `result` is how `outcome` is reported for the operation: a result
/// identifier for a success, a transaction error with the remote reason for
/// a failure, a timeout error for a timeout, the error of a failed status
/// request as it is, and nothing while the operation is pending.
pub open spec fn is_report_of(
    outcome: WaitOutcome,
    operation_id: Seq<char>,
    result: Option<std::result::Result<String, Error>>,
) -> bool {
    match outcome {
        WaitOutcome::Completed { result_id } => result == Some(Ok::<String, Error>(result_id)),
        WaitOutcome::Failed { reason } => {
            &&& result matches Some(Err(Error::Transaction(message)))
            &&& message@ == failure_text(operation_id, reason@)
        },
        WaitOutcome::TimedOut { waited_seconds } => {
            &&& result matches Some(Err(Error::Timeout { operation_id: id, waited_seconds: waited }))
            &&& id@ == operation_id
            &&& waited == waited_seconds
        },
        WaitOutcome::Aborted { error } => result == Some(Err::<String, Error>(error)),
        WaitOutcome::StillPending => result is None,
    }
}

impl WaitOutcome {
    /// Report the outcome to the caller of a wait on `operation_id`.
    pub fn into_result(self, operation_id: &str) -> (result: Option<std::result::Result<String, Error>>)
        ensures
            is_report_of(self, operation_id@, result),
    {
        match self {
            WaitOutcome::Completed { result_id } => Some(Ok(result_id)),
            WaitOutcome::Failed { reason } => Some(
                Err(Error::Transaction(failure_message(operation_id, reason.as_str()))),
            ),
            WaitOutcome::TimedOut { waited_seconds } => Some(
                Err(Error::Timeout { operation_id: String::from_str(operation_id), waited_seconds }),
            ),
            WaitOutcome::Aborted { error } => Some(Err(error)),
            WaitOutcome::StillPending => None,
        }
    }
}

/// A wait reports success only with a result identifier that the remote
/// processor sent: some record of some reply is a success with exactly that
/// identifier.
pub proof fn lemma_success_was_reported(budget: u64, polls: Seq<Poll>, from: int)
    requires
        0 <= from,
        wait_outcome(budget, polls, from) is Completed,
    ensures
        exists|round: int, record: int|
            from <= round < polls.len() && polls[round].reply is Ok && 0 <= record < polls[round].reply->Ok_0@.len()
                && #[trigger] polls[round].reply->Ok_0@[record] == (OperationStatus::Success {
                result_id: wait_outcome(budget, polls, from)->Completed_result_id,
            }),
    decreases polls.len() - from,
{
    let outcome = round_outcome(budget, polls[from].elapsed_seconds, polls[from].reply);
    if outcome is StillPending {
        lemma_success_was_reported(budget, polls, from + 1);
    } else {
        let statuses = polls[from].reply->Ok_0@;
        lemma_terminal_record(statuses, 0);
        let record = choose|record: int|
            0 <= record < statuses.len() && #[trigger] statuses[record] == (OperationStatus::Success {
                result_id: outcome->Completed_result_id,
            });
        assert(polls[from].reply->Ok_0@[record] == (OperationStatus::Success {
            result_id: wait_outcome(budget, polls, from)->Completed_result_id,
        }));
    }
}

/// Where a list of records decides for success or failure, some record of
/// the list is that success or that failure, word for word.
pub proof fn lemma_terminal_record(statuses: Seq<OperationStatus>, from: int)
    requires
        0 <= from,
    ensures
        first_terminal(statuses, from) matches WaitOutcome::Completed { result_id } ==> exists|record: int|
            from <= record < statuses.len() && #[trigger] statuses[record] == (OperationStatus::Success { result_id }),
        first_terminal(statuses, from) matches WaitOutcome::Failed { reason } ==> exists|record: int|
            from <= record < statuses.len() && #[trigger] statuses[record] == (OperationStatus::Failed { reason }),
        !(first_terminal(statuses, from) is TimedOut),
        !(first_terminal(statuses, from) is Aborted),
    decreases statuses.len() - from,
{
    if from < statuses.len() {
        match statuses[from] {
            OperationStatus::Pending => {
                lemma_terminal_record(statuses, from + 1);
            },
            _ => {},
        }
    }
}

/// A wait whose rounds all find the operation pending within the budget is
/// itself still pending; it never turns into a success or a failure.
pub proof fn lemma_pending_stays_pending(budget: u64, polls: Seq<Poll>, from: int)
    requires
        0 <= from,
        forall|round: int|
            from <= round < polls.len() ==> (#[trigger] polls[round]).elapsed_seconds <= budget && reply_outcome(
                polls[round].reply,
            ) is StillPending,
    ensures
        wait_outcome(budget, polls, from) is StillPending,
    decreases polls.len() - from,
{
    if from < polls.len() {
        assert(polls[from].elapsed_seconds <= budget);
        lemma_pending_stays_pending(budget, polls, from + 1);
    }
}

/// A wait that finds the operation pending in every round until the clock
/// passes the budget ends with a timeout, not with a failure.
pub proof fn lemma_deadline_gives_timeout(budget: u64, polls: Seq<Poll>, from: int, late: int)
    requires
        0 <= from <= late < polls.len(),
        polls[late].elapsed_seconds > budget,
        forall|round: int|
            from <= round < late ==> (#[trigger] polls[round]).elapsed_seconds <= budget && reply_outcome(
                polls[round].reply,
            ) is StillPending,
    ensures
        wait_outcome(budget, polls, from) == (WaitOutcome::TimedOut { waited_seconds: budget }),
    decreases late - from,
{
    if from < late {
        assert(polls[from].elapsed_seconds <= budget);
        lemma_deadline_gives_timeout(budget, polls, from + 1, late);
    }
}

/// A status request that fails within the budget, before any reply held a
/// success or a failure, ends the wait with the error of that request: the
/// rounds that follow play no part, and the wait on any operation reports
/// that error unchanged.
pub proof fn lemma_failed_fetch_ends_the_wait(
    budget: u64,
    polls: Seq<Poll>,
    from: int,
    failed: int,
    operation_id: Seq<char>,
)
    requires
        0 <= from <= failed < polls.len(),
        polls[failed].elapsed_seconds <= budget,
        polls[failed].reply is Err,
        forall|round: int|
            from <= round < failed ==> (#[trigger] polls[round]).elapsed_seconds <= budget && reply_outcome(
                polls[round].reply,
            ) is StillPending,
    ensures
        wait_outcome(budget, polls, from) == (WaitOutcome::Aborted { error: polls[failed].reply->Err_0 }),
        is_report_of(
            wait_outcome(budget, polls, from),
            operation_id,
            Some(Err::<String, Error>(polls[failed].reply->Err_0)),
        ),
    decreases failed - from,
{
    if from < failed {
        assert(polls[from].elapsed_seconds <= budget);
        lemma_failed_fetch_ends_the_wait(budget, polls, from + 1, failed, operation_id);
    }
}

} // verus!
