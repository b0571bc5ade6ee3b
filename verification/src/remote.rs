//! The remote proving state machine: one in-flight proving job, driven
//! from upload through submission and status polling to a downloaded and
//! decoded receipt.
//!
//! The machine only decides; the surrounding loop performs the action
//! each step demands (an upload, a query, a sleep, a download) against
//! the remote capability and hands the answer back as the next event.
//! Transient status-query failures retry after a fixed backoff and are
//! never surfaced; upload failures are surfaced at once, with no retry of
//! their own.

use vstd::prelude::*;

use crate::errors::RelayError;
use crate::exec::{decode_receipt, receipt_journal_of};
use crate::text::copy_bytes;

verus! {

/// Seconds of the fixed backoff between two status polls.
pub const POLL_INTERVAL_SEC: u64 = 4;

/// The status keyword the remote backend reports while a job is still in
/// progress (the bytes of `RUNNING`).
pub open spec fn running_keyword() -> Seq<u8> {
    seq![82u8, 85u8, 78u8, 78u8, 73u8, 78u8, 71u8]
}

/// The status keyword the remote backend reports for a finished job (the
/// bytes of `SUCCEEDED`).
pub open spec fn succeeded_keyword() -> Seq<u8> {
    seq![83u8, 85u8, 67u8, 67u8, 69u8, 69u8, 68u8, 69u8, 68u8]
}

/// Whether a status byte string is the in-progress keyword.
pub fn is_running(s: &Vec<u8>) -> (r: bool)
    ensures
        r <==> s@ == running_keyword(),
{
    let r = s.len() == 7 && s[0] == 82 && s[1] == 85 && s[2] == 78 && s[3] == 78 && s[4] == 73
        && s[5] == 78 && s[6] == 71;
    proof {
        if r {
            assert(s@ =~= running_keyword());
        }
    }
    r
}

/// Whether a status byte string is the success keyword.
pub fn is_succeeded(s: &Vec<u8>) -> (r: bool)
    ensures
        r <==> s@ == succeeded_keyword(),
{
    let r = s.len() == 9 && s[0] == 83 && s[1] == 85 && s[2] == 67 && s[3] == 67 && s[4] == 69
        && s[5] == 69 && s[6] == 68 && s[7] == 69 && s[8] == 68;
    proof {
        if r {
            assert(s@ =~= succeeded_keyword());
        }
    }
    r
}

/// The outcome of one image upload, as the remote capability reports it.
#[derive(Debug, Clone, PartialEq, Eq)]
pub enum UploadImageEvent {
    /// The image was uploaded and registered.
    Created,
    /// The image identifier was already registered.
    AlreadyExists,
    /// The upload failed for any other reason.
    TransportFailed,
}

/// Whether an upload outcome counts as success.
pub open spec fn upload_ok(ev: UploadImageEvent) -> bool {
    ev is Created || ev is AlreadyExists
}

/// Judges one image upload. Registering an image is idempotent: an
/// "already exists" answer is success, not an error, because several
/// relay instances may race to register the same program. Any other
/// failure is `UploadFailed`, and is not retried here — retrying an
/// upload is left to the caller.
pub fn upload_image_outcome(ev: &UploadImageEvent) -> (r: Result<(), RelayError>)
    ensures
        (r is Ok) <==> upload_ok(*ev),
        r matches Err(e) ==> e is UploadFailed,
{
    match ev {
        UploadImageEvent::Created => Ok(()),
        UploadImageEvent::AlreadyExists => Ok(()),
        UploadImageEvent::TransportFailed => Err(RelayError::UploadFailed),
    }
}

/// Uploading an image is idempotent: the upload that registers the image
/// and a later upload of the same image, answered with "already exists",
/// both count as success.
pub proof fn lemma_upload_idempotent()
    ensures
        upload_ok(UploadImageEvent::Created),
        upload_ok(UploadImageEvent::AlreadyExists),
{
}

/// One answer of the status query: either the query itself failed
/// (a transient network error), or the backend reported a status string
/// and perhaps a receipt location.
#[derive(Debug, Clone, PartialEq, Eq)]
pub enum StatusEvent {
    QueryFailed,
    Report { status: Vec<u8>, receipt_url: Option<Vec<u8>> },
}

/// Whether a status answer makes the poll loop back off and query again:
/// transient query failures and in-progress reports do.
pub open spec fn status_retries(ev: StatusEvent) -> bool {
    match ev {
        StatusEvent::QueryFailed => true,
        StatusEvent::Report { status, receipt_url } => status@ == running_keyword(),
    }
}

/// What the poll loop does after one status answer.
#[derive(Debug)]
pub enum PollStep {
    /// Sleep the backoff interval and query again.
    Retry,
    /// The job succeeded: fetch the receipt from this location.
    Fetch { url: Vec<u8> },
    /// Terminal failure.
    Fail { error: RelayError },
}

/// The poll relation: the step each status answer demands. A transient
/// query failure and an in-progress report retry; success with a receipt
/// location proceeds to the fetch; success without one is
/// `MissingReceiptLocation`; any other status is terminal
/// `BadJobStatus` with that status.
pub open spec fn poll_step_spec(ev: StatusEvent, r: PollStep) -> bool {
    match ev {
        StatusEvent::QueryFailed => r is Retry,
        StatusEvent::Report { status, receipt_url } => {
            if status@ == running_keyword() {
                r is Retry
            } else if status@ == succeeded_keyword() {
                match receipt_url {
                    Some(u) => r matches PollStep::Fetch { url } && url@ == u@,
                    None => r matches PollStep::Fail { error } && error is MissingReceiptLocation,
                }
            } else {
                r matches PollStep::Fail { error } && (error matches RelayError::BadJobStatus {
                    status: st,
                } && st@ == status@)
            }
        },
    }
}

/// Decides one step of the poll loop from one status answer.
pub fn poll_step(ev: &StatusEvent) -> (r: PollStep)
    ensures
        poll_step_spec(*ev, r),
        (r is Retry) <==> status_retries(*ev),
{
    match ev {
        StatusEvent::QueryFailed => PollStep::Retry,
        StatusEvent::Report { status, receipt_url } => {
            if is_running(status) {
                PollStep::Retry
            } else if is_succeeded(status) {
                match receipt_url {
                    Some(u) => PollStep::Fetch { url: copy_bytes(u) },
                    None => PollStep::Fail { error: RelayError::MissingReceiptLocation },
                }
            } else {
                PollStep::Fail { error: RelayError::BadJobStatus { status: copy_bytes(status) } }
            }
        },
    }
}

/// The number of leading status answers that make the poll loop retry.
pub open spec fn retry_prefix_len(events: Seq<StatusEvent>) -> int
    decreases events.len(),
{
    if events.len() == 0 {
        0
    } else if status_retries(events[0]) {
        1 + retry_prefix_len(events.skip(1))
    } else {
        0
    }
}

proof fn lemma_retry_prefix(events: Seq<StatusEvent>, i: int)
    requires
        0 <= i <= events.len(),
        forall|j: int| 0 <= j < i ==> status_retries(#[trigger] events[j]),
        i < events.len() ==> !status_retries(events[i]),
    ensures
        retry_prefix_len(events) == i,
    decreases i,
{
    if i == 0 {
    } else {
        assert(status_retries(events[0]));
        lemma_retry_prefix(events.skip(1), i - 1);
    }
}

/// The result of driving the poll loop over a script of status answers;
/// each carries the number of backoff sleeps performed before it.
#[derive(Debug)]
pub enum PollRunResult {
    /// Every answer retried: the job is still in progress.
    Pending { sleeps: usize },
    /// The job succeeded: the receipt waits at this location.
    Fetch { url: Vec<u8>, sleeps: usize },
    /// Terminal failure.
    Fail { error: RelayError, sleeps: usize },
}

/// What the poll loop owes for a script: with `k` leading retrying
/// answers, exactly `k` sleeps, and then whatever the first non-retrying
/// answer demands — or still pending when every answer retried.
pub open spec fn poll_run_spec(events: Seq<StatusEvent>, r: PollRunResult) -> bool {
    let k = retry_prefix_len(events);
    if k == events.len() {
        r matches PollRunResult::Pending { sleeps } && sleeps == k
    } else {
        match events[k] {
            StatusEvent::QueryFailed => false,
            StatusEvent::Report { status, receipt_url } => {
                if status@ == running_keyword() {
                    false
                } else if status@ == succeeded_keyword() {
                    match receipt_url {
                        Some(u) => r matches PollRunResult::Fetch { url, sleeps } && url@ == u@
                            && sleeps == k,
                        None => r matches PollRunResult::Fail { error, sleeps } && error
                            is MissingReceiptLocation && sleeps == k,
                    }
                } else {
                    r matches PollRunResult::Fail { error, sleeps } && (error
                        matches RelayError::BadJobStatus { status: st } && st@ == status@)
                        && sleeps == k
                }
            },
        }
    }
}

/// Drives the poll loop over a scripted sequence of status answers, first
/// to last, stopping at the first answer that does not retry, and counts
/// the backoff sleeps performed on the way. The live loop behaves the
/// same, one answer at a time; retries are unbounded (the caller imposes
/// a timeout if one is wanted), so a script of retries alone leaves the
/// job pending.
pub fn drive_poll(events: &Vec<StatusEvent>) -> (r: PollRunResult)
    ensures
        poll_run_spec(events@, r),
{
    let mut i: usize = 0;
    while i < events.len()
        invariant
            i <= events@.len(),
            forall|j: int| 0 <= j < i ==> status_retries(#[trigger] events@[j]),
        decreases events@.len() - i,
    {
        match poll_step(&events[i]) {
            PollStep::Retry => {
                i = i + 1;
            },
            PollStep::Fetch { url } => {
                proof {
                    lemma_retry_prefix(events@, i as int);
                }
                return PollRunResult::Fetch { url, sleeps: i };
            },
            PollStep::Fail { error } => {
                proof {
                    lemma_retry_prefix(events@, i as int);
                }
                return PollRunResult::Fail { error, sleeps: i };
            },
        }
    }
    proof {
        lemma_retry_prefix(events@, events@.len() as int);
    }
    PollRunResult::Pending { sleeps: i }
}

/// One in-flight remote proving job, from nothing submitted to a decoded
/// journal or a terminal error.
#[derive(Debug)]
pub enum RemoteState {
    /// Nothing done yet: the program binary must be uploaded.
    Start,
    /// The binary is registered (uploaded, or already present): the input
    /// must be uploaded.
    ImageReady,
    /// The input is uploaded under this identifier: the proving session
    /// must be created.
    InputReady { input_id: Vec<u8> },
    /// The session exists: its status is polled.
    Polling { session_id: Vec<u8> },
    /// The job succeeded: the receipt waits at `url`.
    Fetching { session_id: Vec<u8>, url: Vec<u8> },
    /// Terminal: the journal was extracted from the receipt.
    Done { journal: Vec<u8> },
    /// Terminal: the job failed.
    Failed { error: RelayError },
}

/// What the surrounding loop must do next; `Halt` for the terminal
/// states.
#[derive(Debug)]
pub enum RemoteAction {
    UploadImage,
    UploadInput,
    CreateSession,
    QueryStatus,
    /// Sleep the backoff interval, then query the status.
    SleepThenQuery,
    FetchReceipt { url: Vec<u8> },
    Halt,
}

/// The answer the surrounding loop hands back after performing an action.
#[derive(Debug)]
pub enum RemoteEvent {
    ImageUploaded { outcome: UploadImageEvent },
    /// The input identifier, or `None` when the upload failed.
    InputUploaded { input_id: Option<Vec<u8>> },
    /// The session identifier, or `None` when creation failed.
    SessionCreated { session_id: Option<Vec<u8>> },
    StatusReported { answer: StatusEvent },
    /// The raw receipt bytes, or `None` when the download failed.
    ReceiptFetched { body: Option<Vec<u8>> },
}

/// Which events answer which states.
pub open spec fn event_fits(state: RemoteState, event: RemoteEvent) -> bool {
    match state {
        RemoteState::Start => event is ImageUploaded,
        RemoteState::ImageReady => event is InputUploaded,
        RemoteState::InputReady { .. } => event is SessionCreated,
        RemoteState::Polling { .. } => event is StatusReported,
        RemoteState::Fetching { .. } => event is ReceiptFetched,
        RemoteState::Done { .. } => false,
        RemoteState::Failed { .. } => false,
    }
}

/// The transition relation of the remote proving machine: for a state and
/// the event that answers it, the next state and the demanded action.
pub open spec fn remote_step_spec(
    state: RemoteState,
    event: RemoteEvent,
    next: RemoteState,
    action: RemoteAction,
) -> bool {
    match (state, event) {
        (RemoteState::Start, RemoteEvent::ImageUploaded { outcome }) => {
            if upload_ok(outcome) {
                next is ImageReady && action is UploadInput
            } else {
                next matches RemoteState::Failed { error } && error is UploadFailed && action
                    is Halt
            }
        },
        (RemoteState::ImageReady, RemoteEvent::InputUploaded { input_id }) => {
            match input_id {
                Some(id) => next matches RemoteState::InputReady { input_id: nid } && nid@ == id@
                    && action is CreateSession,
                None => next matches RemoteState::Failed { error } && error is UploadFailed
                    && action is Halt,
            }
        },
        (RemoteState::InputReady { .. }, RemoteEvent::SessionCreated { session_id }) => {
            match session_id {
                Some(sid) => next matches RemoteState::Polling { session_id: s } && s@ == sid@
                    && action is QueryStatus,
                None => next matches RemoteState::Failed { error } && error is SubmissionFailed
                    && action is Halt,
            }
        },
        (RemoteState::Polling { session_id }, RemoteEvent::StatusReported { answer }) => {
            match answer {
                StatusEvent::QueryFailed => next matches RemoteState::Polling { session_id: s }
                    && s@ == session_id@ && action is SleepThenQuery,
                StatusEvent::Report { status, receipt_url } => {
                    if status@ == running_keyword() {
                        next matches RemoteState::Polling { session_id: s } && s@ == session_id@
                            && action is SleepThenQuery
                    } else if status@ == succeeded_keyword() {
                        match receipt_url {
                            Some(u) => next matches RemoteState::Fetching { session_id: s, url }
                                && s@ == session_id@ && url@ == u@ && (action
                                matches RemoteAction::FetchReceipt { url: au } && au@ == u@),
                            None => next matches RemoteState::Failed { error } && error
                                is MissingReceiptLocation && action is Halt,
                        }
                    } else {
                        next matches RemoteState::Failed { error } && (error
                            matches RelayError::BadJobStatus { status: st } && st@ == status@)
                            && action is Halt
                    }
                },
            }
        },
        (RemoteState::Fetching { .. }, RemoteEvent::ReceiptFetched { body }) => {
            match body {
                Some(buf) => {
                    match receipt_journal_of(buf@) {
                        Some(j) => next matches RemoteState::Done { journal } && journal@ == j
                            && action is Halt,
                        None => next matches RemoteState::Failed { error } && error
                            is ReceiptDecodeFailed && action is Halt,
                    }
                },
                None => next matches RemoteState::Failed { error } && error is ReceiptDecodeFailed
                    && action is Halt,
            }
        },
        _ => false,
    }
}

/// A fresh job: nothing submitted yet; the first action uploads the
/// program binary.
pub fn remote_init() -> (r: (RemoteState, RemoteAction))
    ensures
        r.0 is Start,
        r.1 is UploadImage,
{
    (RemoteState::Start, RemoteAction::UploadImage)
}

/// Performs one step of the remote proving machine: consumes the event
/// that answers the current state and returns the next state and the
/// action the surrounding loop must perform for it.
pub fn remote_step(state: RemoteState, event: RemoteEvent) -> (r: (RemoteState, RemoteAction))
    requires
        event_fits(state, event),
    ensures
        remote_step_spec(state, event, r.0, r.1),
{
    match (state, event) {
        (RemoteState::Start, RemoteEvent::ImageUploaded { outcome }) => {
            match upload_image_outcome(&outcome) {
                Ok(_) => (RemoteState::ImageReady, RemoteAction::UploadInput),
                Err(error) => (RemoteState::Failed { error }, RemoteAction::Halt),
            }
        },
        (RemoteState::ImageReady, RemoteEvent::InputUploaded { input_id }) => {
            match input_id {
                Some(id) => (
                    RemoteState::InputReady { input_id: id },
                    RemoteAction::CreateSession,
                ),
                None => (
                    RemoteState::Failed { error: RelayError::UploadFailed },
                    RemoteAction::Halt,
                ),
            }
        },
        (RemoteState::InputReady { .. }, RemoteEvent::SessionCreated { session_id }) => {
            match session_id {
                Some(sid) => (
                    RemoteState::Polling { session_id: sid },
                    RemoteAction::QueryStatus,
                ),
                None => (
                    RemoteState::Failed { error: RelayError::SubmissionFailed },
                    RemoteAction::Halt,
                ),
            }
        },
        (RemoteState::Polling { session_id }, RemoteEvent::StatusReported { answer }) => {
            match poll_step(&answer) {
                PollStep::Retry => (
                    RemoteState::Polling { session_id },
                    RemoteAction::SleepThenQuery,
                ),
                PollStep::Fetch { url } => {
                    let action_url = copy_bytes(&url);
                    (
                        RemoteState::Fetching { session_id, url },
                        RemoteAction::FetchReceipt { url: action_url },
                    )
                },
                PollStep::Fail { error } => (RemoteState::Failed { error }, RemoteAction::Halt),
            }
        },
        (RemoteState::Fetching { .. }, RemoteEvent::ReceiptFetched { body }) => {
            match body {
                Some(buf) => {
                    match decode_receipt(&buf) {
                        Some(journal) => (RemoteState::Done { journal }, RemoteAction::Halt),
                        None => (
                            RemoteState::Failed { error: RelayError::ReceiptDecodeFailed },
                            RemoteAction::Halt,
                        ),
                    }
                },
                None => (
                    RemoteState::Failed { error: RelayError::ReceiptDecodeFailed },
                    RemoteAction::Halt,
                ),
            }
        },
        (other, _) => {
            proof {
                assert(false);
            }
            (other, RemoteAction::Halt)
        },
    }
}

/// Whether the machine has reached a terminal state.
pub fn is_terminal(state: &RemoteState) -> (r: bool)
    ensures
        r <==> (*state is Done || *state is Failed),
{
    match state {
        RemoteState::Done { .. } => true,
        RemoteState::Failed { .. } => true,
        _ => false,
    }
}

/// Whether an event answers the machine's current state.
pub fn event_answers(state: &RemoteState, event: &RemoteEvent) -> (r: bool)
    ensures
        r <==> event_fits(*state, *event),
{
    match (state, event) {
        (RemoteState::Start, RemoteEvent::ImageUploaded { .. }) => true,
        (RemoteState::ImageReady, RemoteEvent::InputUploaded { .. }) => true,
        (RemoteState::InputReady { .. }, RemoteEvent::SessionCreated { .. }) => true,
        (RemoteState::Polling { .. }, RemoteEvent::StatusReported { .. }) => true,
        (RemoteState::Fetching { .. }, RemoteEvent::ReceiptFetched { .. }) => true,
        _ => false,
    }
}

/// The run relation of the remote machine: folding the step relation
/// from `state` over a script of events, consuming them in order, and
/// stopping at the first terminal state (or at an event that does not
/// answer the state, or when the script runs out), ends in state `fin`
/// with `consumed` events consumed.
pub open spec fn remote_run_spec(
    state: RemoteState,
    events: Seq<RemoteEvent>,
    fin: RemoteState,
    consumed: int,
) -> bool
    decreases events.len(),
{
    if state is Done || state is Failed || events.len() == 0 || !event_fits(state, events[0]) {
        fin == state && consumed == 0
    } else {
        exists|mid: RemoteState, act: RemoteAction|
            remote_step_spec(state, events[0], mid, act) && remote_run_spec(
                mid,
                events.skip(1),
                fin,
                consumed - 1,
            )
    }
}

/// Drives the remote machine from `state` over a script of events.
fn drive_remote_from(state: RemoteState, events: Vec<RemoteEvent>) -> (r: (RemoteState, usize))
    ensures
        remote_run_spec(state, events@, r.0, r.1 as int),
        r.1 <= events@.len(),
    decreases events@.len(),
{
    if events.len() == 0 {
        return (state, 0);
    }
    if is_terminal(&state) {
        return (state, 0);
    }
    if !event_answers(&state, &events[0]) {
        return (state, 0);
    }
    let ghost s0 = state;
    let mut rest = events;
    let ev = rest.remove(0);
    proof {
        assert(rest@ =~= events@.skip(1));
        assert(ev == events@[0]);
    }
    let (next, _action) = remote_step(state, ev);
    let ghost mid = next;
    let (fin, n) = drive_remote_from(next, rest);
    proof {
        assert(remote_step_spec(s0, events@[0], mid, _action));
        assert(remote_run_spec(mid, events@.skip(1), fin, n as int));
        assert(remote_run_spec(s0, events@, fin, n as int + 1));
    }
    (fin, n + 1)
}

/// Drives the remote machine from the fresh state over a script of
/// events: the result is the state and consumed-event count that folding
/// the step relation over the script yields (`remote_run_spec`). An
/// upload failure in the first event is terminal at once: exactly one
/// event is consumed, whatever follows in the script — there is no
/// built-in retry at the upload step.
pub fn drive_remote(events: Vec<RemoteEvent>) -> (r: (RemoteState, usize))
    ensures
        remote_run_spec(RemoteState::Start, events@, r.0, r.1 as int),
        r.1 <= events@.len(),
        events@.len() > 0 ==> ((events@[0] matches RemoteEvent::ImageUploaded { outcome }
            && !upload_ok(outcome)) ==> (r.0 matches RemoteState::Failed { error } && error
            is UploadFailed && r.1 == 1)),
{
    let r = drive_remote_from(RemoteState::Start, events);
    proof {
        if events@.len() > 0 && (events@[0] matches RemoteEvent::ImageUploaded { outcome }
            && !upload_ok(outcome)) {
            let (mid, act): (RemoteState, RemoteAction) = choose|mid: RemoteState,
                act: RemoteAction|
                remote_step_spec(RemoteState::Start, events@[0], mid, act) && remote_run_spec(
                    mid,
                    events@.skip(1),
                    r.0,
                    r.1 - 1,
                );
            assert(mid is Failed);
        }
    }
    r
}

} // verus!
