//! The upload worker's protocol: one worker owns one file's journey from
//! "just created" through settle delay, file read, authenticated POST, and —
//! on acceptance only — deletion of the local copy. The waiting, reading,
//! sending and deleting happen outside; this module is the worker's decision
//! core, a step function from the current phase and the outside world's answer
//! to the next phase and the next action. The driving loop performs each
//! action and feeds the resulting event back in, until the worker is finished.

use vstd::prelude::*;
use crate::upload::UploadResult;
use crate::upload::is_success_status;

verus! {

/// The settle delay, in seconds: how long a worker waits after the creation
/// event before touching the file, so that a file still being written is not
/// uploaded half-finished.
pub const SETTLE_DELAY_SECS: u64 = 60;

/// Where one worker stands in its file's journey.
pub enum WorkerPhase {
    /// Nothing done yet.
    Starting,
    /// Waiting out the settle delay.
    Settling,
    /// Reading the file and building the request body.
    Reading,
    /// Request sent; waiting for the remote service's answer.
    Sending,
    /// The remote service accepted with this status; deleting the local file.
    Deleting(u16),
    /// The job is over, with this outcome.
    Finished(UploadResult),
}

/// What the outside world reports back to the worker: the completion (or
/// failure) of the action the worker last asked for.
pub enum WorkerEvent {
    /// The worker was started for a freshly created file.
    Begin,
    /// The settle delay has elapsed.
    SettleElapsed,
    /// The file was read and the request body stands ready.
    FileRead,
    /// The file could not be read, or its name could not be resolved.
    ReadFailed(String),
    /// The remote service answered with this HTTP status.
    StatusReceived(u16),
    /// The request never completed (DNS, connection refused, timeout).
    TransportFailed(String),
    /// The local file was deleted.
    FileDeleted,
    /// The local file could not be deleted.
    DeleteFailed(String),
}

/// What the worker asks the outside world to do next.
pub enum WorkerAction {
    /// Wait this many seconds before touching the file.
    Wait(u64),
    /// Read the file and build the multipart body.
    ReadFile,
    /// Send the authenticated POST and report the answer.
    SendRequest,
    /// Delete the local file.
    DeleteFile,
    /// The job is over; nothing more to do.
    Stop,
}

/// Whether an event is one the worker can be answering in a phase: each phase
/// waits for the completion of exactly the action it asked for, so only the
/// matching reports may arrive.
pub open spec fn step_permitted(phase: WorkerPhase, event: WorkerEvent) -> bool {
    match (phase, event) {
        (WorkerPhase::Starting, WorkerEvent::Begin) => true,
        (WorkerPhase::Settling, WorkerEvent::SettleElapsed) => true,
        (WorkerPhase::Reading, WorkerEvent::FileRead) => true,
        (WorkerPhase::Reading, WorkerEvent::ReadFailed(_)) => true,
        (WorkerPhase::Sending, WorkerEvent::StatusReceived(_)) => true,
        (WorkerPhase::Sending, WorkerEvent::TransportFailed(_)) => true,
        (WorkerPhase::Deleting(_), WorkerEvent::FileDeleted) => true,
        (WorkerPhase::Deleting(_), WorkerEvent::DeleteFailed(_)) => true,
        _ => false,
    }
}

/// The worker's transition function: from the current phase and the event
/// just reported, the next phase and the action to perform.
pub open spec fn spec_step(phase: WorkerPhase, event: WorkerEvent) -> (WorkerPhase, WorkerAction) {
    match (phase, event) {
        (WorkerPhase::Starting, WorkerEvent::Begin) => (
            WorkerPhase::Settling,
            WorkerAction::Wait(SETTLE_DELAY_SECS),
        ),
        (WorkerPhase::Settling, WorkerEvent::SettleElapsed) => (
            WorkerPhase::Reading,
            WorkerAction::ReadFile,
        ),
        (WorkerPhase::Reading, WorkerEvent::FileRead) => (
            WorkerPhase::Sending,
            WorkerAction::SendRequest,
        ),
        (WorkerPhase::Reading, WorkerEvent::ReadFailed(why)) => (
            WorkerPhase::Finished(UploadResult::LocalIoFailure(why)),
            WorkerAction::Stop,
        ),
        (WorkerPhase::Sending, WorkerEvent::StatusReceived(code)) => {
            if is_success_status(code) {
                (WorkerPhase::Deleting(code), WorkerAction::DeleteFile)
            } else {
                (WorkerPhase::Finished(UploadResult::HttpFailure(code)), WorkerAction::Stop)
            }
        },
        (WorkerPhase::Sending, WorkerEvent::TransportFailed(why)) => (
            WorkerPhase::Finished(UploadResult::TransportFailure(why)),
            WorkerAction::Stop,
        ),
        (WorkerPhase::Deleting(code), WorkerEvent::FileDeleted) => (
            WorkerPhase::Finished(UploadResult::Accepted(code)),
            WorkerAction::Stop,
        ),
        (WorkerPhase::Deleting(_), WorkerEvent::DeleteFailed(why)) => (
            WorkerPhase::Finished(UploadResult::LocalIoFailure(why)),
            WorkerAction::Stop,
        ),
        _ => (phase, WorkerAction::Stop),
    }
}

/// Performs one worker step: the executable transition function the driving
/// loop calls between actions.
pub fn worker_step(phase: WorkerPhase, event: WorkerEvent) -> (r: (WorkerPhase, WorkerAction))
    requires
        step_permitted(phase, event),
    ensures
        r == spec_step(phase, event),
{
    match (phase, event) {
        (WorkerPhase::Starting, WorkerEvent::Begin) => (
            WorkerPhase::Settling,
            WorkerAction::Wait(SETTLE_DELAY_SECS),
        ),
        (WorkerPhase::Settling, WorkerEvent::SettleElapsed) => (
            WorkerPhase::Reading,
            WorkerAction::ReadFile,
        ),
        (WorkerPhase::Reading, WorkerEvent::FileRead) => (
            WorkerPhase::Sending,
            WorkerAction::SendRequest,
        ),
        (WorkerPhase::Reading, WorkerEvent::ReadFailed(why)) => (
            WorkerPhase::Finished(UploadResult::LocalIoFailure(why)),
            WorkerAction::Stop,
        ),
        (WorkerPhase::Sending, WorkerEvent::StatusReceived(code)) => {
            if crate::upload::status_accepted(code) {
                (WorkerPhase::Deleting(code), WorkerAction::DeleteFile)
            } else {
                (WorkerPhase::Finished(UploadResult::HttpFailure(code)), WorkerAction::Stop)
            }
        },
        (WorkerPhase::Sending, WorkerEvent::TransportFailed(why)) => (
            WorkerPhase::Finished(UploadResult::TransportFailure(why)),
            WorkerAction::Stop,
        ),
        (WorkerPhase::Deleting(code), WorkerEvent::FileDeleted) => (
            WorkerPhase::Finished(UploadResult::Accepted(code)),
            WorkerAction::Stop,
        ),
        (WorkerPhase::Deleting(_), WorkerEvent::DeleteFailed(why)) => (
            WorkerPhase::Finished(UploadResult::LocalIoFailure(why)),
            WorkerAction::Stop,
        ),
        (p, _) => (p, WorkerAction::Stop),
    }
}

/// One recorded step of a worker's run: the phase it was in, the event it
/// answered, and the phase and action it moved to.
pub struct WorkerStep {
    pub pre: WorkerPhase,
    pub event: WorkerEvent,
    pub post: WorkerPhase,
    pub action: WorkerAction,
}

/// Whether a recorded step is one the worker can actually take: the event is
/// permitted in the phase, and phase and action follow the transition
/// function.
pub open spec fn valid_step(s: WorkerStep) -> bool {
    &&& step_permitted(s.pre, s.event)
    &&& (s.post, s.action) == spec_step(s.pre, s.event)
}

/// Whether a sequence of recorded steps is a run of one worker: it begins at
/// the start, every step is valid, and each step begins where the previous
/// one ended.
pub open spec fn is_run(run: Seq<WorkerStep>) -> bool {
    &&& (forall|i: int| 0 <= i < run.len() ==> valid_step(#[trigger] run[i]))
    &&& (run.len() > 0 ==> run[0].pre is Starting)
    &&& (forall|i: int| 0 < i < run.len() ==> (#[trigger] run[i]).pre == run[i - 1].post)
}

/// How far along its journey a phase is. Every valid step strictly advances
/// this measure, so no phase is ever revisited within one run.
pub open spec fn phase_progress(p: WorkerPhase) -> nat {
    match p {
        WorkerPhase::Starting => 0,
        WorkerPhase::Settling => 1,
        WorkerPhase::Reading => 2,
        WorkerPhase::Sending => 3,
        WorkerPhase::Deleting(_) => 4,
        WorkerPhase::Finished(_) => 5,
    }
}

/// Every valid step strictly advances the worker's progress: the protocol
/// never loops and never returns to an earlier stage.
pub proof fn lemma_step_advances(s: WorkerStep)
    requires
        valid_step(s),
    ensures
        phase_progress(s.post) > phase_progress(s.pre),
{
}

/// Within one run, progress grows by at least one per step: the phase a later
/// step starts from is strictly further along than the phase an earlier step
/// started from.
pub proof fn lemma_run_progress(run: Seq<WorkerStep>, i: int, j: int)
    requires
        is_run(run),
        0 <= i < j < run.len(),
    ensures
        phase_progress(run[j].pre) >= phase_progress(run[i].pre) + (j - i),
    decreases j - i,
{
    lemma_step_advances(run[j - 1]);
    if i < j - 1 {
        lemma_run_progress(run, i, j - 1);
    }
}

/// Every run begins by waiting out the full settle delay: the first step's
/// only possible action is the sixty-second wait, so the file is neither
/// read nor sent anywhere before the delay has been ordered.
pub proof fn lemma_run_waits_first(run: Seq<WorkerStep>)
    requires
        is_run(run),
        run.len() > 0,
    ensures
        run[0].action == WorkerAction::Wait(SETTLE_DELAY_SECS),
{
    assert(valid_step(run[0]));
}

/// A request is sent exactly when the file was read and the body stands
/// ready; nothing else ever causes an upload attempt.
pub proof fn lemma_send_iff_body_ready(s: WorkerStep)
    requires
        valid_step(s),
    ensures
        (s.action is SendRequest) <==> (s.pre is Reading && s.event is FileRead),
{
}

/// At most one upload attempt per run: no two steps of one worker's run both
/// send the request. Together with the event filter — which yields exactly
/// one worker per path of an admitted event — this bounds the attempts for
/// each admitted path by one.
pub proof fn lemma_at_most_one_attempt(run: Seq<WorkerStep>, i: int, j: int)
    requires
        is_run(run),
        0 <= i < j < run.len(),
        run[i].action is SendRequest,
    ensures
        !(run[j].action is SendRequest),
{
    lemma_send_iff_body_ready(run[i]);
    if run[j].action is SendRequest {
        lemma_send_iff_body_ready(run[j]);
        lemma_run_progress(run, i, j);
    }
}

/// The local file is deleted exactly when the remote service has just
/// accepted the upload: a delete is ordered if and only if the answer to this
/// worker's own request was a success status. No failure of any kind, and no
/// other event, ever deletes the file.
pub proof fn lemma_delete_iff_accepted(s: WorkerStep)
    requires
        valid_step(s),
    ensures
        (s.action is DeleteFile) <==> (s.pre is Sending && (s.event matches
            WorkerEvent::StatusReceived(code) && is_success_status(code))),
{
}

/// A run that ends in any outcome other than a local read failure has made an
/// upload attempt: exactly one step sent the request. An attempt is dropped
/// only when the file itself could not be read or named.
pub proof fn lemma_finished_run_attempted(run: Seq<WorkerStep>, outcome: UploadResult)
    requires
        is_run(run),
        run.len() > 0,
        run.last().post == WorkerPhase::Finished(outcome),
        !(outcome is LocalIoFailure),
    ensures
        exists|i: int| 0 <= i < run.len() && (#[trigger] run[i].action) is SendRequest,
{
    let k = run.len() - 1;
    let s = run[k];
    assert(valid_step(s));
    if s.pre is Sending {
        assert(k > 0);
        assert(run[k - 1].post is Sending);
        lemma_send_iff_body_ready(run[k - 1]);
        assert(run[k - 1].action is SendRequest);
    } else {
        assert(s.pre is Deleting);
        assert(k > 0);
        assert(run[k - 1].post is Deleting);
        assert(run[k - 1].pre is Sending);
        assert(k - 1 > 0);
        assert(run[k - 2].post is Sending);
        lemma_send_iff_body_ready(run[k - 2]);
        assert(run[k - 2].action is SendRequest);
    }
}

/// A run that ends with the document accepted has ordered the deletion of
/// the local file, and the status that justified it was a success status.
pub proof fn lemma_outcome_decides_deletion(run: Seq<WorkerStep>, outcome: UploadResult)
    requires
        is_run(run),
        run.len() > 0,
        run.last().post == WorkerPhase::Finished(outcome),
    ensures
        (outcome matches UploadResult::Accepted(code) ==> is_success_status(code) && exists|i: int|
            0 <= i < run.len() && (#[trigger] run[i].action) is DeleteFile),
{
    let k = run.len() - 1;
    let s = run[k];
    assert(valid_step(s));
    if outcome is Accepted {
        assert(s.pre is Deleting && s.event is FileDeleted);
        assert(k > 0);
        assert(run[k - 1].post is Deleting);
        lemma_delete_iff_accepted(run[k - 1]);
        assert(run[k - 1].action is DeleteFile);
    }
}

/// The local file has actually been deleted — some step of the run confirms
/// the deletion — exactly when the run ends with the document accepted. After
/// any failure, of whatever kind, the file is still there.
pub proof fn lemma_deleted_iff_accepted_outcome(run: Seq<WorkerStep>, outcome: UploadResult)
    requires
        is_run(run),
        run.len() > 0,
        run.last().post == WorkerPhase::Finished(outcome),
    ensures
        (exists|i: int| 0 <= i < run.len() && (#[trigger] run[i].event) is FileDeleted)
            <==> outcome is Accepted,
{
    let k = run.len() - 1;
    if exists|i: int| 0 <= i < run.len() && (#[trigger] run[i].event) is FileDeleted {
        let i = choose|i: int| 0 <= i < run.len() && (#[trigger] run[i].event) is FileDeleted;
        assert(valid_step(run[i]));
        assert(run[i].post is Finished);
        if i < k {
            assert(run[i + 1].pre == run[i].post);
            assert(valid_step(run[i + 1]));
            assert(!step_permitted(run[i + 1].pre, run[i + 1].event));
        }
        assert(i == k);
    } else {
        if outcome is Accepted {
            assert(valid_step(run[k]));
            assert(run[k].event is FileDeleted);
        }
    }
}

} // verus!
