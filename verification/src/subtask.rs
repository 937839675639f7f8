//! The sub-task that an archive job starts for each document it holds: the
//! document is uploaded, and then linked back to the archive, with a bounded
//! number of attempts a fixed delay apart, because the row to link may not
//! exist yet.

use crate::archive::UploadTask;
use crate::job::JobId;
use vstd::prelude::*;

verus! {

/// How often linking is attempted, and how long the sub-task sleeps between
/// two attempts.
#[derive(Clone, Copy, Debug, PartialEq, Eq, Structural)]
pub struct RetryPolicy {
    pub max_attempts: u32,
    pub delay_ms: u64,
}

impl RetryPolicy {
    /// Three attempts, 500 ms apart.
    pub open spec fn standard() -> RetryPolicy {
        RetryPolicy { max_attempts: 3, delay_ms: 500 }
    }

    pub fn link_default() -> (policy: RetryPolicy)
        ensures
            policy == RetryPolicy::standard(),
    {
        RetryPolicy { max_attempts: 3, delay_ms: 500 }
    }
}

/// What came of a sub-task. None of these is reported to the archive job.
#[derive(Clone, Copy, Debug, PartialEq, Eq, Structural)]
pub enum SubtaskOutcome {
    /// The document was uploaded and linked at attempt number `attempts`.
    Linked { attempts: u32 },
    /// The document was uploaded, and no attempt to link it affected a row.
    LinkRetryExhausted,
    /// The upload failed.
    UploadFailed,
}

pub enum SubtaskPhase {
    /// A permit has been asked for; the document waits to be uploaded.
    AwaitingPermit { bytes: Vec<u8> },
    /// The document is being uploaded.
    Uploading,
    /// Attempt number `attempt` to link is under way.
    Linking { attempt: u32 },
    /// Attempt number `attempt` affected no row; the sub-task sleeps before
    /// the next one.
    Sleeping { attempt: u32 },
    /// The permit is being returned.
    Releasing { outcome: SubtaskOutcome },
    /// The sub-task is over.
    Done { outcome: SubtaskOutcome },
}

pub enum SubtaskPhaseView {
    AwaitingPermit { bytes: Seq<u8> },
    Uploading,
    Linking { attempt: u32 },
    Sleeping { attempt: u32 },
    Releasing { outcome: SubtaskOutcome },
    Done { outcome: SubtaskOutcome },
}

impl View for SubtaskPhase {
    type V = SubtaskPhaseView;

    open spec fn view(&self) -> SubtaskPhaseView {
        match self {
            SubtaskPhase::AwaitingPermit { bytes } => SubtaskPhaseView::AwaitingPermit {
                bytes: bytes@,
            },
            SubtaskPhase::Uploading => SubtaskPhaseView::Uploading,
            SubtaskPhase::Linking { attempt } => SubtaskPhaseView::Linking { attempt: *attempt },
            SubtaskPhase::Sleeping { attempt } => SubtaskPhaseView::Sleeping { attempt: *attempt },
            SubtaskPhase::Releasing { outcome } => SubtaskPhaseView::Releasing {
                outcome: *outcome,
            },
            SubtaskPhase::Done { outcome } => SubtaskPhaseView::Done { outcome: *outcome },
        }
    }
}

/// How the last action of a sub-task went.
pub enum SubtaskEvent {
    PermitGranted,
    Uploaded,
    UploadFailed { detail: String },
    /// The link update ran and affected this many rows.
    LinkAttempted { rows_affected: u64 },
    /// The link update could not be run.
    LinkFailed { detail: String },
    Slept,
    PermitReleased,
}

pub enum SubtaskEventView {
    PermitGranted,
    Uploaded,
    UploadFailed { detail: Seq<char> },
    LinkAttempted { rows_affected: u64 },
    LinkFailed { detail: Seq<char> },
    Slept,
    PermitReleased,
}

impl View for SubtaskEvent {
    type V = SubtaskEventView;

    open spec fn view(&self) -> SubtaskEventView {
        match self {
            SubtaskEvent::PermitGranted => SubtaskEventView::PermitGranted,
            SubtaskEvent::Uploaded => SubtaskEventView::Uploaded,
            SubtaskEvent::UploadFailed { detail } => SubtaskEventView::UploadFailed {
                detail: detail@,
            },
            SubtaskEvent::LinkAttempted { rows_affected } => SubtaskEventView::LinkAttempted {
                rows_affected: *rows_affected,
            },
            SubtaskEvent::LinkFailed { detail } => SubtaskEventView::LinkFailed { detail: detail@ },
            SubtaskEvent::Slept => SubtaskEventView::Slept,
            SubtaskEvent::PermitReleased => SubtaskEventView::PermitReleased,
        }
    }
}

/// What a sub-task asks for next.
pub enum SubtaskAction {
    /// Take one permit from the admission limiter, waiting if none is free.
    AcquirePermit,
    /// Store `bytes` in `bucket` under `key`; with `upsert` false an
    /// existing key is not overwritten.
    Upload { bucket: String, key: String, bytes: Vec<u8>, content_type: String, upsert: bool },
    /// Set the back-reference to archive `archive_id` on the record whose
    /// filename is `upload_path`, and report how many rows that affected.
    Link { archive_id: JobId, upload_path: String },
    /// Sleep for `millis` milliseconds.
    Sleep { millis: u64 },
    /// Give the permit back.
    ReleasePermit,
    /// The sub-task is over.
    Finished { outcome: SubtaskOutcome },
    /// The event does not answer the action that is under way; the sub-task
    /// has not moved.
    Unexpected,
}

pub enum SubtaskActionView {
    AcquirePermit,
    Upload {
        bucket: Seq<char>,
        key: Seq<char>,
        bytes: Seq<u8>,
        content_type: Seq<char>,
        upsert: bool,
    },
    Link { archive_id: JobId, upload_path: Seq<char> },
    Sleep { millis: u64 },
    ReleasePermit,
    Finished { outcome: SubtaskOutcome },
    Unexpected,
}

impl View for SubtaskAction {
    type V = SubtaskActionView;

    open spec fn view(&self) -> SubtaskActionView {
        match self {
            SubtaskAction::AcquirePermit => SubtaskActionView::AcquirePermit,
            SubtaskAction::Upload { bucket, key, bytes, content_type, upsert } => {
                SubtaskActionView::Upload {
                    bucket: bucket@,
                    key: key@,
                    bytes: bytes@,
                    content_type: content_type@,
                    upsert: *upsert,
                }
            },
            SubtaskAction::Link { archive_id, upload_path } => SubtaskActionView::Link {
                archive_id: *archive_id,
                upload_path: upload_path@,
            },
            SubtaskAction::Sleep { millis } => SubtaskActionView::Sleep { millis: *millis },
            SubtaskAction::ReleasePermit => SubtaskActionView::ReleasePermit,
            SubtaskAction::Finished { outcome } => SubtaskActionView::Finished {
                outcome: *outcome,
            },
            SubtaskAction::Unexpected => SubtaskActionView::Unexpected,
        }
    }
}

/// One document of an archive on its way to being uploaded and linked.
pub struct Subtask {
    pub archive_id: JobId,
    pub upload_path: String,
    pub policy: RetryPolicy,
    pub phase: SubtaskPhase,
}

pub struct SubtaskView {
    pub archive_id: JobId,
    pub upload_path: Seq<char>,
    pub policy: RetryPolicy,
    pub phase: SubtaskPhaseView,
}

impl View for Subtask {
    type V = SubtaskView;

    open spec fn view(&self) -> SubtaskView {
        SubtaskView {
            archive_id: self.archive_id,
            upload_path: self.upload_path@,
            policy: self.policy,
            phase: self.phase@,
        }
    }
}

impl SubtaskView {
    /// A sub-task that has just been started.
    pub open spec fn start(
        archive_id: JobId,
        upload_path: Seq<char>,
        bytes: Seq<u8>,
        policy: RetryPolicy,
    ) -> SubtaskView {
        SubtaskView {
            archive_id,
            upload_path,
            policy,
            phase: SubtaskPhaseView::AwaitingPermit { bytes },
        }
    }

    pub open spec fn at(self, phase: SubtaskPhaseView) -> SubtaskView {
        SubtaskView { phase, ..self }
    }

    /// The link action of this sub-task.
    pub open spec fn link(self) -> SubtaskActionView {
        SubtaskActionView::Link { archive_id: self.archive_id, upload_path: self.upload_path }
    }

    /// The upload action of this sub-task: into the bucket of single
    /// documents, as a PDF, without overwriting.
    pub open spec fn upload(self, bytes: Seq<u8>) -> SubtaskActionView {
        SubtaskActionView::Upload {
            bucket: "resumes"@,
            key: self.upload_path,
            bytes,
            content_type: "application/pdf"@,
            upsert: false,
        }
    }

    /// The sub-task ends with `outcome`: the permit goes back.
    pub open spec fn finish(self, outcome: SubtaskOutcome) -> (SubtaskView, SubtaskActionView) {
        (self.at(SubtaskPhaseView::Releasing { outcome }), SubtaskActionView::ReleasePermit)
    }

    /// The first attempt to link, if the policy allows any.
    pub open spec fn first_attempt(self) -> (SubtaskView, SubtaskActionView) {
        if self.policy.max_attempts >= 1 {
            (self.at(SubtaskPhaseView::Linking { attempt: 1 }), self.link())
        } else {
            self.finish(SubtaskOutcome::LinkRetryExhausted)
        }
    }

    /// What follows attempt number `attempt` when it affected no row: a
    /// sleep if another attempt is allowed, and else the end.
    pub open spec fn after_miss(self, attempt: u32) -> (SubtaskView, SubtaskActionView) {
        if attempt < self.policy.max_attempts {
            (
                self.at(SubtaskPhaseView::Sleeping { attempt }),
                SubtaskActionView::Sleep { millis: self.policy.delay_ms },
            )
        } else {
            self.finish(SubtaskOutcome::LinkRetryExhausted)
        }
    }

    /// What follows the sleep after attempt number `attempt`: the next
    /// attempt.
    pub open spec fn after_sleep(self, attempt: u32) -> (SubtaskView, SubtaskActionView) {
        if attempt < self.policy.max_attempts {
            (self.at(SubtaskPhaseView::Linking { attempt: (attempt + 1) as u32 }), self.link())
        } else {
            self.finish(SubtaskOutcome::LinkRetryExhausted)
        }
    }

    /// The transition function of a sub-task.
    pub open spec fn step(self, event: SubtaskEventView) -> (SubtaskView, SubtaskActionView) {
        match (self.phase, event) {
            (SubtaskPhaseView::AwaitingPermit { bytes }, SubtaskEventView::PermitGranted) => (
                self.at(SubtaskPhaseView::Uploading),
                self.upload(bytes),
            ),
            (SubtaskPhaseView::Uploading, SubtaskEventView::Uploaded) => self.first_attempt(),
            (SubtaskPhaseView::Uploading, SubtaskEventView::UploadFailed { .. }) => self.finish(
                SubtaskOutcome::UploadFailed,
            ),
            (
                SubtaskPhaseView::Linking { attempt },
                SubtaskEventView::LinkAttempted { rows_affected },
            ) => {
                if rows_affected > 0 {
                    self.finish(SubtaskOutcome::Linked { attempts: attempt })
                } else {
                    self.after_miss(attempt)
                }
            },
            (SubtaskPhaseView::Linking { attempt }, SubtaskEventView::LinkFailed { .. }) => {
                self.after_miss(attempt)
            },
            (SubtaskPhaseView::Sleeping { attempt }, SubtaskEventView::Slept) => self.after_sleep(
                attempt,
            ),
            (SubtaskPhaseView::Releasing { outcome }, SubtaskEventView::PermitReleased) => (
                self.at(SubtaskPhaseView::Done { outcome }),
                SubtaskActionView::Finished { outcome },
            ),
            (SubtaskPhaseView::Done { outcome }, _) => (
                self,
                SubtaskActionView::Finished { outcome },
            ),
            _ => (self, SubtaskActionView::Unexpected),
        }
    }
}

impl Subtask {
    /// Starts the sub-task that uploads `task` and links it to the archive
    /// job `archive_id`. The first thing it asks for is a permit of its own.
    pub fn start(archive_id: JobId, task: UploadTask, policy: RetryPolicy) -> (r: (
        Subtask,
        SubtaskAction,
    ))
        ensures
            r.0@ == SubtaskView::start(archive_id, task@.upload_path, task@.bytes, policy),
            r.1@ == SubtaskActionView::AcquirePermit,
    {
        (
            Subtask {
                archive_id,
                upload_path: task.upload_path,
                policy,
                phase: SubtaskPhase::AwaitingPermit { bytes: task.bytes },
            },
            SubtaskAction::AcquirePermit,
        )
    }

    /// Whether the sub-task is over.
    pub fn is_done(&self) -> (r: bool)
        ensures
            r == (self@.phase is Done),
    {
        match self.phase {
            SubtaskPhase::Done { .. } => true,
            _ => false,
        }
    }

    fn finish(self, outcome: SubtaskOutcome) -> (r: (Subtask, SubtaskAction))
        ensures
            (r.0@, r.1@) == self@.finish(outcome),
    {
        (
            Subtask {
                archive_id: self.archive_id,
                upload_path: self.upload_path,
                policy: self.policy,
                phase: SubtaskPhase::Releasing { outcome },
            },
            SubtaskAction::ReleasePermit,
        )
    }

    fn attempt(self, attempt: u32) -> (r: (Subtask, SubtaskAction))
        ensures
            r.0@ == self@.at(SubtaskPhaseView::Linking { attempt }),
            r.1@ == self@.link(),
    {
        let archive_id = self.archive_id;
        let upload_path = self.upload_path.clone();
        (
            Subtask {
                archive_id: self.archive_id,
                upload_path: self.upload_path,
                policy: self.policy,
                phase: SubtaskPhase::Linking { attempt },
            },
            SubtaskAction::Link { archive_id, upload_path },
        )
    }

    fn after_miss(self, attempt: u32) -> (r: (Subtask, SubtaskAction))
        ensures
            (r.0@, r.1@) == self@.after_miss(attempt),
    {
        if attempt < self.policy.max_attempts {
            let millis = self.policy.delay_ms;
            (
                Subtask {
                    archive_id: self.archive_id,
                    upload_path: self.upload_path,
                    policy: self.policy,
                    phase: SubtaskPhase::Sleeping { attempt },
                },
                SubtaskAction::Sleep { millis },
            )
        } else {
            self.finish(SubtaskOutcome::LinkRetryExhausted)
        }
    }

    /// Takes the report of how the last action went and decides what comes
    /// next.
    pub fn step(self, event: SubtaskEvent) -> (r: (Subtask, SubtaskAction))
        ensures
            (r.0@, r.1@) == self@.step(event@),
    {
        let archive_id = self.archive_id;
        let upload_path = self.upload_path;
        let policy = self.policy;
        match (self.phase, event) {
            (SubtaskPhase::AwaitingPermit { bytes }, SubtaskEvent::PermitGranted) => {
                let key = upload_path.clone();
                (
                    Subtask { archive_id, upload_path, policy, phase: SubtaskPhase::Uploading },
                    SubtaskAction::Upload {
                        bucket: "resumes".to_owned(),
                        key,
                        bytes,
                        content_type: "application/pdf".to_owned(),
                        upsert: false,
                    },
                )
            },
            (SubtaskPhase::Uploading, SubtaskEvent::Uploaded) => {
                let task = Subtask { archive_id, upload_path, policy, phase: SubtaskPhase::Uploading };
                if policy.max_attempts >= 1 {
                    task.attempt(1)
                } else {
                    task.finish(SubtaskOutcome::LinkRetryExhausted)
                }
            },
            (SubtaskPhase::Uploading, SubtaskEvent::UploadFailed { detail }) => {
                let task = Subtask { archive_id, upload_path, policy, phase: SubtaskPhase::Uploading };
                task.finish(SubtaskOutcome::UploadFailed)
            },
            (SubtaskPhase::Linking { attempt }, SubtaskEvent::LinkAttempted { rows_affected }) => {
                let task = Subtask {
                    archive_id,
                    upload_path,
                    policy,
                    phase: SubtaskPhase::Linking { attempt },
                };
                if rows_affected > 0 {
                    task.finish(SubtaskOutcome::Linked { attempts: attempt })
                } else {
                    task.after_miss(attempt)
                }
            },
            (SubtaskPhase::Linking { attempt }, SubtaskEvent::LinkFailed { detail }) => {
                let task = Subtask {
                    archive_id,
                    upload_path,
                    policy,
                    phase: SubtaskPhase::Linking { attempt },
                };
                task.after_miss(attempt)
            },
            (SubtaskPhase::Sleeping { attempt }, SubtaskEvent::Slept) => {
                let task = Subtask {
                    archive_id,
                    upload_path,
                    policy,
                    phase: SubtaskPhase::Sleeping { attempt },
                };
                if attempt < policy.max_attempts {
                    task.attempt(attempt + 1)
                } else {
                    task.finish(SubtaskOutcome::LinkRetryExhausted)
                }
            },
            (SubtaskPhase::Releasing { outcome }, SubtaskEvent::PermitReleased) => (
                Subtask { archive_id, upload_path, policy, phase: SubtaskPhase::Done { outcome } },
                SubtaskAction::Finished { outcome },
            ),
            (SubtaskPhase::Done { outcome }, _) => (
                Subtask { archive_id, upload_path, policy, phase: SubtaskPhase::Done { outcome } },
                SubtaskAction::Finished { outcome },
            ),
            (phase, _) => (
                Subtask { archive_id, upload_path, policy, phase },
                SubtaskAction::Unexpected,
            ),
        }
    }
}

/// A sub-task under way, with every action it has asked for so far.
pub struct SubtaskProgress {
    pub task: SubtaskView,
    pub actions: Seq<SubtaskActionView>,
}

/// The number of link attempts among `actions`.
pub open spec fn link_attempts(actions: Seq<SubtaskActionView>) -> nat
    decreases actions.len(),
{
    if actions.len() == 0 {
        0
    } else if actions.last() is Link {
        link_attempts(actions.drop_last()) + 1
    } else {
        link_attempts(actions.drop_last())
    }
}

impl SubtaskProgress {
    pub open spec fn begin(task: SubtaskView) -> SubtaskProgress {
        SubtaskProgress { task, actions: seq![SubtaskActionView::AcquirePermit] }
    }

    /// One turn. An event that the sub-task does not expect changes nothing.
    pub open spec fn advance(self, event: SubtaskEventView) -> SubtaskProgress {
        let (task, action) = self.task.step(event);
        if action is Unexpected {
            self
        } else {
            SubtaskProgress { task, actions: self.actions.push(action) }
        }
    }

    /// The progress after `events`, taken in order.
    pub open spec fn after(self, events: Seq<SubtaskEventView>) -> SubtaskProgress
        decreases events.len(),
    {
        if events.len() == 0 {
            self
        } else {
            self.after(events.drop_last()).advance(events.last())
        }
    }
}

/// No link attempt reported among `events` affected a row.
pub open spec fn row_never_appears(events: Seq<SubtaskEventView>) -> bool {
    forall|i: int|
        0 <= i < events.len() ==> (#[trigger] events[i] matches SubtaskEventView::LinkAttempted {
            rows_affected,
        } ==> rows_affected == 0)
}

/// Every link attempt but the first follows directly on a sleep of the
/// policy's delay, and the first follows directly on the upload.
pub open spec fn attempts_are_spaced(actions: Seq<SubtaskActionView>, policy: RetryPolicy) -> bool {
    forall|i: int|
        0 <= i < actions.len() && #[trigger] actions[i] is Link ==> i > 0 && if link_attempts(
            actions.take(i),
        ) == 0 {
            actions[i - 1] is Upload
        } else {
            actions[i - 1] == (SubtaskActionView::Sleep { millis: policy.delay_ms })
        }
}

/// What an outcome says about the number of attempts that were made.
pub open spec fn outcome_counts(outcome: SubtaskOutcome, attempts: nat, policy: RetryPolicy) -> bool {
    match outcome {
        SubtaskOutcome::Linked { attempts: at } => attempts == at && 1 <= at
            <= policy.max_attempts,
        SubtaskOutcome::LinkRetryExhausted => attempts == policy.max_attempts,
        SubtaskOutcome::UploadFailed => attempts == 0,
    }
}

spec fn counted(p: SubtaskProgress, misses_only: bool) -> bool {
    let n = link_attempts(p.actions);
    &&& p.actions.len() > 0
    &&& attempts_are_spaced(p.actions, p.task.policy)
    &&& match p.task.phase {
        SubtaskPhaseView::AwaitingPermit { .. } => n == 0,
        SubtaskPhaseView::Uploading => n == 0 && p.actions.last() is Upload,
        SubtaskPhaseView::Linking { attempt } => {
            &&& n == attempt
            &&& 1 <= attempt <= p.task.policy.max_attempts
            &&& p.actions.last() is Link
        },
        SubtaskPhaseView::Sleeping { attempt } => {
            &&& n == attempt
            &&& 1 <= attempt < p.task.policy.max_attempts
            &&& p.actions.last() == (SubtaskActionView::Sleep { millis: p.task.policy.delay_ms })
        },
        SubtaskPhaseView::Releasing { outcome } | SubtaskPhaseView::Done { outcome } => {
            &&& outcome_counts(outcome, n, p.task.policy)
            &&& !(p.actions.last() is Upload)
            &&& !(p.actions.last() is Sleep)
            &&& (misses_only ==> !(outcome is Linked))
        },
    }
}

proof fn lemma_push_counts(actions: Seq<SubtaskActionView>, action: SubtaskActionView)
    ensures
        link_attempts(actions.push(action)) == link_attempts(actions) + if action is Link {
            1nat
        } else {
            0nat
        },
{
    assert(actions.push(action).drop_last() =~= actions);
}

proof fn lemma_push_spaced(
    actions: Seq<SubtaskActionView>,
    action: SubtaskActionView,
    policy: RetryPolicy,
)
    requires
        attempts_are_spaced(actions, policy),
        action is Link ==> actions.len() > 0 && if link_attempts(actions) == 0 {
            actions.last() is Upload
        } else {
            actions.last() == (SubtaskActionView::Sleep { millis: policy.delay_ms })
        },
    ensures
        attempts_are_spaced(actions.push(action), policy),
{
    let longer = actions.push(action);
    assert forall|i: int| 0 <= i < longer.len() && #[trigger] longer[i] is Link implies i > 0
        && if link_attempts(longer.take(i)) == 0 {
        longer[i - 1] is Upload
    } else {
        longer[i - 1] == (SubtaskActionView::Sleep { millis: policy.delay_ms })
    } by {
        if i < actions.len() {
            assert(longer[i] == actions[i]);
            assert(longer.take(i) =~= actions.take(i));
        } else {
            assert(longer.take(i) =~= actions);
        }
    }
}

proof fn lemma_counted_advance(p: SubtaskProgress, event: SubtaskEventView, misses_only: bool)
    requires
        counted(p, misses_only),
        misses_only ==> (event matches SubtaskEventView::LinkAttempted { rows_affected }
            ==> rows_affected == 0),
    ensures
        counted(p.advance(event), misses_only),
        p.advance(event).task.policy == p.task.policy,
{
    let (task, action) = p.task.step(event);
    if !(action is Unexpected) {
        lemma_push_counts(p.actions, action);
        lemma_push_spaced(p.actions, action, p.task.policy);
        assert(p.actions.push(action).last() == action);
    }
}

proof fn lemma_counted_after(p: SubtaskProgress, events: Seq<SubtaskEventView>, misses_only: bool)
    requires
        counted(p, misses_only),
        misses_only ==> row_never_appears(events),
    ensures
        counted(p.after(events), misses_only),
        p.after(events).task.policy == p.task.policy,
    decreases events.len(),
{
    if events.len() > 0 {
        let earlier = events.drop_last();
        if misses_only {
            assert forall|i: int| 0 <= i < earlier.len() implies (#[trigger] earlier[i] matches SubtaskEventView::LinkAttempted {
                rows_affected,
            } ==> rows_affected == 0) by {
                assert(earlier[i] == events[i]);
            }
            assert(events.last() == events[events.len() - 1]);
        }
        lemma_counted_after(p, earlier, misses_only);
        lemma_counted_advance(p.after(earlier), events.last(), misses_only);
    }
}

proof fn lemma_begin_counted(task: SubtaskView, misses_only: bool)
    requires
        task.phase is AwaitingPermit,
    ensures
        counted(SubtaskProgress::begin(task), misses_only),
{
    let actions = seq![SubtaskActionView::AcquirePermit];
    assert(actions.drop_last() =~= Seq::<SubtaskActionView>::empty());
    assert(link_attempts(actions.drop_last()) == 0);
    assert(link_attempts(actions) == 0);
}

/// Linking is attempted at most as often as the policy allows, whatever
/// happens, and two attempts are always a sleep of the policy's delay
/// apart. A sub-task that is over has made exactly the attempts its outcome
/// tells: the number at which it linked, every attempt the policy allows if
/// it gave up, none if the upload failed.
pub proof fn law_link_attempts_are_bounded_and_spaced(
    archive_id: JobId,
    upload_path: Seq<char>,
    bytes: Seq<u8>,
    policy: RetryPolicy,
    events: Seq<SubtaskEventView>,
)
    ensures
        ({
            let end = SubtaskProgress::begin(
                SubtaskView::start(archive_id, upload_path, bytes, policy),
            ).after(events);
            &&& link_attempts(end.actions) <= policy.max_attempts
            &&& attempts_are_spaced(end.actions, policy)
            &&& (end.task.phase matches SubtaskPhaseView::Done { outcome } ==> outcome_counts(
                outcome,
                link_attempts(end.actions),
                policy,
            ))
        }),
{
    let task = SubtaskView::start(archive_id, upload_path, bytes, policy);
    lemma_begin_counted(task, false);
    lemma_counted_after(SubtaskProgress::begin(task), events, false);
}

/// If the row to link never appears, a sub-task whose upload succeeded ends
/// only after it has made every attempt the policy allows, and it ends
/// without having linked.
pub proof fn law_missing_row_exhausts_retries(
    archive_id: JobId,
    upload_path: Seq<char>,
    bytes: Seq<u8>,
    policy: RetryPolicy,
    events: Seq<SubtaskEventView>,
)
    requires
        row_never_appears(events),
    ensures
        ({
            let end = SubtaskProgress::begin(
                SubtaskView::start(archive_id, upload_path, bytes, policy),
            ).after(events);
            end.task.phase matches SubtaskPhaseView::Done { outcome } ==> {
                &&& !(outcome is Linked)
                &&& (outcome is LinkRetryExhausted ==> link_attempts(end.actions)
                    == policy.max_attempts)
            }
        }),
{
    let task = SubtaskView::start(archive_id, upload_path, bytes, policy);
    lemma_begin_counted(task, true);
    lemma_counted_after(SubtaskProgress::begin(task), events, true);
}

/// The first attempt that affects a row ends the retrying: the sub-task
/// asks for nothing more than to return its permit, and its outcome names
/// that attempt.
pub proof fn law_first_hit_stops_retrying(task: SubtaskView, attempt: u32, rows_affected: u64)
    requires
        task.phase == (SubtaskPhaseView::Linking { attempt }),
        rows_affected > 0,
    ensures
        task.step(SubtaskEventView::LinkAttempted { rows_affected }) == (
            task.at(
                SubtaskPhaseView::Releasing { outcome: SubtaskOutcome::Linked { attempts: attempt } },
            ),
            SubtaskActionView::ReleasePermit,
        ),
{
}

/// A sub-task holds its permit from the grant until it has returned it,
/// whichever way it ends: it uploads, links and sleeps only as a holder, and
/// it is over only once the permit is back.
pub proof fn law_subtask_returns_its_permit(task: SubtaskView, event: SubtaskEventView)
    ensures
        ({
            let (next, action) = task.step(event);
            &&& (task.phase is AwaitingPermit && !(next.phase is AwaitingPermit) ==> event
                is PermitGranted)
            &&& (next.phase is Done && !(task.phase is Done) ==> task.phase is Releasing && event
                is PermitReleased)
            &&& (action is Upload || action is Link || action is Sleep || action is ReleasePermit
                ==> !(next.phase is AwaitingPermit) && !(next.phase is Done))
            &&& !(action is AcquirePermit)
        }),
{
}

} // verus!
