//! The row that a job's writes land in, and what holds of it after a run.

use crate::failure::FailureKind;
use crate::failure::Outcome;
use crate::job::JobId;
use crate::job::JobKind;
use crate::job::JobStatus;
use crate::run::Action;
use crate::run::ActionView;
use crate::run::Event;
use crate::run::EventView;
use crate::run::JobRunView;
use crate::run::PhaseView;
use vstd::prelude::*;

verus! {

/// The stored row of one job: its status, and for a document the extracted
/// text, the structured document and the archive it came out of.
pub struct ExtractedRecord {
    pub id: JobId,
    pub status: JobStatus,
    pub error_message: Option<String>,
    pub text: Option<String>,
    pub structured: Option<serde_json::Value>,
    pub zip_id: Option<JobId>,
}

pub struct RecordState {
    pub id: JobId,
    pub status: JobStatus,
    pub error_message: Option<Seq<char>>,
    pub text: Option<Seq<char>>,
    pub structured: Option<serde_json::Value>,
    pub zip_id: Option<JobId>,
}

impl View for ExtractedRecord {
    type V = RecordState;

    open spec fn view(&self) -> RecordState {
        RecordState {
            id: self.id,
            status: self.status,
            error_message: match self.error_message {
                Some(m) => Some(m@),
                None => None,
            },
            text: match self.text {
                Some(t) => Some(t@),
                None => None,
            },
            structured: self.structured,
            zip_id: self.zip_id,
        }
    }
}

impl RecordState {
    /// The row of a job that nothing has touched yet.
    pub open spec fn untouched(id: JobId) -> RecordState {
        RecordState {
            id,
            status: JobStatus::Pending,
            error_message: None,
            text: None,
            structured: None,
            zip_id: None,
        }
    }

    /// What an action does to the row once `event` reports on it. A status
    /// write that the store took sets status and message together; a
    /// persisted document sets text and structured document together. Both
    /// are updates keyed by the job's id: they change the row with that id
    /// and no other, and nothing else changes a row.
    pub open spec fn effect(self, action: ActionView, event: EventView) -> RecordState {
        match (action, event) {
            (ActionView::MarkStatus { id, update, .. }, EventView::StatusWritten { ok }) => {
                if id == self.id && ok {
                    RecordState {
                        status: update.status,
                        error_message: update.error_message,
                        ..self
                    }
                } else {
                    self
                }
            },
            (ActionView::Persist { id, text, structured }, EventView::Persisted) => {
                if id == self.id {
                    RecordState { text: Some(text), structured: Some(structured), ..self }
                } else {
                    self
                }
            },
            _ => self,
        }
    }
}

impl ExtractedRecord {
    /// The row of job `id` before its first run.
    pub fn new(id: JobId) -> (record: ExtractedRecord)
        ensures
            record@ == RecordState::untouched(id),
    {
        ExtractedRecord {
            id,
            status: JobStatus::Pending,
            error_message: None,
            text: None,
            structured: None,
            zip_id: None,
        }
    }

    /// The row after `action` has been carried out and `event` has reported
    /// on it.
    pub fn observe(self, action: Action, event: &Event) -> (record: ExtractedRecord)
        ensures
            record@ == self@.effect(action@, event@),
    {
        match action {
            Action::MarkStatus { id, kind, update } => {
                match event {
                    Event::StatusWritten { ok } => {
                        if id == self.id && *ok {
                            ExtractedRecord {
                                id: self.id,
                                status: update.status,
                                error_message: update.error_message,
                                text: self.text,
                                structured: self.structured,
                                zip_id: self.zip_id,
                            }
                        } else {
                            self
                        }
                    },
                    _ => self,
                }
            },
            Action::Persist { id, text, structured } => {
                match event {
                    Event::Persisted => {
                        if id == self.id {
                            ExtractedRecord {
                                id: self.id,
                                status: self.status,
                                error_message: self.error_message,
                                text: Some(text),
                                structured: Some(structured),
                                zip_id: self.zip_id,
                            }
                        } else {
                            self
                        }
                    },
                    _ => self,
                }
            },
            _ => self,
        }
    }
}

/// A run under way together with the action it has asked for and the row
/// its writes land in.
pub struct Progress {
    pub run: JobRunView,
    pub pending: ActionView,
    pub record: RecordState,
}

impl Progress {
    /// A job that has just been triggered, with its row as earlier runs, if
    /// any, left it.
    pub open spec fn begin(run: JobRunView, record: RecordState) -> Progress {
        Progress { run, pending: ActionView::AcquirePermit, record }
    }

    /// One turn: `event` reports on the pending action, the row takes the
    /// action's effect, and the run asks for its next action. An event that
    /// the run does not expect changes nothing.
    pub open spec fn advance(self, event: EventView) -> Progress {
        let (run, action) = self.run.step(event);
        if action is Unexpected {
            self
        } else {
            Progress { run, pending: action, record: self.record.effect(self.pending, event) }
        }
    }

    /// The progress after `events`, taken in order.
    pub open spec fn after(self, events: Seq<EventView>) -> Progress
        decreases events.len(),
    {
        if events.len() == 0 {
            self
        } else {
            self.after(events.drop_last()).advance(events.last())
        }
    }
}

/// Every status write among `events` reached the store.
pub open spec fn status_writes_land(events: Seq<EventView>) -> bool {
    forall|i: int|
        0 <= i < events.len() ==> (#[trigger] events[i] matches EventView::StatusWritten { ok }
            ==> ok)
}

/// What a run that is over has left in its row.
pub open spec fn closed_as(record: RecordState, kind: JobKind, outcome: Outcome) -> bool {
    &&& record.status == outcome.status()
    &&& (record.error_message is Some <==> record.status == JobStatus::Failed)
    &&& (record.structured is Some <==> outcome == Outcome::Completed && kind
        == JobKind::SingleDocument)
    &&& (record.structured is Some ==> record.text is Some)
}

/// What holds at every turn of a run that started on a row without a
/// structured document, while status writes land.
spec fn on_course(p: Progress) -> bool {
    &&& p.record.id == p.run.id
    &&& match p.run.phase {
        PhaseView::Extracting | PhaseView::Structuring { .. } => {
            p.run.kind == JobKind::SingleDocument && p.record.structured is None
        },
        PhaseView::Persisting => {
            &&& p.run.kind == JobKind::SingleDocument
            &&& p.record.structured is None
            &&& p.pending matches ActionView::Persist { id, .. }
            &&& id == p.run.id
        },
        PhaseView::Expanding | PhaseView::Dispatching => {
            p.run.kind == JobKind::Archive && p.record.structured is None
        },
        PhaseView::Parsing | PhaseView::Inserting => {
            p.run.kind == JobKind::Spreadsheet && p.record.structured is None
        },
        PhaseView::MarkingFinal { outcome } => {
            &&& p.pending matches ActionView::MarkStatus { id, update, .. }
            &&& id == p.run.id
            &&& update.wf()
            &&& update.status == outcome.status()
            &&& (p.record.structured is Some <==> outcome == Outcome::Completed && p.run.kind
                == JobKind::SingleDocument)
            &&& (p.record.structured is Some ==> p.record.text is Some)
        },
        PhaseView::Releasing { outcome } => closed_as(p.record, p.run.kind, outcome),
        PhaseView::Done { outcome } => {
            p.pending is Finished && closed_as(p.record, p.run.kind, outcome)
        },
        _ => p.record.structured is None,
    }
}

proof fn lemma_on_course_advance(p: Progress, event: EventView)
    requires
        on_course(p),
        event matches EventView::StatusWritten { ok } ==> ok,
    ensures
        on_course(p.advance(event)),
{
}

proof fn lemma_on_course_after(p: Progress, events: Seq<EventView>)
    requires
        on_course(p),
        status_writes_land(events),
    ensures
        on_course(p.after(events)),
    decreases events.len(),
{
    if events.len() > 0 {
        let earlier = events.drop_last();
        assert forall|i: int| 0 <= i < earlier.len() implies (#[trigger] earlier[i] matches EventView::StatusWritten {
            ok,
        } ==> ok) by {
            assert(earlier[i] == events[i]);
        }
        lemma_on_course_after(p, earlier);
        assert(events.last() == events[events.len() - 1]);
        lemma_on_course_advance(p.after(earlier), events.last());
    }
}

/// A run that is over has closed its row with `Completed` or `Failed`; the
/// row holds an error message exactly if it failed; and the row of a
/// single-document job holds a structured document exactly if the job
/// completed, and then holds the text too.
///
/// This is stated of a row that held no structured document when the run
/// began, and of runs whose status writes reached the store: a write that
/// the store refuses is passed over, and leaves the row behind the run.
pub proof fn law_run_closes_its_record(
    id: JobId,
    kind: JobKind,
    filename: Seq<char>,
    record: RecordState,
    events: Seq<EventView>,
)
    requires
        record.id == id,
        record.structured is None,
        status_writes_land(events),
    ensures
        ({
            let end = Progress::begin(JobRunView::start(id, kind, filename), record).after(events);
            end.run.phase matches PhaseView::Done { outcome } ==> {
                &&& end.record.status.terminal()
                &&& closed_as(end.record, kind, outcome)
            }
        }),
{
    let begin = Progress::begin(JobRunView::start(id, kind, filename), record);
    lemma_on_course_after(begin, events);
    lemma_run_keeps_its_job(begin, events);
}

/// A run never changes which job it is.
proof fn lemma_run_keeps_its_job(p: Progress, events: Seq<EventView>)
    ensures
        p.after(events).run.id == p.run.id,
        p.after(events).run.kind == p.run.kind,
        p.after(events).run.filename == p.run.filename,
        p.after(events).record.id == p.record.id,
        p.after(events).record.zip_id == p.record.zip_id,
    decreases events.len(),
{
    if events.len() > 0 {
        lemma_run_keeps_its_job(p, events.drop_last());
    }
}

/// What holds at every turn of any run: as long as the run has not persisted
/// a document, the row holds the document it held when the run began.
spec fn keeps_document(p: Progress, text: Option<Seq<char>>, structured: Option<serde_json::Value>) -> bool {
    &&& (p.run.phase is Done ==> p.pending is Finished)
    &&& match p.run.phase {
        PhaseView::MarkingFinal { outcome } | PhaseView::Releasing { outcome } | PhaseView::Done {
            outcome,
        } => outcome is Failed ==> p.record.text == text && p.record.structured == structured,
        _ => p.record.text == text && p.record.structured == structured,
    }
}

proof fn lemma_keeps_document_after(
    p: Progress,
    events: Seq<EventView>,
    text: Option<Seq<char>>,
    structured: Option<serde_json::Value>,
)
    requires
        keeps_document(p, text, structured),
    ensures
        keeps_document(p.after(events), text, structured),
    decreases events.len(),
{
    if events.len() > 0 {
        lemma_keeps_document_after(p, events.drop_last(), text, structured);
    }
}

/// A run that fails leaves text and structured document as it found them:
/// the row stays in the state that the last successful run produced.
pub proof fn law_failed_run_keeps_document(
    id: JobId,
    kind: JobKind,
    filename: Seq<char>,
    record: RecordState,
    events: Seq<EventView>,
)
    ensures
        ({
            let end = Progress::begin(JobRunView::start(id, kind, filename), record).after(events);
            match end.run.phase {
                PhaseView::Done { outcome: Outcome::Failed(_) } => {
                    &&& end.record.text == record.text
                    &&& end.record.structured == record.structured
                    &&& end.record.zip_id == record.zip_id
                },
                _ => true,
            }
        }),
{
    let begin = Progress::begin(JobRunView::start(id, kind, filename), record);
    lemma_keeps_document_after(begin, events, record.text, record.structured);
    lemma_run_keeps_its_job(begin, events);
}

/// Two runs of one job that see the same events, on rows that may differ in
/// everything but the job they belong to.
spec fn in_step(a: Progress, b: Progress) -> bool {
    &&& a.run == b.run
    &&& a.pending == b.pending
    &&& a.record.id == b.record.id
    &&& a.record.id == a.run.id
    &&& a.record.zip_id == b.record.zip_id
    &&& (a.run.phase is Done ==> a.pending is Finished)
    &&& match a.run.phase {
        PhaseView::AwaitingPermit => true,
        PhaseView::MarkingProcessing => {
            &&& a.pending matches ActionView::MarkStatus { id, .. }
            &&& id == a.run.id
        },
        PhaseView::Persisting => {
            &&& a.pending matches ActionView::Persist { id, .. }
            &&& id == a.run.id
            &&& a.record.status == b.record.status
            &&& a.record.error_message == b.record.error_message
        },
        PhaseView::MarkingFinal { outcome } => {
            &&& a.pending matches ActionView::MarkStatus { id, .. }
            &&& id == a.run.id
            &&& (outcome == Outcome::Completed && a.run.kind == JobKind::SingleDocument ==> {
                &&& a.record.text == b.record.text
                &&& a.record.structured == b.record.structured
            })
        },
        PhaseView::Releasing { outcome } | PhaseView::Done { outcome } => {
            &&& a.record.status == b.record.status
            &&& a.record.error_message == b.record.error_message
            &&& (outcome == Outcome::Completed && a.run.kind == JobKind::SingleDocument ==> {
                &&& a.record.text == b.record.text
                &&& a.record.structured == b.record.structured
            })
        },
        _ => {
            &&& a.record.status == b.record.status
            &&& a.record.error_message == b.record.error_message
        },
    }
    &&& match a.run.phase {
        PhaseView::Extracting | PhaseView::Structuring { .. } | PhaseView::Persisting => a.run.kind
            == JobKind::SingleDocument,
        PhaseView::Expanding | PhaseView::Dispatching => a.run.kind == JobKind::Archive,
        PhaseView::Parsing | PhaseView::Inserting => a.run.kind == JobKind::Spreadsheet,
        _ => true,
    }
}

proof fn lemma_in_step_advance(a: Progress, b: Progress, event: EventView)
    requires
        in_step(a, b),
        event matches EventView::StatusWritten { ok } ==> ok,
    ensures
        in_step(a.advance(event), b.advance(event)),
{
}

proof fn lemma_in_step_after(a: Progress, b: Progress, events: Seq<EventView>)
    requires
        in_step(a, b),
        status_writes_land(events),
    ensures
        in_step(a.after(events), b.after(events)),
    decreases events.len(),
{
    if events.len() > 0 {
        let earlier = events.drop_last();
        assert forall|i: int| 0 <= i < earlier.len() implies (#[trigger] earlier[i] matches EventView::StatusWritten {
            ok,
        } ==> ok) by {
            assert(earlier[i] == events[i]);
        }
        lemma_in_step_after(a, b, earlier);
        assert(events.last() == events[events.len() - 1]);
        lemma_in_step_advance(a.after(earlier), b.after(earlier), events.last());
    }
}

/// A run that completes overwrites: what it leaves in the row of a
/// single-document job does not depend on what the row held before. Running
/// the job again under the same id therefore leaves the row as the last
/// successful run made it, whatever earlier runs have written.
pub proof fn law_completed_run_overwrites(
    id: JobId,
    filename: Seq<char>,
    first: RecordState,
    second: RecordState,
    events: Seq<EventView>,
)
    requires
        first.id == id,
        second.id == id,
        first.zip_id == second.zip_id,
        status_writes_land(events),
    ensures
        ({
            let run = JobRunView::start(id, JobKind::SingleDocument, filename);
            let a = Progress::begin(run, first).after(events);
            let b = Progress::begin(run, second).after(events);
            a.run.phase == (PhaseView::Done { outcome: Outcome::Completed }) ==> a.record
                == b.record
        }),
{
    let run = JobRunView::start(id, JobKind::SingleDocument, filename);
    lemma_in_step_after(Progress::begin(run, first), Progress::begin(run, second), events);
    lemma_run_keeps_its_job(Progress::begin(run, first), events);
}

/// Running a single-document job twice with the same events leaves the row
/// as running it once does.
pub proof fn law_rerun_is_idempotent(
    id: JobId,
    filename: Seq<char>,
    record: RecordState,
    events: Seq<EventView>,
)
    requires
        record.id == id,
        status_writes_land(events),
    ensures
        ({
            let run = JobRunView::start(id, JobKind::SingleDocument, filename);
            let once = Progress::begin(run, record).after(events);
            let twice = Progress::begin(run, once.record).after(events);
            once.run.phase == (PhaseView::Done { outcome: Outcome::Completed }) ==> twice.record
                == once.record
        }),
{
    let run = JobRunView::start(id, JobKind::SingleDocument, filename);
    let once = Progress::begin(run, record).after(events);
    lemma_run_keeps_its_job(Progress::begin(run, record), events);
    law_completed_run_overwrites(id, filename, record, once.record, events);
    lemma_in_step_after(Progress::begin(run, record), Progress::begin(run, once.record), events);
}

/// The ways in which a job of a given kind can fail.
pub open spec fn may_fail_with(kind: JobKind, why: FailureKind) -> bool {
    match kind {
        JobKind::SingleDocument => why == FailureKind::Fetch || why == FailureKind::Extraction
            || why == FailureKind::Structuring || why == FailureKind::Persistence,
        JobKind::Archive => why == FailureKind::Fetch || why == FailureKind::ArchiveOpen,
        JobKind::Spreadsheet => why == FailureKind::Fetch || why == FailureKind::UnsupportedFormat
            || why == FailureKind::Parse || why == FailureKind::Insert,
    }
}

spec fn in_its_lane(run: JobRunView) -> bool {
    match run.phase {
        PhaseView::Extracting | PhaseView::Structuring { .. } | PhaseView::Persisting => run.kind
            == JobKind::SingleDocument,
        PhaseView::Expanding | PhaseView::Dispatching => run.kind == JobKind::Archive,
        PhaseView::Parsing | PhaseView::Inserting => run.kind == JobKind::Spreadsheet,
        PhaseView::MarkingFinal { outcome } | PhaseView::Releasing { outcome } | PhaseView::Done {
            outcome,
        } => match outcome {
            Outcome::Failed(why) => may_fail_with(run.kind, why),
            Outcome::Completed => true,
        },
        _ => true,
    }
}

proof fn lemma_stays_in_its_lane(p: Progress, events: Seq<EventView>)
    requires
        in_its_lane(p.run),
    ensures
        in_its_lane(p.after(events).run),
    decreases events.len(),
{
    if events.len() > 0 {
        lemma_stays_in_its_lane(p, events.drop_last());
    }
}

/// A job fails only in the ways of its kind. In particular an archive job
/// fails only if its payload cannot be fetched or is no ZIP container:
/// once its re-uploads are handed over it completes, and nothing that
/// happens to a re-upload afterwards, neither a failed upload nor a link
/// that never takes, reaches the archive job.
pub proof fn law_failures_follow_the_kind(
    id: JobId,
    kind: JobKind,
    filename: Seq<char>,
    record: RecordState,
    events: Seq<EventView>,
)
    ensures
        ({
            let end = Progress::begin(JobRunView::start(id, kind, filename), record).after(events);
            &&& match end.run.phase {
                PhaseView::Done { outcome: Outcome::Failed(why) } => may_fail_with(kind, why),
                _ => true,
            }
            &&& (end.run.phase is Dispatching ==> end.run.step(EventView::Dispatched)
                == end.run.complete())
        }),
{
    let begin = Progress::begin(JobRunView::start(id, kind, filename), record);
    lemma_stays_in_its_lane(begin, events);
    lemma_run_keeps_its_job(begin, events);
}

} // verus!
