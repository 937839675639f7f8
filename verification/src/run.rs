//! One run of a job, as a state machine: each event reports how the last
//! action went, and the machine answers with the next action.
//!
//! A single-document job acquires a permit, marks itself `Processing`,
//! fetches its source, has the text extracted and structured, persists both,
//! marks itself `Completed` and returns the permit. An archive job fetches
//! its source, has it expanded, hands the re-uploads over for dispatch and
//! marks itself `Completed` without waiting for them. A spreadsheet job
//! fetches its source, has it read, and has the project rows inserted. The
//! first failure stops the pipeline: the job marks itself `Failed` with a
//! message and returns the permit.

use crate::archive::UploadTask;
use crate::archive::UploadTaskView;
use crate::archive::task_views;
use crate::failure::FailureKind;
use crate::failure::FetchStage;
use crate::failure::Outcome;
use crate::failure::StructuringError;
use crate::failure::archive_open_message;
use crate::failure::extraction_message;
use crate::failure::fetch_message;
use crate::failure::insert_message;
use crate::failure::make_archive_open_message;
use crate::failure::make_extraction_message;
use crate::failure::make_fetch_message;
use crate::failure::make_insert_message;
use crate::failure::make_parse_message;
use crate::failure::make_persistence_message;
use crate::failure::make_structuring_message;
use crate::failure::make_unsupported_format_message;
use crate::failure::parse_message;
use crate::failure::persistence_message;
use crate::failure::structuring_message;
use crate::failure::unsupported_format_message;
use crate::job::Job;
use crate::job::JobId;
use crate::job::JobKind;
use crate::job::StatusUpdate;
use crate::job::StatusUpdateView;
use crate::projects::ProjectData;
use crate::projects::ProjectDataView;
use crate::projects::SpreadsheetFormat;
use crate::projects::announced_format;
use crate::projects::format_of;
use crate::projects::project_views;
use crate::structuring::ChatCompletionResponse;
use crate::structuring::interpret_response;
use crate::structuring::structured_document;
use vstd::prelude::*;

verus! {

/// What the run is waiting for.
pub enum Phase {
    /// A permit has been asked for.
    AwaitingPermit,
    /// The `Processing` status is being written.
    MarkingProcessing,
    /// The source artifact is being fetched.
    Fetching,
    /// Text is being taken out of the document.
    Extracting,
    /// The structuring service is working on `text`.
    Structuring { text: String },
    /// Text and structured document are being written to the record.
    Persisting,
    /// The archive is being opened and its entries selected.
    Expanding,
    /// The re-uploads are being handed over.
    Dispatching,
    /// The spreadsheet is being read.
    Parsing,
    /// The project rows are being written.
    Inserting,
    /// The closing status is being written.
    MarkingFinal { outcome: Outcome },
    /// The permit is being returned.
    Releasing { outcome: Outcome },
    /// The run is over.
    Done { outcome: Outcome },
}

pub enum PhaseView {
    AwaitingPermit,
    MarkingProcessing,
    Fetching,
    Extracting,
    Structuring { text: Seq<char> },
    Persisting,
    Expanding,
    Dispatching,
    Parsing,
    Inserting,
    MarkingFinal { outcome: Outcome },
    Releasing { outcome: Outcome },
    Done { outcome: Outcome },
}

impl View for Phase {
    type V = PhaseView;

    open spec fn view(&self) -> PhaseView {
        match self {
            Phase::AwaitingPermit => PhaseView::AwaitingPermit,
            Phase::MarkingProcessing => PhaseView::MarkingProcessing,
            Phase::Fetching => PhaseView::Fetching,
            Phase::Extracting => PhaseView::Extracting,
            Phase::Structuring { text } => PhaseView::Structuring { text: text@ },
            Phase::Persisting => PhaseView::Persisting,
            Phase::Expanding => PhaseView::Expanding,
            Phase::Dispatching => PhaseView::Dispatching,
            Phase::Parsing => PhaseView::Parsing,
            Phase::Inserting => PhaseView::Inserting,
            Phase::MarkingFinal { outcome } => PhaseView::MarkingFinal { outcome: *outcome },
            Phase::Releasing { outcome } => PhaseView::Releasing { outcome: *outcome },
            Phase::Done { outcome } => PhaseView::Done { outcome: *outcome },
        }
    }
}

/// How the last action went.
pub enum Event {
    /// The limiter granted a permit.
    PermitGranted,
    /// The status write was attempted; `ok` tells whether the store took it.
    StatusWritten { ok: bool },
    /// The store returned the source artifact.
    Fetched { bytes: Vec<u8> },
    /// The store did not return the source artifact.
    FetchFailed { stage: FetchStage, detail: String },
    /// The document's text.
    Extracted { text: String },
    /// The document is not a PDF that text can be taken from.
    ExtractionFailed { detail: String },
    /// The structuring service replied.
    Structured { response: ChatCompletionResponse },
    /// The structuring round trip failed.
    StructuringFailed { detail: String },
    /// The record was written.
    Persisted,
    /// The record was not written.
    PersistFailed { detail: String },
    /// The archive was opened; these are its re-uploads.
    Expanded { tasks: Vec<UploadTask> },
    /// The payload is not a ZIP container.
    ExpandFailed { detail: String },
    /// Every re-upload has been started.
    Dispatched,
    /// The spreadsheet was read; these are its projects.
    Parsed { projects: Vec<ProjectData> },
    /// The spreadsheet could not be read.
    ParseFailed { detail: String },
    /// The project rows were written.
    Inserted,
    /// The project rows were not written.
    InsertFailed { detail: String },
    /// The permit was returned.
    PermitReleased,
}

pub enum EventView {
    PermitGranted,
    StatusWritten { ok: bool },
    Fetched { bytes: Seq<u8> },
    FetchFailed { stage: FetchStage, detail: Seq<char> },
    Extracted { text: Seq<char> },
    ExtractionFailed { detail: Seq<char> },
    /// The reply, as the content of each of its candidates.
    Structured { contents: Seq<Seq<char>> },
    StructuringFailed { detail: Seq<char> },
    Persisted,
    PersistFailed { detail: Seq<char> },
    Expanded { tasks: Seq<UploadTaskView> },
    ExpandFailed { detail: Seq<char> },
    Dispatched,
    Parsed { projects: Seq<ProjectDataView> },
    ParseFailed { detail: Seq<char> },
    Inserted,
    InsertFailed { detail: Seq<char> },
    PermitReleased,
}

impl View for Event {
    type V = EventView;

    open spec fn view(&self) -> EventView {
        match self {
            Event::PermitGranted => EventView::PermitGranted,
            Event::StatusWritten { ok } => EventView::StatusWritten { ok: *ok },
            Event::Fetched { bytes } => EventView::Fetched { bytes: bytes@ },
            Event::FetchFailed { stage, detail } => EventView::FetchFailed {
                stage: *stage,
                detail: detail@,
            },
            Event::Extracted { text } => EventView::Extracted { text: text@ },
            Event::ExtractionFailed { detail } => EventView::ExtractionFailed { detail: detail@ },
            Event::Structured { response } => EventView::Structured {
                contents: response.contents(),
            },
            Event::StructuringFailed { detail } => EventView::StructuringFailed {
                detail: detail@,
            },
            Event::Persisted => EventView::Persisted,
            Event::PersistFailed { detail } => EventView::PersistFailed { detail: detail@ },
            Event::Expanded { tasks } => EventView::Expanded { tasks: task_views(tasks@) },
            Event::ExpandFailed { detail } => EventView::ExpandFailed { detail: detail@ },
            Event::Dispatched => EventView::Dispatched,
            Event::Parsed { projects } => EventView::Parsed { projects: project_views(projects@) },
            Event::ParseFailed { detail } => EventView::ParseFailed { detail: detail@ },
            Event::Inserted => EventView::Inserted,
            Event::InsertFailed { detail } => EventView::InsertFailed { detail: detail@ },
            Event::PermitReleased => EventView::PermitReleased,
        }
    }
}

/// What is to be done next.
pub enum Action {
    /// Take one permit from the admission limiter, waiting if none is free.
    AcquirePermit,
    /// Write the status of job `id`; a failed write is logged and the run
    /// goes on.
    MarkStatus { id: JobId, kind: JobKind, update: StatusUpdate },
    /// Get the bytes stored in `bucket` under `key`.
    Fetch { bucket: String, key: String },
    /// Take the plain text out of the PDF `bytes`.
    ExtractText { bytes: Vec<u8> },
    /// Ask the structuring service, once, to structure `text`.
    Structure { text: String },
    /// Write text and structured document to the record of job `id`.
    Persist { id: JobId, text: String, structured: serde_json::Value },
    /// Open `bytes` as the archive stored under `filename` and select its
    /// re-uploads.
    ExpandArchive { filename: String, bytes: Vec<u8> },
    /// Start one independent sub-task for each of `tasks`, on behalf of the
    /// archive job `archive_id`, and do not wait for any of them.
    Dispatch { archive_id: JobId, tasks: Vec<UploadTask> },
    /// Read `bytes` as a spreadsheet of the given format.
    ParseSpreadsheet { format: SpreadsheetFormat, bytes: Vec<u8> },
    /// Write `projects` as the rows of the upload `upload_id`.
    InsertProjects { upload_id: JobId, projects: Vec<ProjectData> },
    /// Give the permit back to the admission limiter.
    ReleasePermit,
    /// The run is over.
    Finished { outcome: Outcome },
    /// The event does not answer the action that is under way; the run has
    /// not moved and still waits for that answer.
    Unexpected,
}

pub enum ActionView {
    AcquirePermit,
    MarkStatus { id: JobId, kind: JobKind, update: StatusUpdateView },
    Fetch { bucket: Seq<char>, key: Seq<char> },
    ExtractText { bytes: Seq<u8> },
    Structure { text: Seq<char> },
    Persist { id: JobId, text: Seq<char>, structured: serde_json::Value },
    ExpandArchive { filename: Seq<char>, bytes: Seq<u8> },
    Dispatch { archive_id: JobId, tasks: Seq<UploadTaskView> },
    ParseSpreadsheet { format: SpreadsheetFormat, bytes: Seq<u8> },
    InsertProjects { upload_id: JobId, projects: Seq<ProjectDataView> },
    ReleasePermit,
    Finished { outcome: Outcome },
    Unexpected,
}

impl View for Action {
    type V = ActionView;

    open spec fn view(&self) -> ActionView {
        match self {
            Action::AcquirePermit => ActionView::AcquirePermit,
            Action::MarkStatus { id, kind, update } => ActionView::MarkStatus {
                id: *id,
                kind: *kind,
                update: update@,
            },
            Action::Fetch { bucket, key } => ActionView::Fetch { bucket: bucket@, key: key@ },
            Action::ExtractText { bytes } => ActionView::ExtractText { bytes: bytes@ },
            Action::Structure { text } => ActionView::Structure { text: text@ },
            Action::Persist { id, text, structured } => ActionView::Persist {
                id: *id,
                text: text@,
                structured: *structured,
            },
            Action::ExpandArchive { filename, bytes } => ActionView::ExpandArchive {
                filename: filename@,
                bytes: bytes@,
            },
            Action::Dispatch { archive_id, tasks } => ActionView::Dispatch {
                archive_id: *archive_id,
                tasks: task_views(tasks@),
            },
            Action::ParseSpreadsheet { format, bytes } => ActionView::ParseSpreadsheet {
                format: *format,
                bytes: bytes@,
            },
            Action::InsertProjects { upload_id, projects } => ActionView::InsertProjects {
                upload_id: *upload_id,
                projects: project_views(projects@),
            },
            Action::ReleasePermit => ActionView::ReleasePermit,
            Action::Finished { outcome } => ActionView::Finished { outcome: *outcome },
            Action::Unexpected => ActionView::Unexpected,
        }
    }
}

/// A job on its way through the pipeline.
pub struct JobRun {
    pub job: Job,
    pub phase: Phase,
}

pub struct JobRunView {
    pub id: JobId,
    pub kind: JobKind,
    pub filename: Seq<char>,
    pub phase: PhaseView,
}

impl View for JobRun {
    type V = JobRunView;

    open spec fn view(&self) -> JobRunView {
        JobRunView {
            id: self.job.id,
            kind: self.job.kind,
            filename: self.job.filename@,
            phase: self.phase@,
        }
    }
}

impl PhaseView {
    /// The run holds a permit from the moment one is granted until it has
    /// been returned.
    pub open spec fn holds_permit(self) -> bool {
        !(self is AwaitingPermit) && !(self is Done)
    }
}

impl JobRunView {
    /// A run that has just been triggered.
    pub open spec fn start(id: JobId, kind: JobKind, filename: Seq<char>) -> JobRunView {
        JobRunView { id, kind, filename, phase: PhaseView::AwaitingPermit }
    }

    pub open spec fn at(self, phase: PhaseView) -> JobRunView {
        JobRunView { phase, ..self }
    }

    /// The step that ends the pipeline in failure: the `Failed` status goes
    /// out with `message`.
    pub open spec fn fail(self, why: FailureKind, message: Seq<char>) -> (JobRunView, ActionView) {
        (
            self.at(PhaseView::MarkingFinal { outcome: Outcome::Failed(why) }),
            ActionView::MarkStatus {
                id: self.id,
                kind: self.kind,
                update: StatusUpdateView::failed(message),
            },
        )
    }

    /// The step that ends the pipeline in success: the `Completed` status
    /// goes out.
    pub open spec fn complete(self) -> (JobRunView, ActionView) {
        (
            self.at(PhaseView::MarkingFinal { outcome: Outcome::Completed }),
            ActionView::MarkStatus {
                id: self.id,
                kind: self.kind,
                update: StatusUpdateView::completed(),
            },
        )
    }

    /// What a fetched artifact leads to: a document goes to text extraction,
    /// an archive to expansion, and a spreadsheet to the reader for the
    /// format its name announces; a spreadsheet whose name announces none
    /// fails the job.
    pub open spec fn on_fetched(self, bytes: Seq<u8>) -> (JobRunView, ActionView) {
        match self.kind {
            JobKind::SingleDocument => (
                self.at(PhaseView::Extracting),
                ActionView::ExtractText { bytes },
            ),
            JobKind::Archive => (
                self.at(PhaseView::Expanding),
                ActionView::ExpandArchive { filename: self.filename, bytes },
            ),
            JobKind::Spreadsheet => match announced_format(self.filename) {
                Some(format) => (
                    self.at(PhaseView::Parsing),
                    ActionView::ParseSpreadsheet { format, bytes },
                ),
                None => self.fail(
                    FailureKind::UnsupportedFormat,
                    unsupported_format_message(self.filename),
                ),
            },
        }
    }

    /// What the outcome of structuring leads to: the document is persisted
    /// with `text`, or the job fails.
    pub open spec fn on_document(
        self,
        text: Seq<char>,
        document: Result<serde_json::Value, StructuringError>,
    ) -> (JobRunView, ActionView) {
        match document {
            Ok(structured) => (
                self.at(PhaseView::Persisting),
                ActionView::Persist { id: self.id, text, structured },
            ),
            Err(_) => self.fail(FailureKind::Structuring, structuring_message()),
        }
    }

    /// What a reply of the structuring service leads to: what the document
    /// of its first candidate leads to.
    pub open spec fn on_structured(self, text: Seq<char>, contents: Seq<Seq<char>>) -> (
        JobRunView,
        ActionView,
    ) {
        self.on_document(text, structured_document(contents))
    }

    /// The transition function: the run after `event`, and the action it
    /// asks for. An event that does not answer the action under way leaves
    /// the run where it is.
    pub open spec fn step(self, event: EventView) -> (JobRunView, ActionView) {
        match (self.phase, event) {
            (PhaseView::AwaitingPermit, EventView::PermitGranted) => (
                self.at(PhaseView::MarkingProcessing),
                ActionView::MarkStatus {
                    id: self.id,
                    kind: self.kind,
                    update: StatusUpdateView::processing(),
                },
            ),
            (PhaseView::MarkingProcessing, EventView::StatusWritten { .. }) => (
                self.at(PhaseView::Fetching),
                ActionView::Fetch { bucket: self.kind.source_bucket(), key: self.filename },
            ),
            (PhaseView::Fetching, EventView::Fetched { bytes }) => self.on_fetched(bytes),
            (PhaseView::Fetching, EventView::FetchFailed { stage, detail }) => self.fail(
                FailureKind::Fetch,
                fetch_message(self.kind, stage, detail),
            ),
            (PhaseView::Extracting, EventView::Extracted { text }) => (
                self.at(PhaseView::Structuring { text }),
                ActionView::Structure { text },
            ),
            (PhaseView::Extracting, EventView::ExtractionFailed { detail }) => self.fail(
                FailureKind::Extraction,
                extraction_message(detail),
            ),
            (PhaseView::Structuring { text }, EventView::Structured { contents }) => {
                self.on_structured(text, contents)
            },
            (PhaseView::Structuring { .. }, EventView::StructuringFailed { .. }) => self.fail(
                FailureKind::Structuring,
                structuring_message(),
            ),
            (PhaseView::Persisting, EventView::Persisted) => self.complete(),
            (PhaseView::Persisting, EventView::PersistFailed { detail }) => self.fail(
                FailureKind::Persistence,
                persistence_message(detail),
            ),
            (PhaseView::Expanding, EventView::Expanded { tasks }) => (
                self.at(PhaseView::Dispatching),
                ActionView::Dispatch { archive_id: self.id, tasks },
            ),
            (PhaseView::Expanding, EventView::ExpandFailed { detail }) => self.fail(
                FailureKind::ArchiveOpen,
                archive_open_message(detail),
            ),
            (PhaseView::Dispatching, EventView::Dispatched) => self.complete(),
            (PhaseView::Parsing, EventView::Parsed { projects }) => (
                self.at(PhaseView::Inserting),
                ActionView::InsertProjects { upload_id: self.id, projects },
            ),
            (PhaseView::Parsing, EventView::ParseFailed { detail }) => self.fail(
                FailureKind::Parse,
                parse_message(detail),
            ),
            (PhaseView::Inserting, EventView::Inserted) => self.complete(),
            (PhaseView::Inserting, EventView::InsertFailed { detail }) => self.fail(
                FailureKind::Insert,
                insert_message(detail),
            ),
            (PhaseView::MarkingFinal { outcome }, EventView::StatusWritten { .. }) => (
                self.at(PhaseView::Releasing { outcome }),
                ActionView::ReleasePermit,
            ),
            (PhaseView::Releasing { outcome }, EventView::PermitReleased) => (
                self.at(PhaseView::Done { outcome }),
                ActionView::Finished { outcome },
            ),
            (PhaseView::Done { outcome }, _) => (self, ActionView::Finished { outcome }),
            _ => (self, ActionView::Unexpected),
        }
    }
}

impl JobRun {
    /// Starts the run of `job`. The first thing it asks for is a permit.
    pub fn start(job: Job) -> (r: (JobRun, Action))
        ensures
            r.0@ == JobRunView::start(job.id, job.kind, job.filename@),
            r.1@ == ActionView::AcquirePermit,
    {
        (JobRun { job, phase: Phase::AwaitingPermit }, Action::AcquirePermit)
    }

    /// Whether the run is over.
    pub fn is_done(&self) -> (r: bool)
        ensures
            r == (self@.phase is Done),
    {
        match self.phase {
            Phase::Done { .. } => true,
            _ => false,
        }
    }

    /// Whether the run holds a permit.
    pub fn holds_permit(&self) -> (r: bool)
        ensures
            r == self@.phase.holds_permit(),
    {
        match self.phase {
            Phase::AwaitingPermit => false,
            Phase::Done { .. } => false,
            _ => true,
        }
    }

    /// The outcome, once the closing status has been decided.
    pub fn outcome(&self) -> (r: Option<Outcome>)
        ensures
            r == match self@.phase {
                PhaseView::MarkingFinal { outcome } => Some(outcome),
                PhaseView::Releasing { outcome } => Some(outcome),
                PhaseView::Done { outcome } => Some(outcome),
                _ => None,
            },
    {
        match self.phase {
            Phase::MarkingFinal { outcome } => Some(outcome),
            Phase::Releasing { outcome } => Some(outcome),
            Phase::Done { outcome } => Some(outcome),
            _ => None,
        }
    }

    fn fail(job: Job, why: FailureKind, message: String) -> (r: (JobRun, Action))
        ensures
            (r.0@, r.1@) == JobRunView::start(job.id, job.kind, job.filename@).fail(
                why,
                message@,
            ),
    {
        let id = job.id;
        let kind = job.kind;
        (
            JobRun { job, phase: Phase::MarkingFinal { outcome: Outcome::Failed(why) } },
            Action::MarkStatus { id, kind, update: StatusUpdate::failed(message) },
        )
    }

    fn complete(job: Job) -> (r: (JobRun, Action))
        ensures
            (r.0@, r.1@) == JobRunView::start(job.id, job.kind, job.filename@).complete(),
    {
        let id = job.id;
        let kind = job.kind;
        (
            JobRun { job, phase: Phase::MarkingFinal { outcome: Outcome::Completed } },
            Action::MarkStatus { id, kind, update: StatusUpdate::completed() },
        )
    }

    /// Decides what follows structuring for `job`, whose text is `text`:
    /// with a document the record is persisted, without one the job fails.
    pub fn persist_or_fail(
        job: Job,
        text: String,
        document: Result<serde_json::Value, StructuringError>,
    ) -> (r: (JobRun, Action))
        ensures
            (r.0@, r.1@) == JobRunView::start(job.id, job.kind, job.filename@).on_document(
                text@,
                document,
            ),
    {
        match document {
            Ok(structured) => {
                let id = job.id;
                (JobRun { job, phase: Phase::Persisting }, Action::Persist { id, text, structured })
            },
            Err(_) => JobRun::fail(job, FailureKind::Structuring, make_structuring_message()),
        }
    }

    /// Takes the report of how the last action went and decides what comes
    /// next.
    pub fn step(self, event: Event) -> (r: (JobRun, Action))
        ensures
            (r.0@, r.1@) == self@.step(event@),
    {
        let job = self.job;
        match (self.phase, event) {
            (Phase::AwaitingPermit, Event::PermitGranted) => {
                let id = job.id;
                let kind = job.kind;
                (
                    JobRun { job, phase: Phase::MarkingProcessing },
                    Action::MarkStatus { id, kind, update: StatusUpdate::processing() },
                )
            },
            (Phase::MarkingProcessing, Event::StatusWritten { .. }) => {
                let bucket = job.kind.bucket().to_owned();
                let key = job.filename.clone();
                (JobRun { job, phase: Phase::Fetching }, Action::Fetch { bucket, key })
            },
            (Phase::Fetching, Event::Fetched { bytes }) => {
                match job.kind {
                    JobKind::SingleDocument => (
                        JobRun { job, phase: Phase::Extracting },
                        Action::ExtractText { bytes },
                    ),
                    JobKind::Archive => {
                        let filename = job.filename.clone();
                        (
                            JobRun { job, phase: Phase::Expanding },
                            Action::ExpandArchive { filename, bytes },
                        )
                    },
                    JobKind::Spreadsheet => {
                        match format_of(job.filename.as_str()) {
                            Some(format) => (
                                JobRun { job, phase: Phase::Parsing },
                                Action::ParseSpreadsheet { format, bytes },
                            ),
                            None => {
                                let message = make_unsupported_format_message(
                                    job.filename.as_str(),
                                );
                                JobRun::fail(job, FailureKind::UnsupportedFormat, message)
                            },
                        }
                    },
                }
            },
            (Phase::Fetching, Event::FetchFailed { stage, detail }) => {
                let message = make_fetch_message(job.kind, stage, detail.as_str());
                JobRun::fail(job, FailureKind::Fetch, message)
            },
            (Phase::Extracting, Event::Extracted { text }) => {
                let copy = text.clone();
                (JobRun { job, phase: Phase::Structuring { text } }, Action::Structure { text: copy })
            },
            (Phase::Extracting, Event::ExtractionFailed { detail }) => {
                let message = make_extraction_message(detail.as_str());
                JobRun::fail(job, FailureKind::Extraction, message)
            },
            (Phase::Structuring { text }, Event::Structured { response }) => {
                JobRun::persist_or_fail(job, text, interpret_response(&response))
            },
            (Phase::Structuring { text }, Event::StructuringFailed { detail }) => {
                JobRun::fail(job, FailureKind::Structuring, make_structuring_message())
            },
            (Phase::Persisting, Event::Persisted) => JobRun::complete(job),
            (Phase::Persisting, Event::PersistFailed { detail }) => {
                let message = make_persistence_message(detail.as_str());
                JobRun::fail(job, FailureKind::Persistence, message)
            },
            (Phase::Expanding, Event::Expanded { tasks }) => {
                let archive_id = job.id;
                (JobRun { job, phase: Phase::Dispatching }, Action::Dispatch { archive_id, tasks })
            },
            (Phase::Expanding, Event::ExpandFailed { detail }) => {
                let message = make_archive_open_message(detail.as_str());
                JobRun::fail(job, FailureKind::ArchiveOpen, message)
            },
            (Phase::Dispatching, Event::Dispatched) => JobRun::complete(job),
            (Phase::Parsing, Event::Parsed { projects }) => {
                let upload_id = job.id;
                (
                    JobRun { job, phase: Phase::Inserting },
                    Action::InsertProjects { upload_id, projects },
                )
            },
            (Phase::Parsing, Event::ParseFailed { detail }) => {
                let message = make_parse_message(detail.as_str());
                JobRun::fail(job, FailureKind::Parse, message)
            },
            (Phase::Inserting, Event::Inserted) => JobRun::complete(job),
            (Phase::Inserting, Event::InsertFailed { detail }) => {
                let message = make_insert_message(detail.as_str());
                JobRun::fail(job, FailureKind::Insert, message)
            },
            (Phase::MarkingFinal { outcome }, Event::StatusWritten { .. }) => (
                JobRun { job, phase: Phase::Releasing { outcome } },
                Action::ReleasePermit,
            ),
            (Phase::Releasing { outcome }, Event::PermitReleased) => (
                JobRun { job, phase: Phase::Done { outcome } },
                Action::Finished { outcome },
            ),
            (Phase::Done { outcome }, _) => (
                JobRun { job, phase: Phase::Done { outcome } },
                Action::Finished { outcome },
            ),
            (phase, _) => (JobRun { job, phase }, Action::Unexpected),
        }
    }
}

/// No run creates a row or writes to another job's: every status write and
/// every persisted document is keyed by the id of the job that runs, and a
/// run never changes which job that is.
pub proof fn law_writes_are_keyed(run: JobRunView, event: EventView)
    ensures
        ({
            let (next, action) = run.step(event);
            &&& next.id == run.id
            &&& next.kind == run.kind
            &&& next.filename == run.filename
            &&& (action matches ActionView::MarkStatus { id, kind, update } ==> id == run.id
                && kind == run.kind && update.wf())
            &&& (action matches ActionView::Persist { id, .. } ==> id == run.id)
            &&& (action matches ActionView::Dispatch { archive_id, .. } ==> archive_id == run.id)
            &&& (action matches ActionView::InsertProjects { upload_id, .. } ==> upload_id
                == run.id)
        }),
{
}

/// A run holds a permit from the moment one is granted until it has been
/// returned: only a granted permit makes it a holder, only the return of the
/// permit ends that, everything it asks for in between it asks for as a
/// holder, and a run is over only after it has returned its permit.
pub proof fn law_permit_is_held_from_grant_to_release(run: JobRunView, event: EventView)
    ensures
        ({
            let (next, action) = run.step(event);
            &&& (!run.phase.holds_permit() && next.phase.holds_permit()
                ==> event is PermitGranted)
            &&& (run.phase.holds_permit() && !next.phase.holds_permit() ==> event
                is PermitReleased && run.phase is Releasing)
            &&& (!(action is Unexpected) && !(action is Finished) ==> next.phase.holds_permit())
            &&& !(action is AcquirePermit)
            &&& (next.phase is Done ==> !next.phase.holds_permit())
        }),
{
}

/// The steps of a single-document job follow each other strictly: text is
/// taken out only of a source that has been fetched, structuring is asked
/// for only once the text is there, and the record is persisted only with
/// the document of a reply to that request, together with that text.
pub proof fn law_document_steps_are_sequential(run: JobRunView, event: EventView)
    ensures
        ({
            let (next, action) = run.step(event);
            &&& (action is ExtractText ==> run.phase is Fetching && event is Fetched && run.kind
                == JobKind::SingleDocument)
            &&& (action matches ActionView::Structure { text } ==> run.phase is Extracting
                && event == (EventView::Extracted { text }))
            &&& (action matches ActionView::Persist { text, structured, .. } ==> run.phase
                == (PhaseView::Structuring { text }) && event is Structured
                && structured_document(event->contents) == Ok::<
                serde_json::Value,
                StructuringError,
            >(structured))
        }),
{
}

/// The first failure ends the pipeline: once the closing status of a run is
/// decided, the run asks for nothing but to have that status written and its
/// permit returned, and its outcome no longer changes. In particular a job
/// whose text extraction failed never asks for structuring.
pub proof fn law_outcome_is_final(run: JobRunView, event: EventView)
    ensures
        ({
            let (next, action) = run.step(event);
            match run.phase {
                PhaseView::MarkingFinal { outcome } => {
                    &&& (action is ReleasePermit || action is Unexpected)
                    &&& (next.phase == (PhaseView::Releasing { outcome }) || next == run)
                },
                PhaseView::Releasing { outcome } => {
                    &&& (action == (ActionView::Finished { outcome }) || action is Unexpected)
                    &&& (next.phase == (PhaseView::Done { outcome }) || next == run)
                },
                PhaseView::Done { outcome } => {
                    &&& action == (ActionView::Finished { outcome })
                    &&& next == run
                },
                _ => true,
            }
        }),
{
}

impl PhaseView {
    /// How far along the pipeline a phase lies.
    pub open spec fn rank(self) -> nat {
        match self {
            PhaseView::AwaitingPermit => 0,
            PhaseView::MarkingProcessing => 1,
            PhaseView::Fetching => 2,
            PhaseView::Extracting | PhaseView::Expanding | PhaseView::Parsing => 3,
            PhaseView::Structuring { .. } | PhaseView::Dispatching | PhaseView::Inserting => 4,
            PhaseView::Persisting => 5,
            PhaseView::MarkingFinal { .. } => 6,
            PhaseView::Releasing { .. } => 7,
            PhaseView::Done { .. } => 8,
        }
    }
}

/// A run only ever moves forward: every event it accepts takes it to a
/// later phase. So no step is carried out twice, nothing is retried, the
/// structuring service is asked at most once, and a run is over after at
/// most eight answers.
pub proof fn law_run_only_moves_forward(run: JobRunView, event: EventView)
    ensures
        ({
            let (next, action) = run.step(event);
            if action is Unexpected || run.phase is Done {
                next == run
            } else {
                run.phase.rank() < next.phase.rank() <= 8
            }
        }),
{
}

} // verus!
