//! The services that start jobs, and the settings they share.

use crate::archive::UploadTask;
use crate::job::Job;
use crate::job::JobId;
use crate::job::JobKind;
use crate::json::clone_document;
use crate::limiter::AdmissionLimiter;
use crate::limiter::LimiterState;
use crate::run::Action;
use crate::run::ActionView;
use crate::run::JobRun;
use crate::run::JobRunView;
use crate::structuring::generate_structure_from_pdf;
use crate::structuring::interpret_response;
use crate::structuring::structured_document;
use crate::structuring::structuring_request;
use crate::structuring::ChatCompletionResponse;
use crate::structuring::LLMRequest;
use crate::subtask::RetryPolicy;
use crate::subtask::Subtask;
use crate::subtask::SubtaskAction;
use crate::subtask::SubtaskActionView;
use crate::subtask::SubtaskView;
use vstd::prelude::*;

verus! {

/// The settings every component works from. They are fixed when the service
/// is made and handed to each component; nothing here is ambient.
pub struct AppState {
    /// The number of permits of the admission limiter.
    pub capacity: usize,
    /// The schema that structured documents are asked to follow.
    pub resume_schema: serde_json::Value,
    /// How linking a re-upload to its archive is retried.
    pub link_retry: RetryPolicy,
}

/// Starts single-document and archive jobs.
pub struct ResumeService {
    state: AppState,
}

impl ResumeService {
    pub closed spec fn capacity(&self) -> usize {
        self.state.capacity
    }

    pub closed spec fn schema(&self) -> serde_json::Value {
        self.state.resume_schema
    }

    pub closed spec fn link_retry(&self) -> RetryPolicy {
        self.state.link_retry
    }

    pub fn new(state: AppState) -> (service: ResumeService)
        ensures
            service.capacity() == state.capacity,
            service.schema() == state.resume_schema,
            service.link_retry() == state.link_retry,
    {
        ResumeService { state }
    }

    /// The admission limiter that the jobs of this service share: as many
    /// permits as the settings say, none of them out.
    pub fn limiter(&self) -> (limiter: AdmissionLimiter)
        ensures
            limiter@ == LimiterState::fresh(self.capacity() as nat),
    {
        AdmissionLimiter::new(self.state.capacity)
    }

    /// Starts the run of the single-document job `id`, whose source is
    /// stored under `filename`.
    pub fn process_and_update_resume(&self, id: JobId, filename: String) -> (r: (JobRun, Action))
        ensures
            r.0@ == JobRunView::start(id, JobKind::SingleDocument, filename@),
            r.1@ == ActionView::AcquirePermit,
    {
        JobRun::start(Job { id, kind: JobKind::SingleDocument, filename })
    }

    /// Starts the run of the archive job `id`, whose payload is stored under
    /// `filename`.
    pub fn handle_batch_extraction(&self, id: JobId, filename: String) -> (r: (JobRun, Action))
        ensures
            r.0@ == JobRunView::start(id, JobKind::Archive, filename@),
            r.1@ == ActionView::AcquirePermit,
    {
        JobRun::start(Job { id, kind: JobKind::Archive, filename })
    }

    /// The request that asks the structuring service for `pdf_text`, bound
    /// to the schema of this service.
    pub fn structuring_request(&self, pdf_text: &str) -> (request: LLMRequest)
        ensures
            request@ == structuring_request(pdf_text@, self.schema()),
    {
        generate_structure_from_pdf(pdf_text, clone_document(&self.state.resume_schema))
    }

    /// What a structuring reply makes of an extracted text: the text with
    /// the structured document of the first candidate, or nothing where the
    /// reply holds no candidate or the candidate is not valid JSON.
    pub fn process_single_pdf(&self, pdf_text: String, response: &ChatCompletionResponse) -> (r:
        Option<(String, serde_json::Value)>)
        ensures
            match r {
                Some((text, structured)) => text@ == pdf_text@ && structured_document(
                    response.contents(),
                ) == Ok::<serde_json::Value, crate::failure::StructuringError>(structured),
                None => structured_document(response.contents()) is Err,
            },
    {
        match interpret_response(response) {
            Ok(structured) => Some((pdf_text, structured)),
            Err(_) => None,
        }
    }

    /// One sub-task for each re-upload of the archive job `archive_id`, in
    /// order, each about to ask for a permit of its own and each with the
    /// retry policy of this service.
    pub fn start_subtasks(&self, archive_id: JobId, tasks: Vec<UploadTask>) -> (started: Vec<
        (Subtask, SubtaskAction),
    >)
        ensures
            started@.len() == tasks@.len(),
            forall|i: int|
                0 <= i < tasks@.len() ==> {
                    &&& (#[trigger] started@[i]).0@ == SubtaskView::start(
                        archive_id,
                        tasks@[i]@.upload_path,
                        tasks@[i]@.bytes,
                        self.link_retry(),
                    )
                    &&& started@[i].1@ == SubtaskActionView::AcquirePermit
                },
    {
        let mut started: Vec<(Subtask, SubtaskAction)> = Vec::new();
        let policy = self.state.link_retry;
        for task in it: tasks
            invariant
                policy == self.link_retry(),
                started@.len() == it.index(),
                forall|i: int|
                    0 <= i < it.index() ==> {
                        &&& (#[trigger] started@[i]).0@ == SubtaskView::start(
                            archive_id,
                            tasks@[i]@.upload_path,
                            tasks@[i]@.bytes,
                            policy,
                        )
                        &&& started@[i].1@ == SubtaskActionView::AcquirePermit
                    },
        {
            started.push(Subtask::start(archive_id, task, policy));
        }
        started
    }
}

/// Starts spreadsheet jobs.
pub struct ProjectService {
    state: AppState,
}

impl ProjectService {
    pub closed spec fn capacity(&self) -> usize {
        self.state.capacity
    }

    pub fn new(state: AppState) -> (service: ProjectService)
        ensures
            service.capacity() == state.capacity,
    {
        ProjectService { state }
    }

    /// Starts the run of the spreadsheet job `id`, whose source is stored
    /// under `filename`.
    pub fn process_project_spreadsheet(&self, id: JobId, filename: String) -> (r: (
        JobRun,
        Action,
    ))
        ensures
            r.0@ == JobRunView::start(id, JobKind::Spreadsheet, filename@),
            r.1@ == ActionView::AcquirePermit,
    {
        JobRun::start(Job { id, kind: JobKind::Spreadsheet, filename })
    }
}

} // verus!
