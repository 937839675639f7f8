//! Jobs, their status lifecycle, and the status writes a job may issue.

use vstd::prelude::*;

verus! {

/// Identifier of a job, assigned by whoever triggers it.
pub type JobId = u128;

/// Where a job stands. `Pending` is the state of a row this library has never
/// touched; the library itself only ever writes the other three.
#[derive(Clone, Copy, Debug, PartialEq, Eq, Structural)]
pub enum JobStatus {
    Pending,
    Processing,
    Completed,
    Failed,
}

/// The kinds of ingestion work: one PDF, a ZIP archive of PDFs, or a
/// spreadsheet of project rows.
#[derive(Clone, Copy, Debug, PartialEq, Eq, Structural)]
pub enum JobKind {
    SingleDocument,
    Archive,
    Spreadsheet,
}

impl JobStatus {
    /// `Completed` and `Failed` end a run.
    pub open spec fn terminal(self) -> bool {
        self == JobStatus::Completed || self == JobStatus::Failed
    }

    /// The lifecycle relation: a row moves from `Pending` to `Processing` and
    /// from `Processing` to a terminal status. A job that is triggered again
    /// under the same id starts over from its terminal status.
    pub open spec fn precedes(self, next: JobStatus) -> bool {
        match self {
            JobStatus::Pending => next == JobStatus::Processing,
            JobStatus::Processing => next.terminal(),
            JobStatus::Completed | JobStatus::Failed => next == JobStatus::Processing,
        }
    }

    pub fn is_terminal(&self) -> (r: bool)
        ensures
            r == self.terminal(),
    {
        match self {
            JobStatus::Completed => true,
            JobStatus::Failed => true,
            _ => false,
        }
    }

    /// Whether a row in status `self` may be written to `next`.
    pub fn can_become(&self, next: JobStatus) -> (r: bool)
        ensures
            r == self.precedes(next),
    {
        match self {
            JobStatus::Pending => next == JobStatus::Processing,
            JobStatus::Processing => next.is_terminal(),
            _ => next == JobStatus::Processing,
        }
    }

    /// The label under which the status is stored.
    pub open spec fn label(self) -> Seq<char> {
        match self {
            JobStatus::Pending => "pending"@,
            JobStatus::Processing => "processing"@,
            JobStatus::Completed => "completed"@,
            JobStatus::Failed => "failed"@,
        }
    }

    pub fn as_str(&self) -> (r: &'static str)
        ensures
            r@ == self.label(),
    {
        match self {
            JobStatus::Pending => "pending",
            JobStatus::Processing => "processing",
            JobStatus::Completed => "completed",
            JobStatus::Failed => "failed",
        }
    }
}

impl JobKind {
    /// The bucket that holds the source artifact of a job of this kind.
    pub open spec fn source_bucket(self) -> Seq<char> {
        match self {
            JobKind::SingleDocument => "resumes"@,
            JobKind::Archive => "zip-archives"@,
            JobKind::Spreadsheet => "project-spreadsheets"@,
        }
    }

    pub fn bucket(&self) -> (r: &'static str)
        ensures
            r@ == self.source_bucket(),
    {
        match self {
            JobKind::SingleDocument => "resumes",
            JobKind::Archive => "zip-archives",
            JobKind::Spreadsheet => "project-spreadsheets",
        }
    }

    /// The table that holds the status of a job of this kind.
    pub open spec fn status_table(self) -> Seq<char> {
        match self {
            JobKind::SingleDocument => "resumes"@,
            JobKind::Archive => "zip_archives"@,
            JobKind::Spreadsheet => "project_uploads"@,
        }
    }

    pub fn table(&self) -> (r: &'static str)
        ensures
            r@ == self.status_table(),
    {
        match self {
            JobKind::SingleDocument => "resumes",
            JobKind::Archive => "zip_archives",
            JobKind::Spreadsheet => "project_uploads",
        }
    }
}

/// One unit of ingestion work, as the trigger describes it.
pub struct Job {
    pub id: JobId,
    pub kind: JobKind,
    pub filename: String,
}

/// A status write: the new status and, for `Failed` only, why.
pub struct StatusUpdate {
    pub status: JobStatus,
    pub error_message: Option<String>,
}

/// What a status write holds, with the message as a sequence of characters.
pub struct StatusUpdateView {
    pub status: JobStatus,
    pub error_message: Option<Seq<char>>,
}

impl StatusUpdateView {
    /// A message accompanies `Failed` and nothing else, and `Pending` is
    /// never written.
    pub open spec fn wf(self) -> bool {
        &&& self.status != JobStatus::Pending
        &&& (self.error_message is Some <==> self.status == JobStatus::Failed)
    }

    pub open spec fn processing() -> StatusUpdateView {
        StatusUpdateView { status: JobStatus::Processing, error_message: None }
    }

    pub open spec fn completed() -> StatusUpdateView {
        StatusUpdateView { status: JobStatus::Completed, error_message: None }
    }

    pub open spec fn failed(message: Seq<char>) -> StatusUpdateView {
        StatusUpdateView { status: JobStatus::Failed, error_message: Some(message) }
    }
}

impl View for StatusUpdate {
    type V = StatusUpdateView;

    open spec fn view(&self) -> StatusUpdateView {
        StatusUpdateView {
            status: self.status,
            error_message: match self.error_message {
                Some(m) => Some(m@),
                None => None,
            },
        }
    }
}

impl StatusUpdate {
    pub fn processing() -> (u: StatusUpdate)
        ensures
            u@ == StatusUpdateView::processing(),
            u@.wf(),
    {
        StatusUpdate { status: JobStatus::Processing, error_message: None }
    }

    pub fn completed() -> (u: StatusUpdate)
        ensures
            u@ == StatusUpdateView::completed(),
            u@.wf(),
    {
        StatusUpdate { status: JobStatus::Completed, error_message: None }
    }

    pub fn failed(message: String) -> (u: StatusUpdate)
        ensures
            u@ == StatusUpdateView::failed(message@),
            u@.wf(),
    {
        StatusUpdate { status: JobStatus::Failed, error_message: Some(message) }
    }

    /// Attaches `error_message` to `status` the way a row stores them: the
    /// message is kept for `Failed` and dropped for every other status.
    /// `Pending` is never written, so it yields nothing.
    pub fn new(status: JobStatus, error_message: Option<String>) -> (r: Option<StatusUpdate>)
        ensures
            status == JobStatus::Pending <==> r is None,
            r matches Some(u) ==> u@.wf() && u@.status == status,
            r matches Some(u) ==> (status == JobStatus::Failed ==> u@.error_message == Some(
                match error_message {
                    Some(m) => m@,
                    None => Seq::<char>::empty(),
                },
            )),
    {
        match status {
            JobStatus::Pending => None,
            JobStatus::Processing => Some(StatusUpdate::processing()),
            JobStatus::Completed => Some(StatusUpdate::completed()),
            JobStatus::Failed => {
                let message = match error_message {
                    Some(m) => m,
                    None => String::new(),
                };
                Some(StatusUpdate::failed(message))
            },
        }
    }
}

} // verus!
