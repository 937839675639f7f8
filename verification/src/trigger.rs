//! The trigger that hands the service a job, and the answer it gets at once.

use crate::job::Job;
use crate::job::JobId;
use crate::job::JobKind;
use vstd::prelude::*;

verus! {

/// The row whose insertion triggers a job.
pub struct ResumeRecord {
    pub id: JobId,
    pub filename: String,
}

/// What the trigger delivers: the record that was inserted.
pub struct SupabaseWebhook {
    pub record: ResumeRecord,
}

/// The immediate answer to a trigger. It says that the job was taken on and
/// nothing about how it will end.
pub struct Accepted {
    pub status: String,
    pub message: String,
}

/// Takes a trigger on: the single-document job it names is to be run, and
/// the caller is told that work has begun.
pub fn handle_upload(payload: SupabaseWebhook) -> (r: (Job, Accepted))
    ensures
        r.0.id == payload.record.id,
        r.0.kind == JobKind::SingleDocument,
        r.0.filename@ == payload.record.filename@,
        r.1.status@ == "processing"@,
        r.1.message@ == "We're working on it!"@,
{
    let job = Job {
        id: payload.record.id,
        kind: JobKind::SingleDocument,
        filename: payload.record.filename,
    };
    let accepted = Accepted {
        status: "processing".to_owned(),
        message: "We're working on it!".to_owned(),
    };
    (job, accepted)
}

} // verus!
