//! Why a job fails, and the message recorded with the `Failed` status.

use crate::job::JobKind;
use crate::job::JobStatus;
use crate::text::concat2;
use vstd::prelude::*;

verus! {

/// The classes of terminal failure of a job. Each stops the job's pipeline at
/// the step where it occurs; none is retried.
#[derive(Clone, Copy, Debug, PartialEq, Eq, Structural)]
pub enum FailureKind {
    /// The source artifact could not be fetched.
    Fetch,
    /// The document is not a PDF that text can be taken from.
    Extraction,
    /// The structuring service failed, returned no candidate, or returned a
    /// candidate that is not valid JSON.
    Structuring,
    /// The record could not be written.
    Persistence,
    /// The payload of an archive job is not a ZIP container.
    ArchiveOpen,
    /// The name of a spreadsheet announces a format that is not imported.
    UnsupportedFormat,
    /// The spreadsheet could not be read.
    Parse,
    /// The project rows could not be written.
    Insert,
}

/// The step of a fetch that failed: asking for the object, or collecting its
/// body.
#[derive(Clone, Copy, Debug, PartialEq, Eq, Structural)]
pub enum FetchStage {
    Download,
    Collect,
}

/// What came of one job run.
#[derive(Clone, Copy, Debug, PartialEq, Eq, Structural)]
pub enum Outcome {
    Completed,
    Failed(FailureKind),
}

impl Outcome {
    /// The status that closes a run with this outcome.
    pub open spec fn status(self) -> JobStatus {
        match self {
            Outcome::Completed => JobStatus::Completed,
            Outcome::Failed(_) => JobStatus::Failed,
        }
    }

    pub fn final_status(&self) -> (s: JobStatus)
        ensures
            s == self.status(),
            s.terminal(),
    {
        match self {
            Outcome::Completed => JobStatus::Completed,
            Outcome::Failed(_) => JobStatus::Failed,
        }
    }
}

/// Why a structuring reply yields no document.
#[derive(Clone, Copy, Debug, PartialEq, Eq, Structural)]
pub enum StructuringError {
    /// The reply holds no candidate message.
    NoCandidates,
    /// The first candidate's content is not valid JSON.
    InvalidJson,
}

/// The words that open the message of a failed fetch.
pub open spec fn fetch_prefix(kind: JobKind, stage: FetchStage) -> Seq<char> {
    match (kind, stage) {
        (JobKind::SingleDocument, FetchStage::Download) => "Failed to download pdf: "@,
        (JobKind::SingleDocument, FetchStage::Collect) => "Failed to collect pdf body: "@,
        (JobKind::Archive, FetchStage::Download) => "Failed to download zip: "@,
        (JobKind::Archive, FetchStage::Collect) => "Failed to collect zip body: "@,
        (JobKind::Spreadsheet, FetchStage::Download) => "Failed to download spreadsheet: "@,
        (JobKind::Spreadsheet, FetchStage::Collect) => "Failed to collect spreadsheet body: "@,
    }
}

/// The message of a failed fetch: the prefix for the job's kind and the
/// stage, then what the store reported.
pub open spec fn fetch_message(kind: JobKind, stage: FetchStage, detail: Seq<char>) -> Seq<char> {
    fetch_prefix(kind, stage) + detail
}

/// The message of a failed text extraction.
pub open spec fn extraction_message(detail: Seq<char>) -> Seq<char> {
    "PDF text extraction failed: "@ + detail
}

/// The message of a failed structuring step, the same for each way it fails.
pub open spec fn structuring_message() -> Seq<char> {
    "PDF processing or LLM parsing failed"@
}

/// The message of a failed record write.
pub open spec fn persistence_message(detail: Seq<char>) -> Seq<char> {
    "Failed to update database record: "@ + detail
}

/// The message of a payload that is not a ZIP container.
pub open spec fn archive_open_message(detail: Seq<char>) -> Seq<char> {
    "Failed to create zip archive: "@ + detail
}

/// The message of a spreadsheet whose name announces no format that is
/// imported.
pub open spec fn unsupported_format_message(filename: Seq<char>) -> Seq<char> {
    "Unsupported file format: "@ + filename
}

/// The message of a spreadsheet that could not be read.
pub open spec fn parse_message(detail: Seq<char>) -> Seq<char> {
    "Failed to parse spreadsheet: "@ + detail
}

/// The message of project rows that could not be written.
pub open spec fn insert_message(detail: Seq<char>) -> Seq<char> {
    "Failed to insert projects into DB: "@ + detail
}

pub fn make_fetch_message(kind: JobKind, stage: FetchStage, detail: &str) -> (r: String)
    ensures
        r@ == fetch_message(kind, stage, detail@),
{
    let prefix = match kind {
        JobKind::SingleDocument => match stage {
            FetchStage::Download => "Failed to download pdf: ",
            FetchStage::Collect => "Failed to collect pdf body: ",
        },
        JobKind::Archive => match stage {
            FetchStage::Download => "Failed to download zip: ",
            FetchStage::Collect => "Failed to collect zip body: ",
        },
        JobKind::Spreadsheet => match stage {
            FetchStage::Download => "Failed to download spreadsheet: ",
            FetchStage::Collect => "Failed to collect spreadsheet body: ",
        },
    };
    concat2(prefix, detail)
}

pub fn make_extraction_message(detail: &str) -> (r: String)
    ensures
        r@ == extraction_message(detail@),
{
    concat2("PDF text extraction failed: ", detail)
}

pub fn make_structuring_message() -> (r: String)
    ensures
        r@ == structuring_message(),
{
    "PDF processing or LLM parsing failed".to_owned()
}

pub fn make_persistence_message(detail: &str) -> (r: String)
    ensures
        r@ == persistence_message(detail@),
{
    concat2("Failed to update database record: ", detail)
}

pub fn make_archive_open_message(detail: &str) -> (r: String)
    ensures
        r@ == archive_open_message(detail@),
{
    concat2("Failed to create zip archive: ", detail)
}

pub fn make_unsupported_format_message(filename: &str) -> (r: String)
    ensures
        r@ == unsupported_format_message(filename@),
{
    concat2("Unsupported file format: ", filename)
}

pub fn make_parse_message(detail: &str) -> (r: String)
    ensures
        r@ == parse_message(detail@),
{
    concat2("Failed to parse spreadsheet: ", detail)
}

pub fn make_insert_message(detail: &str) -> (r: String)
    ensures
        r@ == insert_message(detail@),
{
    concat2("Failed to insert projects into DB: ", detail)
}

} // verus!
