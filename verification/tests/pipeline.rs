use resume_pipeline::archive::UploadTask;
use resume_pipeline::failure::FailureKind;
use resume_pipeline::failure::FetchStage;
use resume_pipeline::failure::Outcome;
use resume_pipeline::failure::StructuringError;
use resume_pipeline::job::Job;
use resume_pipeline::job::JobKind;
use resume_pipeline::job::JobStatus;
use resume_pipeline::projects::ProjectData;
use resume_pipeline::projects::SpreadsheetFormat;
use resume_pipeline::record::ExtractedRecord;
use resume_pipeline::run::Action;
use resume_pipeline::run::Event;
use resume_pipeline::run::JobRun;
use resume_pipeline::structuring::ChatCompletionResponse;
use resume_pipeline::structuring::Choice;
use resume_pipeline::structuring::Message;

const ID: u128 = 0x1234_5678_9abc_def0_1122_3344_5566_7788;

fn document_job() -> Job {
    Job { id: ID, kind: JobKind::SingleDocument, filename: "cv.pdf".to_string() }
}

fn archive_job() -> Job {
    Job { id: ID, kind: JobKind::Archive, filename: "batch.zip".to_string() }
}

fn spreadsheet_job(filename: &str) -> Job {
    Job { id: ID, kind: JobKind::Spreadsheet, filename: filename.to_string() }
}

fn reply(contents: &[&str]) -> ChatCompletionResponse {
    ChatCompletionResponse {
        choices: contents
            .iter()
            .map(|c| Choice {
                message: Message { role: "assistant".to_string(), content: c.to_string() },
            })
            .collect(),
    }
}

fn status_of(action: &Action) -> (JobStatus, Option<String>) {
    match action {
        Action::MarkStatus { id, update, .. } => {
            assert_eq!(*id, ID);
            (update.status, update.error_message.clone())
        },
        _ => panic!("not a status write"),
    }
}

/// Brings a run to the point where its source has been asked for.
fn until_fetch(job: Job) -> JobRun {
    let kind = job.kind;
    let (run, first) = JobRun::start(job);
    assert!(matches!(first, Action::AcquirePermit));
    assert!(!run.holds_permit());
    let (run, mark) = run.step(Event::PermitGranted);
    assert!(run.holds_permit());
    assert_eq!(status_of(&mark), (JobStatus::Processing, None));
    match mark {
        Action::MarkStatus { kind: marked, .. } => assert_eq!(marked, kind),
        _ => unreachable!(),
    }
    let (run, fetch) = run.step(Event::StatusWritten { ok: true });
    assert!(matches!(fetch, Action::Fetch { .. }));
    run
}

/// Takes a run that has asked for its closing status write to its end.
fn close(run: JobRun, expected: Outcome) {
    assert_eq!(run.outcome(), Some(expected));
    let (run, release) = run.step(Event::StatusWritten { ok: true });
    assert!(matches!(release, Action::ReleasePermit));
    assert!(run.holds_permit());
    assert!(!run.is_done());
    let (run, finished) = run.step(Event::PermitReleased);
    assert!(matches!(finished, Action::Finished { outcome } if outcome == expected));
    assert!(run.is_done());
    assert!(!run.holds_permit());
    let (run, again) = run.step(Event::PermitGranted);
    assert!(matches!(again, Action::Finished { outcome } if outcome == expected));
    assert!(run.is_done());
}

#[test]
fn document_is_fetched_from_the_resumes_bucket() {
    let (run, _) = JobRun::start(document_job());
    let (run, _) = run.step(Event::PermitGranted);
    let (_, fetch) = run.step(Event::StatusWritten { ok: true });
    match fetch {
        Action::Fetch { bucket, key } => {
            assert_eq!(bucket, "resumes");
            assert_eq!(key, "cv.pdf");
        },
        _ => panic!("expected a fetch"),
    }
}

#[test]
fn archive_is_fetched_from_the_archives_bucket() {
    let (run, _) = JobRun::start(archive_job());
    let (run, _) = run.step(Event::PermitGranted);
    let (_, fetch) = run.step(Event::StatusWritten { ok: true });
    match fetch {
        Action::Fetch { bucket, key } => {
            assert_eq!(bucket, "zip-archives");
            assert_eq!(key, "batch.zip");
        },
        _ => panic!("expected a fetch"),
    }
}

#[test]
fn document_job_runs_to_completed() {
    let run = until_fetch(document_job());
    let (run, extract) = run.step(Event::Fetched { bytes: vec![1, 2, 3] });
    assert!(matches!(&extract, Action::ExtractText { bytes } if bytes == &vec![1u8, 2, 3]));
    let (run, structure) = run.step(Event::Extracted { text: "Jane, engineer".to_string() });
    assert!(matches!(&structure, Action::Structure { text } if text == "Jane, engineer"));
    let (run, persist) = run.step(Event::Structured { response: reply(&["{\"name\":\"Jane\"}"]) });
    match persist {
        Action::Persist { id, text, structured } => {
            assert_eq!(id, ID);
            assert_eq!(text, "Jane, engineer");
            let expected: serde_json::Value = serde_json::from_str("{\"name\":\"Jane\"}").unwrap();
            assert_eq!(structured, expected);
            assert_eq!(structured["name"], "Jane");
        },
        _ => panic!("expected the record to be persisted"),
    }
    assert_eq!(run.outcome(), None);
    let (run, mark) = run.step(Event::Persisted);
    assert_eq!(status_of(&mark), (JobStatus::Completed, None));
    close(run, Outcome::Completed);
}

#[test]
fn fetch_failure_fails_the_job() {
    let run = until_fetch(document_job());
    let (run, mark) = run.step(Event::FetchFailed {
        stage: FetchStage::Download,
        detail: "NoSuchKey".to_string(),
    });
    assert_eq!(
        status_of(&mark),
        (JobStatus::Failed, Some("Failed to download pdf: NoSuchKey".to_string()))
    );
    close(run, Outcome::Failed(FailureKind::Fetch));
}

#[test]
fn body_collection_failure_fails_the_job() {
    let run = until_fetch(document_job());
    let (run, mark) = run.step(Event::FetchFailed {
        stage: FetchStage::Collect,
        detail: "connection reset".to_string(),
    });
    assert_eq!(
        status_of(&mark),
        (JobStatus::Failed, Some("Failed to collect pdf body: connection reset".to_string()))
    );
    close(run, Outcome::Failed(FailureKind::Fetch));
}

#[test]
fn archive_fetch_failure_names_the_zip() {
    let run = until_fetch(archive_job());
    let (_, mark) = run.step(Event::FetchFailed {
        stage: FetchStage::Download,
        detail: "denied".to_string(),
    });
    assert_eq!(status_of(&mark).1, Some("Failed to download zip: denied".to_string()));
    let run = until_fetch(archive_job());
    let (_, mark) =
        run.step(Event::FetchFailed { stage: FetchStage::Collect, detail: "eof".to_string() });
    assert_eq!(status_of(&mark).1, Some("Failed to collect zip body: eof".to_string()));
}

#[test]
fn extraction_failure_skips_structuring() {
    let run = until_fetch(document_job());
    let (run, _) = run.step(Event::Fetched { bytes: b"garbage".to_vec() });
    let (run, mark) = run.step(Event::ExtractionFailed { detail: "bad header".to_string() });
    let (status, message) = status_of(&mark);
    assert_eq!(status, JobStatus::Failed);
    assert_eq!(message, Some("PDF text extraction failed: bad header".to_string()));
    close(run, Outcome::Failed(FailureKind::Extraction));
}

#[test]
fn transport_failure_of_structuring_fails_the_job() {
    let run = until_fetch(document_job());
    let (run, _) = run.step(Event::Fetched { bytes: vec![] });
    let (run, _) = run.step(Event::Extracted { text: "t".to_string() });
    let (run, mark) = run.step(Event::StructuringFailed { detail: "timeout".to_string() });
    assert_eq!(
        status_of(&mark),
        (JobStatus::Failed, Some("PDF processing or LLM parsing failed".to_string()))
    );
    close(run, Outcome::Failed(FailureKind::Structuring));
}

#[test]
fn reply_without_candidates_fails_the_job() {
    let run = until_fetch(document_job());
    let (run, _) = run.step(Event::Fetched { bytes: vec![] });
    let (run, _) = run.step(Event::Extracted { text: "t".to_string() });
    let (run, mark) = run.step(Event::Structured { response: reply(&[]) });
    assert_eq!(
        status_of(&mark),
        (JobStatus::Failed, Some("PDF processing or LLM parsing failed".to_string()))
    );
    close(run, Outcome::Failed(FailureKind::Structuring));
}

#[test]
fn reply_that_is_not_json_fails_the_job() {
    let run = until_fetch(document_job());
    let (run, _) = run.step(Event::Fetched { bytes: vec![] });
    let (run, _) = run.step(Event::Extracted { text: "t".to_string() });
    let (run, mark) = run.step(Event::Structured { response: reply(&["{not json", "{}"]) });
    assert_eq!(
        status_of(&mark),
        (JobStatus::Failed, Some("PDF processing or LLM parsing failed".to_string()))
    );
    close(run, Outcome::Failed(FailureKind::Structuring));
}

#[test]
fn only_the_first_candidate_is_read() {
    let run = until_fetch(document_job());
    let (run, _) = run.step(Event::Fetched { bytes: vec![] });
    let (run, _) = run.step(Event::Extracted { text: "t".to_string() });
    let (_, persist) = run.step(Event::Structured { response: reply(&["[1,2]", "{oops"]) });
    match persist {
        Action::Persist { structured, .. } => {
            let expected: serde_json::Value = serde_json::from_str("[1, 2]").unwrap();
            assert_eq!(structured, expected);
        },
        _ => panic!("expected the record to be persisted"),
    }
}

#[test]
fn document_decides_between_persisting_and_failing() {
    let document: serde_json::Value = serde_json::from_str("{\"a\":true}").unwrap();
    let (run, persist) = JobRun::persist_or_fail(document_job(), "t".to_string(), Ok(document));
    assert_eq!(run.outcome(), None);
    match persist {
        Action::Persist { id, text, structured } => {
            assert_eq!(id, ID);
            assert_eq!(text, "t");
            assert_eq!(structured["a"], true);
        },
        _ => panic!("expected the record to be persisted"),
    }
    for error in [StructuringError::NoCandidates, StructuringError::InvalidJson] {
        let (run, mark) = JobRun::persist_or_fail(document_job(), "t".to_string(), Err(error));
        assert_eq!(
            status_of(&mark),
            (JobStatus::Failed, Some("PDF processing or LLM parsing failed".to_string()))
        );
        assert_eq!(run.outcome(), Some(Outcome::Failed(FailureKind::Structuring)));
    }
}

#[test]
fn persistence_failure_fails_the_job() {
    let run = until_fetch(document_job());
    let (run, _) = run.step(Event::Fetched { bytes: vec![] });
    let (run, _) = run.step(Event::Extracted { text: "t".to_string() });
    let (run, _) = run.step(Event::Structured { response: reply(&["{}"]) });
    let (run, mark) = run.step(Event::PersistFailed { detail: "pool timed out".to_string() });
    assert_eq!(
        status_of(&mark),
        (JobStatus::Failed, Some("Failed to update database record: pool timed out".to_string()))
    );
    close(run, Outcome::Failed(FailureKind::Persistence));
}

#[test]
fn refused_status_write_does_not_stop_the_job() {
    let (run, _) = JobRun::start(document_job());
    let (run, _) = run.step(Event::PermitGranted);
    let (run, fetch) = run.step(Event::StatusWritten { ok: false });
    assert!(matches!(fetch, Action::Fetch { .. }));
    let (run, _) = run.step(Event::FetchFailed {
        stage: FetchStage::Download,
        detail: String::new(),
    });
    let (run, release) = run.step(Event::StatusWritten { ok: false });
    assert!(matches!(release, Action::ReleasePermit));
    let (run, finished) = run.step(Event::PermitReleased);
    assert!(matches!(finished, Action::Finished { outcome: Outcome::Failed(FailureKind::Fetch) }));
    assert!(run.is_done());
}

#[test]
fn unexpected_event_leaves_the_run_in_place() {
    let (run, _) = JobRun::start(document_job());
    let (run, answer) = run.step(Event::Persisted);
    assert!(matches!(answer, Action::Unexpected));
    assert!(!run.holds_permit());
    let (run, answer) = run.step(Event::PermitReleased);
    assert!(matches!(answer, Action::Unexpected));
    let (run, mark) = run.step(Event::PermitGranted);
    assert_eq!(status_of(&mark).0, JobStatus::Processing);
    let (run, answer) = run.step(Event::Fetched { bytes: vec![] });
    assert!(matches!(answer, Action::Unexpected));
    let (run, answer) = run.step(Event::PermitGranted);
    assert!(matches!(answer, Action::Unexpected));
    let (_, fetch) = run.step(Event::StatusWritten { ok: true });
    assert!(matches!(fetch, Action::Fetch { .. }));
}

#[test]
fn document_job_ignores_archive_events() {
    let run = until_fetch(document_job());
    let (run, _) = run.step(Event::Fetched { bytes: vec![] });
    let (run, answer) = run.step(Event::Expanded { tasks: Vec::new() });
    assert!(matches!(answer, Action::Unexpected));
    let (_, answer) = run.step(Event::Dispatched);
    assert!(matches!(answer, Action::Unexpected));
}

#[test]
fn archive_job_dispatches_and_completes() {
    let run = until_fetch(archive_job());
    let (run, expand) = run.step(Event::Fetched { bytes: vec![9, 9] });
    match expand {
        Action::ExpandArchive { filename, bytes } => {
            assert_eq!(filename, "batch.zip");
            assert_eq!(bytes, vec![9, 9]);
        },
        _ => panic!("expected the archive to be expanded"),
    }
    let tasks = vec![
        UploadTask { upload_path: "batch.zip_a.pdf".to_string(), bytes: vec![1] },
        UploadTask { upload_path: "batch.zip_d.pdf".to_string(), bytes: vec![2] },
    ];
    let (run, dispatch) = run.step(Event::Expanded { tasks });
    match dispatch {
        Action::Dispatch { archive_id, tasks } => {
            assert_eq!(archive_id, ID);
            assert_eq!(tasks.len(), 2);
            assert_eq!(tasks[0].upload_path, "batch.zip_a.pdf");
            assert_eq!(tasks[1].bytes, vec![2]);
        },
        _ => panic!("expected a dispatch"),
    }
    let (run, mark) = run.step(Event::Dispatched);
    assert_eq!(status_of(&mark), (JobStatus::Completed, None));
    close(run, Outcome::Completed);
}

#[test]
fn archive_without_documents_still_completes() {
    let run = until_fetch(archive_job());
    let (run, _) = run.step(Event::Fetched { bytes: vec![] });
    let (run, dispatch) = run.step(Event::Expanded { tasks: Vec::new() });
    assert!(matches!(&dispatch, Action::Dispatch { tasks, .. } if tasks.is_empty()));
    let (run, mark) = run.step(Event::Dispatched);
    assert_eq!(status_of(&mark).0, JobStatus::Completed);
    close(run, Outcome::Completed);
}

#[test]
fn payload_that_is_no_archive_fails_the_job() {
    let run = until_fetch(archive_job());
    let (run, _) = run.step(Event::Fetched { bytes: vec![0] });
    let (run, mark) = run.step(Event::ExpandFailed { detail: "invalid Zip archive".to_string() });
    assert_eq!(
        status_of(&mark),
        (JobStatus::Failed, Some("Failed to create zip archive: invalid Zip archive".to_string()))
    );
    close(run, Outcome::Failed(FailureKind::ArchiveOpen));
}

#[test]
fn spreadsheet_job_inserts_and_completes() {
    let run = until_fetch(spreadsheet_job("projects.csv"));
    let (run, parse) = run.step(Event::Fetched { bytes: vec![7] });
    match parse {
        Action::ParseSpreadsheet { format, bytes } => {
            assert_eq!(format, SpreadsheetFormat::Csv);
            assert_eq!(bytes, vec![7]);
        },
        _ => panic!("expected the spreadsheet to be read"),
    }
    let project = ProjectData {
        title: "Compiler".to_string(),
        description: String::new(),
        requirements: String::new(),
        manager: String::new(),
        deadline: String::new(),
        priority: 2,
        intern_cap: 1,
    };
    let (run, insert) = run.step(Event::Parsed { projects: vec![project] });
    match insert {
        Action::InsertProjects { upload_id, projects } => {
            assert_eq!(upload_id, ID);
            assert_eq!(projects.len(), 1);
            assert_eq!(projects[0].title, "Compiler");
            assert_eq!(projects[0].priority, 2);
        },
        _ => panic!("expected the projects to be inserted"),
    }
    let (run, mark) = run.step(Event::Inserted);
    assert_eq!(status_of(&mark), (JobStatus::Completed, None));
    close(run, Outcome::Completed);
}

#[test]
fn excel_names_select_the_excel_reader() {
    for name in ["a.xlsx", "b.xls"] {
        let run = until_fetch(spreadsheet_job(name));
        let (_, parse) = run.step(Event::Fetched { bytes: vec![] });
        assert!(matches!(parse, Action::ParseSpreadsheet { format: SpreadsheetFormat::Excel, .. }));
    }
}

#[test]
fn spreadsheet_of_unknown_format_fails_the_job() {
    let run = until_fetch(spreadsheet_job("projects.ods"));
    let (run, mark) = run.step(Event::Fetched { bytes: vec![] });
    assert_eq!(
        status_of(&mark),
        (JobStatus::Failed, Some("Unsupported file format: projects.ods".to_string()))
    );
    close(run, Outcome::Failed(FailureKind::UnsupportedFormat));
}

#[test]
fn spreadsheet_fetch_failure_names_the_spreadsheet() {
    let run = until_fetch(spreadsheet_job("p.csv"));
    let (_, mark) =
        run.step(Event::FetchFailed { stage: FetchStage::Download, detail: "x".to_string() });
    assert_eq!(status_of(&mark).1, Some("Failed to download spreadsheet: x".to_string()));
    let run = until_fetch(spreadsheet_job("p.csv"));
    let (_, mark) =
        run.step(Event::FetchFailed { stage: FetchStage::Collect, detail: "y".to_string() });
    assert_eq!(status_of(&mark).1, Some("Failed to collect spreadsheet body: y".to_string()));
}

#[test]
fn unreadable_spreadsheet_fails_the_job() {
    let run = until_fetch(spreadsheet_job("p.csv"));
    let (run, _) = run.step(Event::Fetched { bytes: vec![] });
    let (run, mark) = run.step(Event::ParseFailed { detail: "missing field".to_string() });
    assert_eq!(
        status_of(&mark).1,
        Some("Failed to parse spreadsheet: missing field".to_string())
    );
    close(run, Outcome::Failed(FailureKind::Parse));
}

#[test]
fn failed_insert_fails_the_job() {
    let run = until_fetch(spreadsheet_job("p.csv"));
    let (run, _) = run.step(Event::Fetched { bytes: vec![] });
    let (run, _) = run.step(Event::Parsed { projects: Vec::new() });
    let (run, mark) = run.step(Event::InsertFailed { detail: "constraint".to_string() });
    assert_eq!(
        status_of(&mark).1,
        Some("Failed to insert projects into DB: constraint".to_string())
    );
    close(run, Outcome::Failed(FailureKind::Insert));
}

/// Runs a document job against scripted outcomes and a row, the way a
/// driver would, and returns the row and how often structuring was asked for.
fn run_document(
    record: ExtractedRecord,
    fetched: Result<Vec<u8>, String>,
    extract: fn(&[u8]) -> Result<String, String>,
    structured: Result<Vec<&str>, String>,
    persist_ok: bool,
) -> (ExtractedRecord, Outcome, usize) {
    let mut record = record;
    let mut structure_calls = 0;
    let (mut run, mut action) = JobRun::start(document_job());
    let mut turns = 0;
    loop {
        turns += 1;
        assert!(turns < 50);
        let event = match &action {
            Action::AcquirePermit => Event::PermitGranted,
            Action::MarkStatus { .. } => Event::StatusWritten { ok: true },
            Action::Fetch { .. } => match &fetched {
                Ok(bytes) => Event::Fetched { bytes: bytes.clone() },
                Err(detail) => Event::FetchFailed {
                    stage: FetchStage::Download,
                    detail: detail.clone(),
                },
            },
            Action::ExtractText { bytes } => match extract(bytes) {
                Ok(text) => Event::Extracted { text },
                Err(detail) => Event::ExtractionFailed { detail },
            },
            Action::Structure { .. } => {
                structure_calls += 1;
                match &structured {
                    Ok(contents) => Event::Structured { response: reply(contents) },
                    Err(detail) => Event::StructuringFailed { detail: detail.clone() },
                }
            },
            Action::Persist { .. } => {
                if persist_ok {
                    Event::Persisted
                } else {
                    Event::PersistFailed { detail: "write failed".to_string() }
                }
            },
            Action::ReleasePermit => Event::PermitReleased,
            Action::Finished { outcome } => return (record, *outcome, structure_calls),
            _ => panic!("a document job asked for something else"),
        };
        record = record.observe(action, &event);
        let (next, asked) = run.step(event);
        run = next;
        action = asked;
    }
}

fn pdf_text(bytes: &[u8]) -> Result<String, String> {
    pdf_extract::extract_text_from_mem(bytes).map_err(|e| e.to_string())
}

fn plain_text(bytes: &[u8]) -> Result<String, String> {
    String::from_utf8(bytes.to_vec()).map_err(|e| e.to_string())
}

/// A one-page PDF that shows `line` in Helvetica.
fn pdf_showing(line: &str) -> Vec<u8> {
    let content = format!("BT /F1 12 Tf 72 720 Td ({}) Tj ET", line);
    let objects = vec![
        "<< /Type /Catalog /Pages 2 0 R >>".to_string(),
        "<< /Type /Pages /Kids [3 0 R] /Count 1 >>".to_string(),
        "<< /Type /Page /Parent 2 0 R /MediaBox [0 0 612 792] /Contents 4 0 R /Resources << /Font << /F1 5 0 R >> >> >>".to_string(),
        format!("<< /Length {} >>\nstream\n{}\nendstream", content.len(), content),
        "<< /Type /Font /Subtype /Type1 /BaseFont /Helvetica /Encoding /WinAnsiEncoding >>".to_string(),
    ];
    let mut pdf = String::from("%PDF-1.4\n");
    let mut offsets = Vec::new();
    for (i, body) in objects.iter().enumerate() {
        offsets.push(pdf.len());
        pdf.push_str(&format!("{} 0 obj\n{}\nendobj\n", i + 1, body));
    }
    let xref = pdf.len();
    pdf.push_str(&format!("xref\n0 {}\n0000000000 65535 f \n", objects.len() + 1));
    for offset in offsets {
        pdf.push_str(&format!("{:010} 00000 n \n", offset));
    }
    pdf.push_str(&format!(
        "trailer\n<< /Size {} /Root 1 0 R >>\nstartxref\n{}\n%%EOF\n",
        objects.len() + 1,
        xref
    ));
    pdf.into_bytes()
}

#[test]
fn pdf_with_text_ends_completed_with_its_structure() {
    let structured = "{\"name\":\"John Doe\",\"years_experience\":5}";
    let (record, outcome, calls) = run_document(
        ExtractedRecord::new(ID),
        Ok(pdf_showing("John Doe, 5 years experience")),
        pdf_text,
        Ok(vec![structured]),
        true,
    );
    assert_eq!(outcome, Outcome::Completed);
    assert_eq!(calls, 1);
    assert_eq!(record.status, JobStatus::Completed);
    assert_eq!(record.error_message, None);
    assert!(record.text.unwrap().contains("John Doe, 5 years experience"));
    let expected: serde_json::Value = serde_json::from_str(structured).unwrap();
    assert_eq!(record.structured, Some(expected));
    assert_eq!(record.zip_id, None);
}

#[test]
fn corrupt_pdf_ends_failed_without_structuring() {
    let (record, outcome, calls) = run_document(
        ExtractedRecord::new(ID),
        Ok(b"%PDF-1.4 this is not a document".to_vec()),
        pdf_text,
        Ok(vec!["{}"]),
        true,
    );
    assert_eq!(outcome, Outcome::Failed(FailureKind::Extraction));
    assert_eq!(calls, 0);
    assert_eq!(record.status, JobStatus::Failed);
    assert!(record.error_message.unwrap().contains("extraction"));
    assert_eq!(record.text, None);
    assert_eq!(record.structured, None);
}

#[test]
fn structured_is_set_exactly_when_completed() {
    let cases: Vec<(Result<Vec<u8>, String>, Result<Vec<&str>, String>, bool)> = vec![
        (Ok(b"text".to_vec()), Ok(vec!["{\"a\":1}"]), true),
        (Err("missing".to_string()), Ok(vec!["{}"]), true),
        (Ok(vec![0xff, 0xfe]), Ok(vec!["{}"]), true),
        (Ok(b"text".to_vec()), Err("down".to_string()), true),
        (Ok(b"text".to_vec()), Ok(vec![]), true),
        (Ok(b"text".to_vec()), Ok(vec!["nope"]), true),
        (Ok(b"text".to_vec()), Ok(vec!["{}"]), false),
    ];
    let mut completed = 0;
    for (fetched, structured, persist_ok) in cases {
        let (record, outcome, _) =
            run_document(ExtractedRecord::new(ID), fetched, plain_text, structured, persist_ok);
        assert!(record.status == JobStatus::Completed || record.status == JobStatus::Failed);
        assert_eq!(record.status == JobStatus::Completed, outcome == Outcome::Completed);
        assert_eq!(record.structured.is_some(), record.status == JobStatus::Completed);
        assert_eq!(record.error_message.is_some(), record.status == JobStatus::Failed);
        if record.structured.is_some() {
            assert!(record.text.is_some());
            completed += 1;
        }
    }
    assert_eq!(completed, 1);
}

#[test]
fn rerun_leaves_the_record_of_the_last_successful_run() {
    let (first, _, _) = run_document(
        ExtractedRecord::new(ID),
        Ok(b"old text".to_vec()),
        plain_text,
        Ok(vec!["{\"v\":1}"]),
        true,
    );
    let (second, outcome, _) =
        run_document(first, Ok(b"new text".to_vec()), plain_text, Ok(vec!["{\"v\":2}"]), true);
    assert_eq!(outcome, Outcome::Completed);
    assert_eq!(second.id, ID);
    assert_eq!(second.status, JobStatus::Completed);
    assert_eq!(second.error_message, None);
    assert_eq!(second.text, Some("new text".to_string()));
    let expected: serde_json::Value = serde_json::from_str("{\"v\":2}").unwrap();
    assert_eq!(second.structured, Some(expected));
}

#[test]
fn same_run_twice_is_the_same_as_once() {
    let (once, _, _) = run_document(
        ExtractedRecord::new(ID),
        Ok(b"text".to_vec()),
        plain_text,
        Ok(vec!["{\"v\":1}"]),
        true,
    );
    let (status, text, structured) = (once.status, once.text.clone(), once.structured.clone());
    let (twice, _, _) =
        run_document(once, Ok(b"text".to_vec()), plain_text, Ok(vec!["{\"v\":1}"]), true);
    assert_eq!(twice.status, status);
    assert_eq!(twice.text, text);
    assert_eq!(twice.structured, structured);
    assert_eq!(twice.error_message, None);
    assert_eq!(twice.zip_id, None);
}

#[test]
fn failed_rerun_keeps_the_earlier_document() {
    let (first, _, _) = run_document(
        ExtractedRecord::new(ID),
        Ok(b"kept".to_vec()),
        plain_text,
        Ok(vec!["{\"v\":1}"]),
        true,
    );
    let (second, outcome, _) =
        run_document(first, Err("gone".to_string()), plain_text, Ok(vec!["{}"]), true);
    assert_eq!(outcome, Outcome::Failed(FailureKind::Fetch));
    assert_eq!(second.status, JobStatus::Failed);
    assert_eq!(second.error_message, Some("Failed to download pdf: gone".to_string()));
    assert_eq!(second.text, Some("kept".to_string()));
    let expected: serde_json::Value = serde_json::from_str("{\"v\":1}").unwrap();
    assert_eq!(second.structured, Some(expected));
}

#[test]
fn writes_for_another_job_do_not_touch_the_record() {
    let record = ExtractedRecord::new(ID + 1);
    let (run, _) = JobRun::start(document_job());
    let (_, mark) = run.step(Event::PermitGranted);
    let record = record.observe(mark, &Event::StatusWritten { ok: true });
    assert_eq!(record.status, JobStatus::Pending);
    assert_eq!(record.id, ID + 1);
}

#[test]
fn refused_status_write_leaves_the_record_behind() {
    let record = ExtractedRecord::new(ID);
    let (run, _) = JobRun::start(document_job());
    let (_, mark) = run.step(Event::PermitGranted);
    let record = record.observe(mark, &Event::StatusWritten { ok: false });
    assert_eq!(record.status, JobStatus::Pending);
}
