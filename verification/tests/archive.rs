use resume_pipeline::archive::expand_archive;
use resume_pipeline::archive::select_uploads;
use resume_pipeline::archive::ArchiveEntry;
use std::io::Cursor;
use std::io::Write;
use zip::write::SimpleFileOptions;
use zip::CompressionMethod;
use zip::ZipWriter;

fn file(name: &str, bytes: &[u8]) -> Option<ArchiveEntry> {
    Some(ArchiveEntry { name: name.to_string(), raw_bytes: bytes.to_vec(), is_directory: false })
}

fn directory(name: &str) -> Option<ArchiveEntry> {
    Some(ArchiveEntry { name: name.to_string(), raw_bytes: Vec::new(), is_directory: true })
}

fn sample_archive(method: CompressionMethod) -> Vec<u8> {
    let mut writer = ZipWriter::new(Cursor::new(Vec::new()));
    let options = SimpleFileOptions::default().compression_method(method);
    writer.start_file("a.pdf", options).unwrap();
    writer.write_all(b"first document").unwrap();
    writer.add_directory("b/", options).unwrap();
    writer.start_file("c.txt", options).unwrap();
    writer.write_all(b"notes").unwrap();
    writer.start_file("d.pdf", options).unwrap();
    writer.write_all(b"second document").unwrap();
    writer.finish().unwrap().into_inner()
}

#[test]
fn only_pdf_files_are_selected() {
    let entries = vec![
        file("a.pdf", b"A"),
        directory("b/"),
        file("c.txt", b"C"),
        file("d.pdf", b"D"),
    ];
    let tasks = select_uploads("batch.zip", entries);
    assert_eq!(tasks.len(), 2);
    assert_eq!(tasks[0].upload_path, "batch.zip_a.pdf");
    assert_eq!(tasks[0].bytes, b"A".to_vec());
    assert_eq!(tasks[1].upload_path, "batch.zip_d.pdf");
    assert_eq!(tasks[1].bytes, b"D".to_vec());
}

#[test]
fn unreadable_entries_are_passed_over() {
    let entries = vec![None, file("x.pdf", b"X"), None];
    let tasks = select_uploads("z", entries);
    assert_eq!(tasks.len(), 1);
    assert_eq!(tasks[0].upload_path, "z_x.pdf");
}

#[test]
fn directory_named_like_a_pdf_is_skipped() {
    let entries = vec![Some(ArchiveEntry {
        name: "scans.pdf".to_string(),
        raw_bytes: Vec::new(),
        is_directory: true,
    })];
    assert_eq!(select_uploads("z", entries).len(), 0);
}

#[test]
fn suffix_must_match_exactly() {
    let entries = vec![
        file("UPPER.PDF", b"1"),
        file("a.pdf.bak", b"2"),
        file("pdf", b"3"),
        file(".pdf", b"4"),
        file("nested/dir/e.pdf", b"5"),
    ];
    let tasks = select_uploads("k", entries);
    assert_eq!(tasks.len(), 2);
    assert_eq!(tasks[0].upload_path, "k_.pdf");
    assert_eq!(tasks[1].upload_path, "k_nested/dir/e.pdf");
    assert_eq!(tasks[1].bytes, b"5".to_vec());
}

#[test]
fn empty_entry_list_selects_nothing() {
    assert_eq!(select_uploads("z", Vec::new()).len(), 0);
}

#[test]
fn qualifies_tells_files_from_directories() {
    assert!(file("a.pdf", b"").unwrap().qualifies());
    assert!(!file("a.txt", b"").unwrap().qualifies());
    assert!(!directory("a.pdf/").unwrap().qualifies());
}

#[test]
fn into_upload_builds_the_path() {
    let task = file("cv.pdf", b"bytes").unwrap().into_upload("uploads/2024.zip").unwrap();
    assert_eq!(task.upload_path, "uploads/2024.zip_cv.pdf");
    assert_eq!(task.bytes, b"bytes".to_vec());
    assert!(file("cv.doc", b"bytes").unwrap().into_upload("uploads/2024.zip").is_none());
}

#[test]
fn stored_archive_is_expanded() {
    let tasks = expand_archive("batch.zip", sample_archive(CompressionMethod::Stored)).unwrap();
    assert_eq!(tasks.len(), 2);
    assert_eq!(tasks[0].upload_path, "batch.zip_a.pdf");
    assert_eq!(tasks[0].bytes, b"first document".to_vec());
    assert_eq!(tasks[1].upload_path, "batch.zip_d.pdf");
    assert_eq!(tasks[1].bytes, b"second document".to_vec());
}

#[test]
fn deflated_archive_is_expanded() {
    let tasks = expand_archive("in.zip", sample_archive(CompressionMethod::Deflated)).unwrap();
    assert_eq!(tasks.len(), 2);
    assert_eq!(tasks[0].bytes, b"first document".to_vec());
    assert_eq!(tasks[1].bytes, b"second document".to_vec());
}

#[test]
fn empty_archive_has_no_uploads() {
    let bytes = ZipWriter::new(Cursor::new(Vec::new())).finish().unwrap().into_inner();
    let tasks = expand_archive("empty.zip", bytes).unwrap();
    assert_eq!(tasks.len(), 0);
}

#[test]
fn bytes_that_are_no_archive_are_refused() {
    let result = expand_archive("broken.zip", b"this is not a zip container".to_vec());
    assert!(result.is_err());
    assert!(expand_archive("nothing.zip", Vec::new()).is_err());
}

#[test]
fn same_bytes_expand_the_same_way() {
    let bytes = sample_archive(CompressionMethod::Stored);
    let first = expand_archive("x", bytes.clone()).unwrap();
    let second = expand_archive("x", bytes).unwrap();
    assert_eq!(first.len(), second.len());
    for i in 0..first.len() {
        assert_eq!(first[i].upload_path, second[i].upload_path);
        assert_eq!(first[i].bytes, second[i].bytes);
    }
}
