//! Reading a ZIP payload and selecting the entries that become re-uploads.

use crate::text::concat3;
use crate::text::ends_with;
use crate::text::has_suffix;
use std::io::Cursor;
use std::io::Read;
use vstd::prelude::*;

verus! {

/// The reader `zip` builds over a payload.
#[verifier::external_type_specification]
#[verifier::external_body]
#[verifier::reject_recursive_types(R)]
pub struct ExZipArchive<R>(zip::ZipArchive<R>);

/// `std::io::Cursor`, which makes a byte vector readable and seekable.
#[verifier::external_type_specification]
#[verifier::external_body]
#[verifier::reject_recursive_types(T)]
pub struct ExCursor<T>(std::io::Cursor<T>);

/// The error `zip` reports.
#[verifier::external_type_specification]
#[verifier::external_body]
pub struct ExZipError(zip::result::ZipError);

/// One file found inside an archive payload. It lives only while the archive
/// is being expanded.
pub struct ArchiveEntry {
    pub name: String,
    pub raw_bytes: Vec<u8>,
    pub is_directory: bool,
}

pub struct ArchiveEntryView {
    pub name: Seq<char>,
    pub raw_bytes: Seq<u8>,
    pub is_directory: bool,
}

impl View for ArchiveEntry {
    type V = ArchiveEntryView;

    open spec fn view(&self) -> ArchiveEntryView {
        ArchiveEntryView {
            name: self.name@,
            raw_bytes: self.raw_bytes@,
            is_directory: self.is_directory,
        }
    }
}

/// A document taken out of an archive, ready to be stored under
/// `upload_path`.
pub struct UploadTask {
    pub upload_path: String,
    pub bytes: Vec<u8>,
}

pub struct UploadTaskView {
    pub upload_path: Seq<char>,
    pub bytes: Seq<u8>,
}

impl View for UploadTask {
    type V = UploadTaskView;

    open spec fn view(&self) -> UploadTaskView {
        UploadTaskView { upload_path: self.upload_path@, bytes: self.bytes@ }
    }
}

/// The views of the tasks in `tasks`, in order.
pub open spec fn task_views(tasks: Seq<UploadTask>) -> Seq<UploadTaskView> {
    tasks.map_values(|t: UploadTask| t@)
}

/// The views of the entries in `entries`, in order; an entry that could not
/// be read stays `None`.
pub open spec fn entry_views(entries: Seq<Option<ArchiveEntry>>) -> Seq<Option<ArchiveEntryView>> {
    entries.map_values(
        |e: Option<ArchiveEntry>|
            match e {
                Some(entry) => Some(entry@),
                None => None,
            },
    )
}

/// The characters of `".pdf"`.
pub open spec fn pdf_suffix() -> Seq<char> {
    seq!['.', 'p', 'd', 'f']
}

impl ArchiveEntryView {
    /// An entry is promoted to a re-upload when it is a file whose name ends
    /// in `.pdf`.
    pub open spec fn qualifies(self) -> bool {
        !self.is_directory && has_suffix(self.name, pdf_suffix())
    }
}

/// Where the entry `name` of the archive stored under `filename` is uploaded:
/// `filename`, an underscore, `name`.
pub open spec fn upload_path(filename: Seq<char>, name: Seq<char>) -> Seq<char> {
    filename + seq!['_'] + name
}

/// The upload that an entry gives rise to, if any. An unreadable entry gives
/// none.
pub open spec fn planned_upload(filename: Seq<char>, entry: Option<ArchiveEntryView>) -> Option<
    UploadTaskView,
> {
    match entry {
        Some(e) => if e.qualifies() {
            Some(UploadTaskView { upload_path: upload_path(filename, e.name), bytes: e.raw_bytes })
        } else {
            None
        },
        None => None,
    }
}

/// The uploads of an archive: one for each qualifying entry, in the order of
/// the entries.
pub open spec fn planned_uploads(
    filename: Seq<char>,
    entries: Seq<Option<ArchiveEntryView>>,
) -> Seq<UploadTaskView> {
    entries.filter_map(|e: Option<ArchiveEntryView>| planned_upload(filename, e))
}

/// What an opened archive holds: for each index of its central directory, in
/// order, the entry's decoded name, whether it is a directory, and its
/// decompressed bytes, or `None` where the entry cannot be opened, named or
/// read to its end.
pub uninterp spec fn archive_entries(archive: zip::ZipArchive<Cursor<Vec<u8>>>) -> Seq<
    Option<ArchiveEntryView>,
>;

/// What `zip` makes of a payload: `None` where it does not accept the bytes
/// as an archive, else what the opened archive holds.
pub uninterp spec fn zip_directory(bytes: Seq<u8>) -> Option<Seq<Option<ArchiveEntryView>>>;

/// `zip::ZipArchive::new` over a cursor on `bytes`. The outcome is a function
/// of the bytes alone: the call fails exactly where `zip_directory` is
/// `None`, and an archive it returns holds what `zip_directory` names.
#[verifier::external_body]
fn open_archive(bytes: Vec<u8>) -> (r: Result<
    zip::ZipArchive<Cursor<Vec<u8>>>,
    zip::result::ZipError,
>)
    ensures
        match r {
            Ok(archive) => zip_directory(bytes@) == Some(archive_entries(archive)),
            Err(_) => zip_directory(bytes@) is None,
        },
{
    zip::ZipArchive::new(Cursor::new(bytes))
}

/// `zip::ZipArchive::len`: the number of entries in the central directory.
#[verifier::external_body]
fn entry_count(archive: &zip::ZipArchive<Cursor<Vec<u8>>>) -> (n: usize)
    ensures
        n == archive_entries(*archive).len(),
{
    archive.len()
}

/// `zip::ZipArchive::by_index`, and the name, the directory flag and the
/// content of the file it returns, moved into an `ArchiveEntry`. Yields
/// `None` where `by_index`, `name` or `read_to_end` reports an error, as
/// `by_index` does for an index beyond the central directory. Reading leaves
/// what the archive holds unchanged.
#[verifier::external_body]
fn read_entry(archive: &mut zip::ZipArchive<Cursor<Vec<u8>>>, index: usize) -> (r: Option<
    ArchiveEntry,
>)
    ensures
        archive_entries(*final(archive)) == archive_entries(*old(archive)),
        match r {
            Some(entry) => index < archive_entries(*old(archive)).len() && archive_entries(
                *old(archive),
            )[index as int] == Some(entry@),
            None => index >= archive_entries(*old(archive)).len() || archive_entries(
                *old(archive),
            )[index as int] is None,
        },
{
    let mut file = archive.by_index(index).ok()?;
    let name = file.name().ok()?.into_owned();
    let is_directory = file.is_dir();
    let mut raw_bytes = Vec::new();
    file.read_to_end(&mut raw_bytes).ok()?;
    Some(ArchiveEntry { name, raw_bytes, is_directory })
}

/// The text of a `zip` error, as its `Display` gives it.
#[verifier::external_body]
fn zip_error_text(error: &zip::result::ZipError) -> String {
    error.to_string()
}

impl ArchiveEntry {
    /// Whether this entry becomes a re-upload.
    pub fn qualifies(&self) -> (r: bool)
        ensures
            r == self@.qualifies(),
    {
        proof {
            reveal_strlit(".pdf");
            assert(".pdf"@ =~= pdf_suffix());
        }
        !self.is_directory && ends_with(self.name.as_str(), ".pdf")
    }

    /// Turns the entry into its re-upload for the archive stored under
    /// `filename`, or into nothing if it does not qualify.
    pub fn into_upload(self, filename: &str) -> (r: Option<UploadTask>)
        ensures
            match r {
                Some(task) => planned_upload(filename@, Some(self@)) == Some(task@),
                None => planned_upload(filename@, Some(self@)) is None,
            },
    {
        if self.qualifies() {
            proof {
                reveal_strlit("_");
                assert("_"@ =~= seq!['_']);
            }
            let upload_path = concat3(filename, "_", self.name.as_str());
            Some(UploadTask { upload_path, bytes: self.raw_bytes })
        } else {
            None
        }
    }
}

/// Selects, from the entries of the archive stored under `filename`, those
/// that are re-uploaded, in order, each with its upload path.
pub fn select_uploads(filename: &str, entries: Vec<Option<ArchiveEntry>>) -> (tasks: Vec<
    UploadTask,
>)
    ensures
        task_views(tasks@) == planned_uploads(filename@, entry_views(entries@)),
{
    let mut tasks: Vec<UploadTask> = Vec::new();
    let ghost views = entry_views(entries@);
    let ghost plan = |e: Option<ArchiveEntryView>| planned_upload(filename@, e);
    for slot in it: entries
        invariant
            views == entry_views(entries@),
            plan == |e: Option<ArchiveEntryView>| planned_upload(filename@, e),
            task_views(tasks@) == views.take(it.index() as int).filter_map(plan),
    {
        let ghost i = it.index() as int;
        proof {
            views.lemma_filter_map_take_succ(plan, i);
        }
        match slot {
            Some(entry) => {
                match entry.into_upload(filename) {
                    Some(task) => {
                        tasks.push(task);
                    },
                    None => {},
                }
            },
            None => {},
        }
    }
    proof {
        assert(views.take(views.len() as int) =~= views);
    }
    tasks
}

/// Opens `bytes` as a ZIP container and selects the re-uploads of the archive
/// stored under `filename`. Fails, with the text of the reader's error, where
/// the bytes are not accepted as an archive. An entry that cannot be read is
/// passed over and does not fail the expansion.
pub fn expand_archive(filename: &str, bytes: Vec<u8>) -> (r: Result<Vec<UploadTask>, String>)
    ensures
        match r {
            Ok(tasks) => zip_directory(bytes@) matches Some(entries) && task_views(tasks@)
                == planned_uploads(filename@, entries),
            Err(_) => zip_directory(bytes@) is None,
        },
{
    let mut archive = match open_archive(bytes) {
        Ok(archive) => archive,
        Err(error) => {
            return Err(zip_error_text(&error));
        },
    };
    let ghost held = archive_entries(archive);
    let ghost plan = |e: Option<ArchiveEntryView>| planned_upload(filename@, e);
    let count = entry_count(&archive);
    let mut tasks: Vec<UploadTask> = Vec::new();
    let mut index: usize = 0;
    while index < count
        invariant
            archive_entries(archive) == held,
            zip_directory(bytes@) == Some(held),
            plan == |e: Option<ArchiveEntryView>| planned_upload(filename@, e),
            count == held.len(),
            index <= count,
            task_views(tasks@) == held.take(index as int).filter_map(plan),
        decreases count - index,
    {
        proof {
            held.lemma_filter_map_take_succ(plan, index as int);
        }
        match read_entry(&mut archive, index) {
            Some(entry) => {
                match entry.into_upload(filename) {
                    Some(task) => {
                        tasks.push(task);
                    },
                    None => {},
                }
            },
            None => {},
        }
        index = index + 1;
    }
    proof {
        assert(held.take(held.len() as int) =~= held);
    }
    Ok(tasks)
}

} // verus!
