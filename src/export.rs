//! Validation of an export request and the plan of what each sink writes.
use vstd::prelude::*;

use vstd::utf8::encode_utf8;

use crate::archive::contents_fit;
use crate::archive::last_member_fits;
use crate::archive::member_view;
use crate::archive::names_fit;
use crate::archive::zip_contents;
use crate::archive::ArchiveSink;
use crate::archive::MEMBER_SIZE_LIMIT;
use crate::error::ExportError;
use crate::names::normalize_name;
use crate::names::normalized;
use crate::names::same_text;

verus! {

/// What a lookup of the destination path found.
#[derive(Clone, Copy, Debug)]
pub enum DirectoryStatus {
    /// The path exists and is a directory.
    Directory,
    /// The path exists and is not a directory.
    NotDirectory,
    /// The path does not exist.
    Missing,
    /// Whether the path exists could not be determined.
    Undetermined,
}

/// An export request: what to export, where, and how.
#[derive(Debug)]
pub struct ExportOptions {
    /// `json` or `csv`.
    pub export_type: String,
    /// The destination directory.
    pub export_path: String,
    /// Whether the entries go into one archive; required.
    pub is_zip: Option<bool>,
    /// The archive's name, used in archive mode only.
    pub zip_name: Option<String>,
    /// Entry name and text content of each entry; names are unique and
    /// their order carries no meaning.
    pub data: Vec<(String, String)>,
}

/// What a valid request asks the sinks to write.
#[derive(Debug)]
pub enum ExportPlan {
    /// One file per entry: file name and content, in order.
    Files(Vec<(String, String)>),
    /// One archive file with one member per entry.
    Archive { file_name: String, entries: Vec<(String, String)> },
    /// Nothing is written.
    Nothing,
}

/// The mathematical form of an `ExportPlan`.
pub enum PlanModel {
    Files(Seq<(Seq<char>, Seq<char>)>),
    Archive { file_name: Seq<char>, entries: Seq<(Seq<char>, Seq<char>)> },
    Nothing,
}

/// No two entries of `data` share a name.
pub open spec fn unique_names(data: Seq<(String, String)>) -> bool {
    forall|i: int, j: int| 0 <= i < data.len() && 0 <= j < data.len() && i != j ==> data[i].0@ != data[j].0@
}

impl ExportOptions {
    /// The payload's entry names are unique.
    pub open spec fn well_formed(&self) -> bool {
        unique_names(self.data@)
    }
}

/// Whether no two entries of `data` share a name.
pub fn has_unique_names(data: &Vec<(String, String)>) -> (r: bool)
    ensures
        r == unique_names(data@),
{
    let mut i: usize = 0;
    while i < data.len()
        invariant
            i <= data@.len(),
            forall|a: int, b: int| 0 <= a < i && 0 <= b < data@.len() && a != b ==> data@[a].0@ != data@[b].0@,
        decreases data@.len() - i,
    {
        let mut j: usize = 0;
        while j < data.len()
            invariant
                i < data@.len(),
                j <= data@.len(),
                forall|a: int, b: int| 0 <= a < i && 0 <= b < data@.len() && a != b ==> data@[a].0@ != data@[b].0@,
                forall|b: int| 0 <= b < j && b != i ==> data@[i as int].0@ != data@[b].0@,
            decreases data@.len() - j,
        {
            if j != i && data[i].0 == data[j].0 {
                return false;
            }
            j = j + 1;
        }
        i = i + 1;
    }
    true
}

/// Names and contents of `data` as character sequences.
pub open spec fn entries_view(data: Seq<(String, String)>) -> Seq<(Seq<char>, Seq<char>)> {
    data.map_values(|e: (String, String)| (e.0@, e.1@))
}

impl View for ExportPlan {
    type V = PlanModel;

    open spec fn view(&self) -> PlanModel {
        match self {
            ExportPlan::Files(files) => PlanModel::Files(entries_view(files@)),
            ExportPlan::Archive { file_name, entries } => PlanModel::Archive {
                file_name: file_name@,
                entries: entries_view(entries@),
            },
            ExportPlan::Nothing => PlanModel::Nothing,
        }
    }
}

/// Each entry's name normalized to end with `suffix`; contents unchanged.
pub open spec fn normalized_entries(entries: Seq<(Seq<char>, Seq<char>)>, suffix: Seq<char>) -> Seq<
    (Seq<char>, Seq<char>),
> {
    entries.map_values(|e: (Seq<char>, Seq<char>)| (normalized(e.0, suffix), e.1))
}

/// The archive's file name: the given name, or `export`, ending in `.zip`.
pub open spec fn archive_name_of(zip_name: Option<String>) -> Seq<char> {
    match zip_name {
        Some(name) => normalized(name@, ".zip"@),
        None => normalized("export"@, ".zip"@),
    }
}

/// The outcome of validating `opts` against the destination's `status`:
/// the destination is checked first, then the archive-mode flag, then the
/// export type.
pub open spec fn planned(opts: ExportOptions, status: DirectoryStatus) -> Result<PlanModel, ExportError> {
    if !(status is Directory) {
        Err(ExportError::FileSystemError)
    } else if opts.is_zip is None {
        Err(ExportError::MissingRequiredOption)
    } else if opts.export_type@ == "json"@ {
        let entries = normalized_entries(entries_view(opts.data@), ".json"@);
        if opts.is_zip == Some(true) {
            Ok(PlanModel::Archive { file_name: archive_name_of(opts.zip_name), entries })
        } else {
            Ok(PlanModel::Files(entries))
        }
    } else if opts.export_type@ == "csv"@ {
        Ok(PlanModel::Nothing)
    } else {
        Err(ExportError::UnsupportedExportType)
    }
}

/// `data` with each name normalized to end with `suffix`.
pub fn normalize_entries(data: &Vec<(String, String)>, suffix: &str) -> (r: Vec<(String, String)>)
    ensures
        entries_view(r@) == normalized_entries(entries_view(data@), suffix@),
{
    let mut out: Vec<(String, String)> = Vec::new();
    let mut i: usize = 0;
    while i < data.len()
        invariant
            i <= data@.len(),
            out@.len() == i,
            forall|j: int|
                0 <= j < i ==> out@[j].0@ == normalized(data@[j].0@, suffix@) && out@[j].1@
                    == data@[j].1@,
        decreases data@.len() - i,
    {
        let entry = &data[i];
        let name = normalize_name(entry.0.as_str(), suffix);
        let content = entry.1.clone();
        out.push((name, content));
        i = i + 1;
    }
    assert(entries_view(out@) =~= normalized_entries(entries_view(data@), suffix@));
    out
}

/// The archive's file name: `zip_name`, or `export` when absent, made to end
/// with `.zip`.
pub fn archive_file_name(zip_name: &Option<String>) -> (r: String)
    ensures
        r@ == archive_name_of(*zip_name),
{
    match zip_name {
        Some(name) => normalize_name(name.as_str(), ".zip"),
        None => normalize_name("export", ".zip"),
    }
}

/// Validates `opts` against the destination's `status`, before anything is
/// written, and plans the writes: one file per entry, one archive, or
/// nothing for `csv`.
pub fn plan_export(opts: &ExportOptions, status: DirectoryStatus) -> (r: Result<ExportPlan, ExportError>)
    requires
        opts.well_formed(),
    ensures
        r matches Ok(p) ==> planned(*opts, status) == Ok::<PlanModel, ExportError>(p@),
        r matches Err(e) ==> planned(*opts, status) == Err::<PlanModel, ExportError>(e),
{
    match status {
        DirectoryStatus::Directory => {},
        _ => {
            return Err(ExportError::FileSystemError);
        },
    }
    let as_zip = match opts.is_zip {
        Some(flag) => flag,
        None => {
            return Err(ExportError::MissingRequiredOption);
        },
    };
    if same_text(opts.export_type.as_str(), "json") {
        let entries = normalize_entries(&opts.data, ".json");
        if as_zip {
            let file_name = archive_file_name(&opts.zip_name);
            Ok(ExportPlan::Archive { file_name, entries })
        } else {
            Ok(ExportPlan::Files(entries))
        }
    } else if same_text(opts.export_type.as_str(), "csv") {
        Ok(ExportPlan::Nothing)
    } else {
        Err(ExportError::UnsupportedExportType)
    }
}

/// A new archive holding one member per entry, in order. Stops at the first
/// entry that fails: a member that cannot be opened gives
/// `ArchiveWriteError`, content that cannot be written `ArchiveEntryError`.
/// Contents within `MEMBER_SIZE_LIMIT` always succeed.
pub fn fill_archive(entries: &Vec<(String, String)>) -> (r: Result<ArchiveSink, ExportError>)
    ensures
        contents_fit(entries_view(entries@)) ==> r is Ok,
        r matches Ok(s) ==> s.members() == member_view(entries_view(entries@)) && s.is_open(),
        r matches Err(e) ==> e is ArchiveWriteError || e is ArchiveEntryError,
{
    let mut sink = ArchiveSink::new();
    let mut i: usize = 0;
    while i < entries.len()
        invariant
            i <= entries@.len(),
            sink.is_open(),
            sink.members() == member_view(entries_view(entries@.subrange(0, i as int))),
            contents_fit(entries_view(entries@)) ==> last_member_fits(sink.members()),
        decreases entries@.len() - i,
    {
        let entry = &entries[i];
        sink.open_entry(entry.0.as_str())?;
        proof {
            if contents_fit(entries_view(entries@)) {
                assert(encode_utf8(entries_view(entries@)[i as int].1).len() <= MEMBER_SIZE_LIMIT);
            }
        }
        sink.write_content(entry.1.as_str())?;
        assert(entries@.subrange(0, i + 1) =~= entries@.subrange(0, i as int).push(entries@[i as int]));
        assert(member_view(entries_view(entries@.subrange(0, i + 1))) =~= member_view(
            entries_view(entries@.subrange(0, i as int)),
        ).push((entries@[i as int].0@, encode_utf8(entries@[i as int].1@))));
        i = i + 1;
    }
    assert(entries@.subrange(0, entries@.len() as int) =~= entries@);
    Ok(sink)
}

/// The bytes of a finished archive holding one member per entry, which a
/// reader reads back as those entries, with their contents in UTF-8.
/// Contents within `MEMBER_SIZE_LIMIT` always succeed.
pub fn build_archive(entries: &Vec<(String, String)>) -> (r: Result<Vec<u8>, ExportError>)
    ensures
        contents_fit(entries_view(entries@)) ==> r is Ok,
        r matches Ok(b) ==> (names_fit(member_view(entries_view(entries@))) ==> zip_contents(b@)
            == member_view(entries_view(entries@))),
        r matches Err(e) ==> e is ArchiveWriteError || e is ArchiveEntryError
            || e is ArchiveFinalizeError,
{
    let sink = fill_archive(entries)?;
    proof {
        let m = member_view(entries_view(entries@));
        if contents_fit(entries_view(entries@)) && m.len() > 0 {
            assert(encode_utf8(entries_view(entries@)[m.len() - 1].1).len() <= MEMBER_SIZE_LIMIT);
        }
    }
    sink.finish()
}

} // verus!
