//! What holds of every export: the effect of the plain-file sink on a
//! directory, the members of an archive export, and the rejections.
use vstd::prelude::*;
use vstd::utf8::decode_utf8;
use vstd::utf8::encode_utf8;
use vstd::utf8::encode_utf8_decode_utf8;

use crate::archive::member_view;
use crate::error::ExportError;
use crate::export::entries_view;
use crate::export::normalized_entries;
use crate::export::archive_name_of;
use crate::export::planned;
use crate::export::DirectoryStatus;
use crate::export::ExportOptions;
use crate::export::PlanModel;
use crate::names::normalized;

verus! {

/// The files of a directory, by name, after `writes` were carried out in
/// order; each write creates its file or overwrites it whole.
pub open spec fn after_writes(
    dir: Map<Seq<char>, Seq<char>>,
    writes: Seq<(Seq<char>, Seq<char>)>,
) -> Map<Seq<char>, Seq<char>>
    decreases writes.len(),
{
    if writes.len() == 0 {
        dir
    } else {
        after_writes(dir, writes.drop_last()).insert(writes.last().0, writes.last().1)
    }
}

/// The names of the payload entries, normalized to `.json`, are pairwise distinct.
pub open spec fn distinct_json_names(data: Seq<(String, String)>) -> bool {
    forall|i: int, j: int|
        0 <= i < data.len() && 0 <= j < data.len() && i != j ==> normalized(data[i].0@, ".json"@)
            != normalized(data[j].0@, ".json"@)
}

/// Carrying out `writes` leaves every file that no write names as it was.
proof fn lemma_untouched(dir: Map<Seq<char>, Seq<char>>, writes: Seq<(Seq<char>, Seq<char>)>, f: Seq<char>)
    requires
        forall|i: int| 0 <= i < writes.len() ==> writes[i].0 != f,
    ensures
        after_writes(dir, writes).contains_key(f) == dir.contains_key(f),
        dir.contains_key(f) ==> after_writes(dir, writes)[f] == dir[f],
    decreases writes.len(),
{
    if writes.len() > 0 {
        let rest = writes.drop_last();
        assert forall|i: int| 0 <= i < rest.len() implies rest[i].0 != f by {
            assert(rest[i] == writes[i]);
        }
        lemma_untouched(dir, rest, f);
    }
}

/// Where the written names are distinct, each written file holds its content.
proof fn lemma_written(dir: Map<Seq<char>, Seq<char>>, writes: Seq<(Seq<char>, Seq<char>)>, i: int)
    requires
        0 <= i < writes.len(),
        forall|a: int, b: int|
            0 <= a < writes.len() && 0 <= b < writes.len() && a != b ==> writes[a].0 != writes[b].0,
    ensures
        after_writes(dir, writes).contains_key(writes[i].0),
        after_writes(dir, writes)[writes[i].0] == writes[i].1,
    decreases writes.len(),
{
    let rest = writes.drop_last();
    if i < writes.len() - 1 {
        assert(writes[i] == rest[i]);
        assert forall|a: int, b: int|
            0 <= a < rest.len() && 0 <= b < rest.len() && a != b implies rest[a].0 != rest[b].0 by {
            assert(rest[a] == writes[a] && rest[b] == writes[b]);
        }
        lemma_written(dir, rest, i);
    }
}

/// Carrying out `writes` lays what they write over the directory.
proof fn lemma_layered(dir: Map<Seq<char>, Seq<char>>, writes: Seq<(Seq<char>, Seq<char>)>)
    ensures
        after_writes(dir, writes) == dir.union_prefer_right(after_writes(Map::empty(), writes)),
    decreases writes.len(),
{
    if writes.len() == 0 {
        assert(dir.union_prefer_right(Map::empty()) =~= dir);
    } else {
        let rest = writes.drop_last();
        lemma_layered(dir, rest);
        assert(after_writes(dir, writes) =~= dir.union_prefer_right(after_writes(Map::empty(), writes)));
    }
}

/// The files of `dir` after a plain `json` export of `data`.
pub open spec fn after_json_export(dir: Map<Seq<char>, Seq<char>>, data: Seq<(String, String)>) -> Map<
    Seq<char>,
    Seq<char>,
> {
    after_writes(dir, normalized_entries(entries_view(data), ".json"@))
}

/// A plain `json` export writes one file per entry, named by the entry's
/// name normalized to `.json` and holding its content; every other file of
/// the directory stays as it was. Entries whose normalized names coincide
/// would overwrite one another, so their names are taken distinct.
pub proof fn lemma_plain_export_writes_each_entry(opts: ExportOptions, dir: Map<Seq<char>, Seq<char>>)
    requires
        opts.well_formed(),
        opts.is_zip == Some(false),
        opts.export_type@ == "json"@,
        distinct_json_names(opts.data@),
    ensures
        planned(opts, DirectoryStatus::Directory) == Ok::<PlanModel, ExportError>(
            PlanModel::Files(normalized_entries(entries_view(opts.data@), ".json"@)),
        ),
        forall|i: int|
            #![trigger opts.data@[i]]
            0 <= i < opts.data@.len() ==> after_json_export(dir, opts.data@).contains_key(
                normalized(opts.data@[i].0@, ".json"@),
            ) && after_json_export(dir, opts.data@)[normalized(opts.data@[i].0@, ".json"@)]
                == opts.data@[i].1@,
        forall|f: Seq<char>|
            #![trigger after_json_export(dir, opts.data@).contains_key(f)]
            (forall|i: int| 0 <= i < opts.data@.len() ==> normalized(opts.data@[i].0@, ".json"@) != f)
                ==> after_json_export(dir, opts.data@).contains_key(f) == dir.contains_key(f) && (
            dir.contains_key(f) ==> after_json_export(dir, opts.data@)[f] == dir[f]),
{
    let writes = normalized_entries(entries_view(opts.data@), ".json"@);
    assert forall|a: int, b: int|
        0 <= a < writes.len() && 0 <= b < writes.len() && a != b implies writes[a].0 != writes[b].0 by {}
    assert forall|i: int|
        #![trigger opts.data@[i]]
        0 <= i < opts.data@.len() implies after_json_export(dir, opts.data@).contains_key(
            normalized(opts.data@[i].0@, ".json"@),
        ) && after_json_export(dir, opts.data@)[normalized(opts.data@[i].0@, ".json"@)]
            == opts.data@[i].1@ by {
        assert(writes[i].0 == normalized(opts.data@[i].0@, ".json"@));
        assert(writes[i].1 == opts.data@[i].1@);
        lemma_written(dir, writes, i);
    }
    assert forall|f: Seq<char>|
        (forall|i: int| 0 <= i < opts.data@.len() ==> normalized(opts.data@[i].0@, ".json"@) != f)
            implies #[trigger] after_writes(dir, writes).contains_key(f) == dir.contains_key(f) && (
        dir.contains_key(f) ==> after_writes(dir, writes)[f] == dir[f]) by {
        assert forall|i: int| 0 <= i < writes.len() implies writes[i].0 != f by {
            assert(normalized(opts.data@[i].0@, ".json"@) != f);
        }
        lemma_untouched(dir, writes, f);
    }
}

/// Carrying out the same plain export twice leaves the same files as doing
/// it once: the second run overwrites each file with what it already holds.
pub proof fn lemma_plain_export_idempotent(opts: ExportOptions, dir: Map<Seq<char>, Seq<char>>)
    requires
        opts.well_formed(),
        opts.is_zip == Some(false),
        opts.export_type@ == "json"@,
    ensures
        planned(opts, DirectoryStatus::Directory) matches Ok(PlanModel::Files(writes)) && after_writes(
            after_writes(dir, writes),
            writes,
        ) == after_writes(dir, writes),
{
    let writes = normalized_entries(entries_view(opts.data@), ".json"@);
    lemma_layered(dir, writes);
    lemma_layered(after_writes(dir, writes), writes);
    let top = after_writes(Map::empty(), writes);
    assert(dir.union_prefer_right(top).union_prefer_right(top) =~= dir.union_prefer_right(top));
}

/// An archive `json` export plans one member per entry, in order: named by
/// the entry's name normalized to `.json`, holding exactly the UTF-8 bytes
/// of its content, which decode back to that content.
pub proof fn lemma_archive_export_members(opts: ExportOptions)
    requires
        opts.well_formed(),
        opts.is_zip == Some(true),
        opts.export_type@ == "json"@,
    ensures
        planned(opts, DirectoryStatus::Directory) == Ok::<PlanModel, ExportError>(
            PlanModel::Archive {
                file_name: archive_name_of(opts.zip_name),
                entries: normalized_entries(entries_view(opts.data@), ".json"@),
            },
        ),
        member_view(normalized_entries(entries_view(opts.data@), ".json"@)).len()
            == opts.data@.len(),
        forall|i: int|
            0 <= i < opts.data@.len() ==> {
                let member = member_view(normalized_entries(entries_view(opts.data@), ".json"@))[i];
                &&& member.0 == normalized(#[trigger] opts.data@[i].0@, ".json"@)
                &&& member.1 == encode_utf8(opts.data@[i].1@)
                &&& decode_utf8(member.1) == opts.data@[i].1@
            },
{
    broadcast use encode_utf8_decode_utf8;

}

/// A destination that is missing, not a directory, or of unknown state
/// fails the export with `FileSystemError` before anything is planned.
pub proof fn lemma_invalid_destination_rejected(opts: ExportOptions, status: DirectoryStatus)
    requires
        opts.well_formed(),
        !(status is Directory),
    ensures
        planned(opts, status) == Err::<PlanModel, ExportError>(ExportError::FileSystemError),
{
}

/// An export type other than `json` and `csv` fails the export with
/// `UnsupportedExportType`, once destination and archive flag are valid.
pub proof fn lemma_unrecognized_type_rejected(opts: ExportOptions)
    requires
        opts.well_formed(),
        opts.is_zip is Some,
        opts.export_type@ != "json"@,
        opts.export_type@ != "csv"@,
    ensures
        planned(opts, DirectoryStatus::Directory) == Err::<PlanModel, ExportError>(
            ExportError::UnsupportedExportType,
        ),
{
}

/// A `csv` export succeeds and plans no write at all.
pub proof fn lemma_csv_writes_nothing(opts: ExportOptions)
    requires
        opts.well_formed(),
        opts.is_zip is Some,
        opts.export_type@ == "csv"@,
    ensures
        planned(opts, DirectoryStatus::Directory) == Ok::<PlanModel, ExportError>(PlanModel::Nothing),
{
    reveal_strlit("csv");
    reveal_strlit("json");
    assert("csv"@ != "json"@) by {
        assert("csv"@.len() != "json"@.len());
    }
}

} // verus!
