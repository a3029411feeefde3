use std::collections::BTreeMap;
use std::io::Cursor;
use std::io::Read;

use data_export::{
    archive_file_name, build_archive, ends_with, fill_archive, has_unique_names, normalize_entries, normalize_name,
    plan_export, same_text, ArchiveSink, DirectoryStatus, ExportError, ExportOptions, ExportPlan,
};

fn entries(pairs: &[(&str, &str)]) -> Vec<(String, String)> {
    pairs.iter().map(|(k, v)| (k.to_string(), v.to_string())).collect()
}

fn options(export_type: &str, is_zip: Option<bool>, zip_name: Option<&str>, data: &[(&str, &str)]) -> ExportOptions {
    ExportOptions {
        export_type: export_type.to_string(),
        export_path: "/tmp/out".to_string(),
        is_zip,
        zip_name: zip_name.map(|n| n.to_string()),
        data: entries(data),
    }
}

/// Carries out plain-file writes on an in-memory directory.
fn apply_files(dir: &mut BTreeMap<String, String>, files: &[(String, String)]) {
    for (name, content) in files {
        dir.insert(name.clone(), content.clone());
    }
}

/// Reads every member of an archive back: name, content, unix mode.
fn read_archive(bytes: Vec<u8>) -> Vec<(String, String, Option<u32>, zip::CompressionMethod)> {
    let mut archive = zip::ZipArchive::new(Cursor::new(bytes)).expect("archive reads back");
    let mut out = Vec::new();
    for i in 0..archive.len() {
        let mut member = archive.by_index(i).expect("member reads back");
        let mut content = String::new();
        member.read_to_string(&mut content).expect("content decompresses");
        out.push((member.name().to_string(), content, member.unix_mode(), member.compression()));
    }
    out
}

#[test]
fn normalize_appends_missing_suffix() {
    assert_eq!(normalize_name("a", ".json"), "a.json");
    assert_eq!(normalize_name("bundle", ".zip"), "bundle.zip");
    assert_eq!(normalize_name("", ".json"), ".json");
    assert_eq!(normalize_name("a.json.txt", ".json"), "a.json.txt.json");
}

#[test]
fn normalize_keeps_present_suffix() {
    assert_eq!(normalize_name("a.json", ".json"), "a.json");
    assert_eq!(normalize_name(".json", ".json"), ".json");
    assert_eq!(normalize_name("bundle.zip", ".zip"), "bundle.zip");
    assert_eq!(normalize_name("données.json", ".json"), "données.json");
}

#[test]
fn normalize_leaves_path_separators() {
    assert_eq!(normalize_name("../escape", ".json"), "../escape.json");
}

#[test]
fn suffix_and_equality_checks() {
    assert!(ends_with("report.json", ".json"));
    assert!(!ends_with("json", ".json"));
    assert!(ends_with("anything", ""));
    assert!(ends_with("é.json", ".json"));
    assert!(!ends_with("a.jsom", ".json"));
    assert!(same_text("json", "json"));
    assert!(!same_text("json", "csv"));
    assert!(!same_text("json", "json5"));
    assert!(!same_text("xjson", "json"));
}

#[test]
fn archive_name_defaults_to_export() {
    assert_eq!(archive_file_name(&None), "export.zip");
    assert_eq!(archive_file_name(&Some("bundle".to_string())), "bundle.zip");
    assert_eq!(archive_file_name(&Some("bundle.zip".to_string())), "bundle.zip");
}

#[test]
fn normalize_entries_keeps_contents_and_order() {
    let out = normalize_entries(&entries(&[("b", "2"), ("a.json", "1")]), ".json");
    assert_eq!(out, entries(&[("b.json", "2"), ("a.json", "1")]));
}

#[test]
fn plain_json_example() {
    let opts = options("json", Some(false), None, &[("a", "1"), ("b", "2")]);
    match plan_export(&opts, DirectoryStatus::Directory) {
        Ok(ExportPlan::Files(files)) => {
            let mut dir = BTreeMap::new();
            apply_files(&mut dir, &files);
            assert_eq!(dir.len(), 2);
            assert_eq!(dir.get("a.json").map(|s| s.as_str()), Some("1"));
            assert_eq!(dir.get("b.json").map(|s| s.as_str()), Some("2"));
        }
        other => panic!("unexpected plan {:?}", other),
    }
}

#[test]
fn plain_export_leaves_other_files() {
    let opts = options("json", Some(false), None, &[("a", "new"), ("c.json", "3")]);
    let mut dir = BTreeMap::new();
    dir.insert("a.json".to_string(), "old".to_string());
    dir.insert("keep.txt".to_string(), "k".to_string());
    match plan_export(&opts, DirectoryStatus::Directory) {
        Ok(ExportPlan::Files(files)) => apply_files(&mut dir, &files),
        other => panic!("unexpected plan {:?}", other),
    }
    assert_eq!(dir.len(), 3);
    assert_eq!(dir["a.json"], "new");
    assert_eq!(dir["c.json"], "3");
    assert_eq!(dir["keep.txt"], "k");
}

#[test]
fn plain_export_twice_is_the_same() {
    let opts = options("json", Some(false), None, &[("a", "1"), ("b.json", "2")]);
    let files = match plan_export(&opts, DirectoryStatus::Directory) {
        Ok(ExportPlan::Files(files)) => files,
        other => panic!("unexpected plan {:?}", other),
    };
    let mut once = BTreeMap::new();
    apply_files(&mut once, &files);
    let mut twice = once.clone();
    let again = match plan_export(&opts, DirectoryStatus::Directory) {
        Ok(ExportPlan::Files(files)) => files,
        other => panic!("unexpected plan {:?}", other),
    };
    apply_files(&mut twice, &again);
    assert_eq!(once, twice);
}

#[test]
fn archive_json_example() {
    let opts = options("json", Some(true), Some("bundle"), &[("a", "1"), ("b", "2")]);
    match plan_export(&opts, DirectoryStatus::Directory) {
        Ok(ExportPlan::Archive { file_name, entries: members }) => {
            assert_eq!(file_name, "bundle.zip");
            assert_eq!(members, entries(&[("a.json", "1"), ("b.json", "2")]));
            let read = read_archive(build_archive(&members).expect("archive is built"));
            assert_eq!(read.len(), 2);
            assert_eq!((read[0].0.as_str(), read[0].1.as_str()), ("a.json", "1"));
            assert_eq!((read[1].0.as_str(), read[1].1.as_str()), ("b.json", "2"));
        }
        other => panic!("unexpected plan {:?}", other),
    }
}

#[test]
fn archive_default_name() {
    let opts = options("json", Some(true), None, &[("a", "1")]);
    match plan_export(&opts, DirectoryStatus::Directory) {
        Ok(ExportPlan::Archive { file_name, .. }) => assert_eq!(file_name, "export.zip"),
        other => panic!("unexpected plan {:?}", other),
    }
}

#[test]
fn archive_round_trip_is_byte_identical() {
    let values = [("x", "{\"k\": [1, 2]}"), ("ü", "naïve — ✓\nline two"), ("empty", "")];
    let opts = options("json", Some(true), Some("rt"), &values);
    let members = match plan_export(&opts, DirectoryStatus::Directory) {
        Ok(ExportPlan::Archive { entries, .. }) => entries,
        other => panic!("unexpected plan {:?}", other),
    };
    let read = read_archive(build_archive(&members).expect("archive is built"));
    assert_eq!(read.len(), values.len());
    for (i, (name, content)) in values.iter().enumerate() {
        assert_eq!(read[i].0, format!("{}.json", name));
        assert_eq!(read[i].1.as_bytes(), content.as_bytes());
    }
}

#[test]
fn archive_members_are_zstd_with_permissions() {
    let read = read_archive(build_archive(&entries(&[("a.json", "1")])).expect("archive is built"));
    assert_eq!(read.len(), 1);
    assert_eq!(read[0].2.map(|m| m & 0o777), Some(0o755));
    assert_eq!(read[0].3, zip::CompressionMethod::Zstd);
}

#[test]
fn empty_payload_archive() {
    let read = read_archive(build_archive(&Vec::new()).expect("archive is built"));
    assert!(read.is_empty());
}

#[test]
fn archive_sink_in_steps() {
    let mut sink = ArchiveSink::new();
    assert!(sink.add_entry("one.json", "first").is_ok());
    assert!(sink.add_entry("two.json", "second").is_ok());
    let read = read_archive(sink.finish().expect("archive is finalized"));
    assert_eq!(read.len(), 2);
    assert_eq!((read[0].0.as_str(), read[0].1.as_str()), ("one.json", "first"));
    assert_eq!((read[1].0.as_str(), read[1].1.as_str()), ("two.json", "second"));
}

#[test]
fn fill_archive_then_finish() {
    let sink = fill_archive(&entries(&[("k.json", "v")])).expect("members are written");
    let read = read_archive(sink.finish().expect("archive is finalized"));
    assert_eq!((read[0].0.as_str(), read[0].1.as_str()), ("k.json", "v"));
}

#[test]
fn invalid_destination_is_rejected() {
    for status in [DirectoryStatus::Missing, DirectoryStatus::NotDirectory, DirectoryStatus::Undetermined] {
        for is_zip in [Some(true), Some(false), None] {
            let opts = options("json", is_zip, None, &[("a", "1")]);
            assert!(matches!(plan_export(&opts, status), Err(ExportError::FileSystemError)));
        }
        let opts = options("xml", Some(false), None, &[]);
        assert!(matches!(plan_export(&opts, status), Err(ExportError::FileSystemError)));
    }
}

#[test]
fn unrecognized_type_is_rejected() {
    for is_zip in [true, false] {
        let opts = options("xml", Some(is_zip), None, &[("a", "1")]);
        assert!(matches!(
            plan_export(&opts, DirectoryStatus::Directory),
            Err(ExportError::UnsupportedExportType)
        ));
    }
    let opts = options("JSON", Some(false), None, &[("a", "1")]);
    assert!(matches!(
        plan_export(&opts, DirectoryStatus::Directory),
        Err(ExportError::UnsupportedExportType)
    ));
}

#[test]
fn csv_plans_nothing() {
    for is_zip in [true, false] {
        let opts = options("csv", Some(is_zip), Some("bundle"), &[("a", "1")]);
        assert!(matches!(plan_export(&opts, DirectoryStatus::Directory), Ok(ExportPlan::Nothing)));
    }
}

#[test]
fn missing_archive_flag_is_rejected() {
    for export_type in ["json", "csv", "xml"] {
        let opts = options(export_type, None, None, &[("a", "1")]);
        assert!(matches!(
            plan_export(&opts, DirectoryStatus::Directory),
            Err(ExportError::MissingRequiredOption)
        ));
    }
}

#[test]
fn error_codes() {
    assert_eq!(ExportError::FileSystemError.code(), "file-system-error");
    assert_eq!(ExportError::UnsupportedExportType.code(), "unknown");
    assert_eq!(ExportError::MissingRequiredOption.code(), "missing-required-option");
    assert_eq!(ExportError::ArchiveWriteError.code(), "error-writing-zip");
    assert_eq!(ExportError::ArchiveEntryError.code(), "error-creating-zip");
    assert_eq!(ExportError::ArchiveFinalizeError.code(), "failed-to-generate-zip");
    assert_eq!(ExportError::Io("Permission denied (os error 13)".to_string()).code(), "Permission denied (os error 13)");
}

#[test]
fn archive_sink_open_then_write() {
    let mut sink = ArchiveSink::new();
    assert!(sink.open_entry("split.json").is_ok());
    assert!(sink.write_content("part one, ").is_ok());
    assert!(sink.write_content("part two").is_ok());
    assert!(sink.open_entry("empty.json").is_ok());
    let read = read_archive(sink.finish().expect("archive is finalized"));
    assert_eq!(read.len(), 2);
    assert_eq!((read[0].0.as_str(), read[0].1.as_str()), ("split.json", "part one, part two"));
    assert_eq!((read[1].0.as_str(), read[1].1.as_str()), ("empty.json", ""));
}

#[test]
fn unique_names_check() {
    assert!(has_unique_names(&entries(&[])));
    assert!(has_unique_names(&entries(&[("a", "1"), ("a.json", "2"), ("b", "1")])));
    assert!(!has_unique_names(&entries(&[("a", "1"), ("b", "2"), ("a", "3")])));
}
