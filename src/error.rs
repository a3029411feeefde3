//! The ways an export can fail, and their wire-level codes.
use vstd::prelude::*;

verus! {

/// Why an export failed.
#[derive(Debug)]
pub enum ExportError {
    /// The destination is missing, not a directory, or the archive file
    /// could not be created.
    FileSystemError,
    /// The export type is not one of the recognized ones.
    UnsupportedExportType,
    /// The archive-mode flag was not supplied.
    MissingRequiredOption,
    /// An archive member could not be opened.
    ArchiveWriteError,
    /// The content of an archive member could not be written.
    ArchiveEntryError,
    /// The archive could not be finalized.
    ArchiveFinalizeError,
    /// A plain file could not be written; carries the underlying description.
    Io(String),
}

/// The wire-level code of each error.
pub open spec fn error_code(e: ExportError) -> Seq<char> {
    match e {
        ExportError::FileSystemError => "file-system-error"@,
        ExportError::UnsupportedExportType => "unknown"@,
        ExportError::MissingRequiredOption => "missing-required-option"@,
        ExportError::ArchiveWriteError => "error-writing-zip"@,
        ExportError::ArchiveEntryError => "error-creating-zip"@,
        ExportError::ArchiveFinalizeError => "failed-to-generate-zip"@,
        ExportError::Io(message) => message@,
    }
}

impl ExportError {
    /// The code by which the error is reported to the caller.
    pub fn code(&self) -> (r: String)
        ensures
            r@ == error_code(*self),
    {
        match self {
            ExportError::FileSystemError => "file-system-error".to_owned(),
            ExportError::UnsupportedExportType => "unknown".to_owned(),
            ExportError::MissingRequiredOption => "missing-required-option".to_owned(),
            ExportError::ArchiveWriteError => "error-writing-zip".to_owned(),
            ExportError::ArchiveEntryError => "error-creating-zip".to_owned(),
            ExportError::ArchiveFinalizeError => "failed-to-generate-zip".to_owned(),
            ExportError::Io(message) => message.clone(),
        }
    }
}

} // verus!
