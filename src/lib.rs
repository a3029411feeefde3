//! Export engine: validates an export request, normalizes entry and archive
//! names, plans the writes of the plain-file sink and builds the archive of
//! the archive sink.

pub mod archive;
pub mod error;
pub mod export;
pub mod laws;
pub mod names;

pub use archive::ArchiveSink;
pub use error::ExportError;
pub use export::{
    archive_file_name, build_archive, fill_archive, has_unique_names, normalize_entries, plan_export, DirectoryStatus,
    ExportOptions, ExportPlan,
};
pub use names::{ends_with, normalize_name, same_text};
