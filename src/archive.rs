//! The archive sink: entries become members of one zstd-compressed zip
//! archive, built in memory by the `zip` crate.
use std::io::Cursor;
use std::io::Write;
use vstd::prelude::*;
use vstd::utf8::encode_utf8;
use zip::result::ZipError;
use zip::write::FileOptions;
use zip::CompressionMethod;
use zip::ZipWriter;

use crate::error::ExportError;

verus! {

/// A zip writer whose archive goes into an in-memory buffer.
#[verifier::external_body]
pub struct ZipBuffer {
    writer: ZipWriter<Cursor<Vec<u8>>>,
}

#[verifier::external_type_specification]
#[verifier::external_body]
pub struct ExFileOptions(FileOptions);

#[verifier::external_type_specification]
#[verifier::external_body]
pub struct ExCompressionMethod(CompressionMethod);

#[verifier::external_type_specification]
#[verifier::external_body]
pub struct ExZipError(ZipError);

#[verifier::external_type_specification]
#[verifier::external_body]
pub struct ExIoError(std::io::Error);

/// The members written into an archive writer so far, in order: each one's
/// name and its uncompressed content.
pub uninterp spec fn archive_members(w: ZipBuffer) -> Seq<(Seq<char>, Seq<u8>)>;

/// The writer is not closed, and once a member was started it is writing
/// that member's content.
pub uninterp spec fn writer_open(w: ZipBuffer) -> bool;

/// The members, name and uncompressed content in order, that a zip reader
/// reads back from the bytes of an archive.
pub uninterp spec fn zip_contents(bytes: Seq<u8>) -> Seq<(Seq<char>, Seq<u8>)>;

/// The largest content of one member, in bytes, that this library writes:
/// well under the `u32::MAX` bytes past which a member needs the zip64
/// option, with room for the growth that compression may cause.
pub const MEMBER_SIZE_LIMIT: u64 = 0x7fff_ffff;

/// Member names whose UTF-8 form is at least this long do not fit a header.
pub const NAME_SIZE_BOUND: u64 = 0x1_0000;

/// The member started last, if any, is within `MEMBER_SIZE_LIMIT`.
pub open spec fn last_member_fits(members: Seq<(Seq<char>, Seq<u8>)>) -> bool {
    members.len() > 0 ==> members.last().1.len() <= MEMBER_SIZE_LIMIT
}

/// Every member's name fits a zip header.
pub open spec fn names_fit(members: Seq<(Seq<char>, Seq<u8>)>) -> bool {
    forall|i: int| 0 <= i < members.len() ==> #[trigger] encode_utf8(members[i].0).len() < NAME_SIZE_BOUND
}

/// Every entry's content, in UTF-8, is within `MEMBER_SIZE_LIMIT`.
pub open spec fn contents_fit(entries: Seq<(Seq<char>, Seq<char>)>) -> bool {
    forall|i: int| 0 <= i < entries.len() ==> #[trigger] encode_utf8(entries[i].1).len() <= MEMBER_SIZE_LIMIT
}

/// Relies on `ZipWriter::new` over an empty in-memory buffer: an open
/// writer that holds no member yet.
#[verifier::external_body]
fn new_writer() -> (w: ZipBuffer)
    ensures
        archive_members(w) == Seq::<(Seq<char>, Seq<u8>)>::empty(),
        writer_open(w),
{
    ZipBuffer { writer: ZipWriter::new(Cursor::new(Vec::new())) }
}

/// Relies on `CompressionMethod::Zstd`, the zstd compression method.
#[verifier::external_body]
fn zstd_method() -> CompressionMethod {
    CompressionMethod::Zstd
}

/// Relies on `FileOptions::default`: the options of a member before any setting.
pub assume_specification[ <FileOptions as core::default::Default>::default ]() -> FileOptions;

/// Relies on `FileOptions::compression_method`: the options with that method set.
pub assume_specification[ FileOptions::compression_method ](
    options: FileOptions,
    method: CompressionMethod,
) -> FileOptions;

/// Relies on `FileOptions::unix_permissions`: the options with those permission bits set.
pub assume_specification[ FileOptions::unix_permissions ](options: FileOptions, mode: u32) -> FileOptions;

/// Relies on `ZipWriter::start_file`: it closes the member started last,
/// which fails only on a closed writer or a member too large without the
/// zip64 option; on success a new, empty member under `name` follows those
/// already written.
#[verifier::external_body]
fn start_member(w: &mut ZipBuffer, name: &str, options: FileOptions) -> (r: Result<(), ZipError>)
    ensures
        writer_open(*old(w)) && last_member_fits(archive_members(*old(w))) ==> r is Ok,
        r is Ok ==> archive_members(*final(w)) == archive_members(*old(w)).push(
            (name@, Seq::<u8>::empty()),
        ),
        r is Ok ==> writer_open(*final(w)),
{
    w.writer.start_file(name, options)
}

/// Relies on `io::Write::write_all` of `ZipWriter`: it fails only on a
/// closed writer or a member past `u32::MAX` bytes; on success the bytes
/// extend the content of the member started last.
#[verifier::external_body]
fn write_member(w: &mut ZipBuffer, bytes: &[u8]) -> (r: Result<(), std::io::Error>)
    requires
        archive_members(*old(w)).len() > 0,
    ensures
        writer_open(*old(w)) && archive_members(*old(w)).last().1.len() + bytes@.len()
            <= MEMBER_SIZE_LIMIT ==> r is Ok,
        r is Ok ==> archive_members(*final(w)) == extend_last(archive_members(*old(w)), bytes@),
        r is Ok ==> writer_open(*final(w)),
{
    w.writer.write_all(bytes)
}

/// Relies on `ZipWriter::finish`, then `Cursor::into_inner`: it closes the
/// member started last, which fails only on a closed writer or a member too
/// large without the zip64 option, and writes the central directory. A
/// reader reads the members back from the bytes, as long as each name fits
/// the 16-bit length of a header.
#[verifier::external_body]
fn finish_writer(w: ZipBuffer) -> (r: Result<Vec<u8>, ZipError>)
    ensures
        writer_open(w) && last_member_fits(archive_members(w)) ==> r is Ok,
        r matches Ok(b) ==> (names_fit(archive_members(w)) ==> zip_contents(b@) == archive_members(w)),
{
    let mut w = w.writer;
    w.finish().map(|c| c.into_inner())
}

/// `members` with `bytes` appended to the content of its last member.
pub open spec fn extend_last(members: Seq<(Seq<char>, Seq<u8>)>, bytes: Seq<u8>) -> Seq<(Seq<char>, Seq<u8>)>
    recommends
        members.len() > 0,
{
    members.update(members.len() - 1, (members.last().0, members.last().1 + bytes))
}

/// The members that an archive of `entries` holds: each entry's name, with
/// the UTF-8 bytes of its content.
pub open spec fn member_view(entries: Seq<(Seq<char>, Seq<char>)>) -> Seq<(Seq<char>, Seq<u8>)> {
    entries.map_values(|e: (Seq<char>, Seq<char>)| (e.0, encode_utf8(e.1)))
}

/// Unix permission bits of every member: owner rwx, group and others rx.
pub const MEMBER_PERMISSIONS: u32 = 0o755;

/// An archive under construction.
pub struct ArchiveSink {
    writer: ZipBuffer,
    options: FileOptions,
}

impl ArchiveSink {
    /// The members added so far, in order.
    pub closed spec fn members(&self) -> Seq<(Seq<char>, Seq<u8>)> {
        archive_members(self.writer)
    }

    /// No step has failed: the archive still takes members.
    pub closed spec fn is_open(&self) -> bool {
        writer_open(self.writer)
    }

    /// An empty archive whose members will be zstd-compressed with the
    /// permissions `MEMBER_PERMISSIONS`.
    pub fn new() -> (s: ArchiveSink)
        ensures
            s.members() == Seq::<(Seq<char>, Seq<u8>)>::empty(),
            s.is_open(),
    {
        let options = FileOptions::default().compression_method(zstd_method()).unix_permissions(
            MEMBER_PERMISSIONS,
        );
        ArchiveSink { writer: new_writer(), options }
    }

    /// Opens a new, empty member `name`; failing, `ArchiveWriteError`.
    pub fn open_entry(&mut self, name: &str) -> (r: Result<(), ExportError>)
        ensures
            old(self).is_open() && last_member_fits(old(self).members()) ==> r is Ok,
            r is Ok ==> final(self).members() == old(self).members().push((name@, Seq::<u8>::empty())),
            r is Ok ==> final(self).is_open(),
            r matches Err(e) ==> e is ArchiveWriteError,
    {
        let opts = self.options;
        match start_member(&mut self.writer, name, opts) {
            Ok(()) => Ok(()),
            Err(_) => Err(ExportError::ArchiveWriteError),
        }
    }

    /// Writes the UTF-8 bytes of `content` into the member opened last;
    /// failing, `ArchiveEntryError`.
    pub fn write_content(&mut self, content: &str) -> (r: Result<(), ExportError>)
        requires
            old(self).members().len() > 0,
        ensures
            old(self).is_open() && old(self).members().last().1.len() + encode_utf8(content@).len()
                <= MEMBER_SIZE_LIMIT ==> r is Ok,
            r is Ok ==> final(self).members() == extend_last(old(self).members(), encode_utf8(content@)),
            r is Ok ==> final(self).is_open(),
            r matches Err(e) ==> e is ArchiveEntryError,
    {
        let bytes = content.as_bytes();
        match write_member(&mut self.writer, bytes) {
            Ok(()) => Ok(()),
            Err(_) => Err(ExportError::ArchiveEntryError),
        }
    }

    /// Adds a member `name` holding the UTF-8 bytes of `content`: first
    /// `open_entry`, then `write_content`.
    pub fn add_entry(&mut self, name: &str, content: &str) -> (r: Result<(), ExportError>)
        ensures
            old(self).is_open() && last_member_fits(old(self).members()) && encode_utf8(content@).len()
                <= MEMBER_SIZE_LIMIT ==> r is Ok,
            r is Ok ==> final(self).members() == old(self).members().push(
                (name@, encode_utf8(content@)),
            ),
            r is Ok ==> final(self).is_open(),
            r matches Err(e) ==> e is ArchiveWriteError || e is ArchiveEntryError,
    {
        self.open_entry(name)?;
        let r = self.write_content(content);
        proof {
            let m = old(self).members().push((name@, encode_utf8(content@)));
            if r is Ok {
                assert(self.members() =~= m);
            }
        }
        r
    }

    /// Closes the archive and hands back its bytes, from which a reader
    /// reads back the members added; a failure to finalize is
    /// `ArchiveFinalizeError`.
    pub fn finish(self) -> (r: Result<Vec<u8>, ExportError>)
        ensures
            self.is_open() && last_member_fits(self.members()) ==> r is Ok,
            r matches Ok(b) ==> (names_fit(self.members()) ==> zip_contents(b@) == self.members()),
            r matches Err(e) ==> e is ArchiveFinalizeError,
    {
        match finish_writer(self.writer) {
            Ok(bytes) => Ok(bytes),
            Err(_) => Err(ExportError::ArchiveFinalizeError),
        }
    }
}

} // verus!
