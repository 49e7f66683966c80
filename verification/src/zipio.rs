//! The trusted boundary to the `zip` crate: an in-memory zip writer,
//! modelled by the sequence of entries (name, content) it has been
//! given so far.
//!
//! The wrappers pin every option that could vary between runs: entries
//! are stored uncompressed, the timestamp is the format's fixed default
//! (the `time` feature is off), and the platform tag is pinned to Unix.
//! The finished byte stream is therefore a function of the entry
//! sequence alone, named [`zip_bytes_of`].

use vstd::prelude::*;
use vstd::string::StringSliceAdditionalSpecFns;
use std::io::Cursor;
use std::io::Write;

verus! {

#[verifier::external_type_specification]
#[verifier::external_body]
pub struct ExZipError(zip::result::ZipError);

/// An in-progress in-memory archive. The single private field is the
/// `zip` crate's writer over an in-memory buffer; Verus sees the struct
/// only through the names and wrappers below.
#[verifier::external_body]
pub struct ArchiveWriter {
    inner: zip::ZipWriter<Cursor<Vec<u8>>>,
}

/// The entries handed to the writer so far, in order: each is a name
/// and the content bytes written for it. The entry started last may
/// still be receiving content.
pub uninterp spec fn zip_entries(w: ArchiveWriter) -> Seq<(Seq<char>, Seq<u8>)>;

/// Whether an entry has been started and still accepts content bytes.
pub uninterp spec fn zip_entry_open(w: ArchiveWriter) -> bool;

/// Whether the writer came from [`zip_writer_new`] and was operated
/// since only by successful calls of the wrappers below, so that no
/// other state (a comment, other options, an aborted entry) can
/// influence whether finishing succeeds or what bytes it yields.
pub uninterp spec fn zip_writer_plain(w: ArchiveWriter) -> bool;

/// The finished archive's bytes for a given entry sequence, with the
/// fixed options this module pins.
pub uninterp spec fn zip_bytes_of(entries: Seq<(Seq<char>, Seq<u8>)>) -> Seq<u8>;

/// Relies on `zip::ZipWriter::new`: a writer over a fresh in-memory
/// buffer holds no entries and no entry is open.
#[verifier::external_body]
pub(crate) fn zip_writer_new() -> (w: ArchiveWriter)
    ensures
        zip_entries(w) == Seq::<(Seq<char>, Seq<u8>)>::empty(),
        !zip_entry_open(w),
        zip_writer_plain(w),
{
    ArchiveWriter { inner: zip::ZipWriter::new(Cursor::new(Vec::new())) }
}

/// Relies on `zip::ZipWriter::start_file`: on success the archive has
/// gained exactly one entry, named `name` and empty so far, and content
/// written next goes to that entry. A previously open entry is closed
/// with the content it already has. On a plain writer over the
/// in-memory buffer its only failure sources are a name already in the
/// archive and a name whose encoding overflows the format's 16-bit
/// length field, so with a fresh, short enough name it succeeds.
#[verifier::external_body]
pub(crate) fn zip_start_entry(w: &mut ArchiveWriter, name: &str) -> (r: Result<
    (),
    zip::result::ZipError,
>)
    ensures
        r is Ok ==> {
            &&& zip_entries(*final(w)) == zip_entries(*old(w)).push((name@, Seq::<u8>::empty()))
            &&& zip_entry_open(*final(w))
            &&& zip_writer_plain(*old(w)) ==> zip_writer_plain(*final(w))
        },
        ({
            &&& zip_writer_plain(*old(w))
            &&& forall|j: int|
                0 <= j < zip_entries(*old(w)).len() ==> zip_entries(*old(w))[j].0 != name@
            &&& name.spec_bytes().len() <= 65535
        }) ==> r is Ok,
{
    let options: zip::write::SimpleFileOptions = zip::write::SimpleFileOptions::default()
        .compression_method(zip::CompressionMethod::Stored)
        .system(zip::System::Unix);
    w.inner.start_file(name, options)
}

/// Relies on the `Write` impl of `zip::ZipWriter` (`write_all`): bytes
/// written after `start_file` are appended, in order, to the content of
/// the entry started last. On a plain writer over the in-memory buffer
/// its only failure source is an entry growing past the 32-bit size
/// threshold (the large-file option is not set), so below that bound
/// it succeeds.
#[verifier::external_body]
pub(crate) fn zip_write_data(w: &mut ArchiveWriter, data: &[u8]) -> (r: Result<
    (),
    zip::result::ZipError,
>)
    requires
        zip_entry_open(*old(w)),
        zip_entries(*old(w)).len() > 0,
    ensures
        r is Ok ==> {
            &&& zip_entries(*final(w)) == zip_entries(*old(w)).update(
                zip_entries(*old(w)).len() - 1,
                (zip_entries(*old(w)).last().0, zip_entries(*old(w)).last().1 + data@),
            )
            &&& zip_entry_open(*final(w))
            &&& zip_writer_plain(*old(w)) ==> zip_writer_plain(*final(w))
        },
        ({
            &&& zip_writer_plain(*old(w))
            &&& zip_entries(*old(w)).last().1.len() + data@.len() <= 0xFFFF_FFFF
        }) ==> r is Ok,
{
    w.inner.write_all(data).map_err(zip::result::ZipError::from)
}

/// Relies on `zip::ZipWriter::finish`: it closes the last entry, writes
/// the archive's central directory and hands back the underlying
/// buffer. With the options pinned above, those bytes depend on the
/// entry sequence alone. On a plain writer every write and seek goes to
/// the in-memory buffer and every length field is within range (the
/// wrappers above enforced the limits), so it cannot fail.
#[verifier::external_body]
pub(crate) fn zip_finish(w: ArchiveWriter) -> (r: Result<
    Vec<u8>,
    zip::result::ZipError,
>)
    ensures
        r matches Ok(bytes) ==> zip_writer_plain(w) ==> bytes@ == zip_bytes_of(zip_entries(w)),
        zip_writer_plain(w) ==> r is Ok,
{
    match w.inner.finish() {
        Ok(cursor) => Ok(cursor.into_inner()),
        Err(e) => Err(e),
    }
}

/// Relies on `zip::result::ZipError`'s `Display` impl: a description of
/// the failure, carried into the library's own error type.
#[verifier::external_body]
pub(crate) fn zip_error_message(e: &zip::result::ZipError) -> String {
    e.to_string()
}

} // verus!
