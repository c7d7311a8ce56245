//! Zip archives built in memory with the `zip` crate, every file stored uncompressed.

use std::io::Write;
use vstd::prelude::*;
use vstd::utf8::encode_utf8;

verus! {

/// A zip archive being written into memory. It holds a `zip::ZipWriter`
/// over a `Cursor<Vec<u8>>`, a type whose bounds name std's I/O traits, so the
/// writer is kept private behind this struct and described by the names below.
#[verifier::external_body]
pub struct ExportArchive {
    writer: zip::ZipWriter<std::io::Cursor<Vec<u8>>>,
}

/// A name for the entries of an archive: the names of its files and
/// directories, in the order they were added.
pub uninterp spec fn archive_entry_names(archive: ExportArchive) -> Seq<Seq<char>>;

/// A name for what was written into each entry of an archive, in the order of
/// `archive_entry_names` (a directory holds nothing).
pub uninterp spec fn archive_entry_data(archive: ExportArchive) -> Seq<Seq<u8>>;

/// A name for whether a file of the archive is open, so that writes go into it.
pub uninterp spec fn archive_file_open(archive: ExportArchive) -> bool;

/// A name for the bytes an archive is finished into.
pub uninterp spec fn archive_bytes(archive: ExportArchive) -> Seq<u8>;

/// The most bytes a file without the zip64 ("large file") option can hold:
/// `zip::ZIP64_BYTES_THR`.
pub open spec fn stored_file_limit() -> nat {
    0xffff_ffff
}

/// The most bytes an entry's name can take: its length is stored in 16 bits.
pub open spec fn entry_name_limit() -> nat {
    0xffff
}

/// Whether every entry of an archive holds no more than `stored_file_limit`.
pub open spec fn archive_sizes_fit(archive: ExportArchive) -> bool {
    forall|k: int|
        0 <= k < archive_entry_data(archive).len() ==> #[trigger] archive_entry_data(archive)[k].len()
            <= stored_file_limit()
}

/// `data` with `bytes` appended to its last entry (nothing changes when there is none).
pub open spec fn append_to_last(data: Seq<Seq<u8>>, bytes: Seq<u8>) -> Seq<Seq<u8>> {
    if data.len() == 0 {
        data
    } else {
        data.update(data.len() - 1, data.last() + bytes)
    }
}

impl ExportArchive {
    /// Calls `zip::ZipWriter::new` on an empty in-memory buffer: an archive
    /// with no entries and no open file.
    #[verifier::external_body]
    pub(crate) fn new() -> (a: ExportArchive)
        ensures
            archive_entry_names(a) == Seq::<Seq<char>>::empty(),
            archive_entry_data(a) == Seq::<Seq<u8>>::empty(),
            !archive_file_open(a),
    {
        ExportArchive { writer: zip::ZipWriter::new(std::io::Cursor::new(Vec::new())) }
    }

    /// Calls `ZipWriter::start_file` with `name` and the options of a stored
    /// (uncompressed) file. The crate refuses a name that an entry already has,
    /// and writes into the in-memory buffer otherwise; it panics on a name of
    /// more than `entry_name_limit` bytes. On success the archive has a new,
    /// empty, open last entry `name`. A failure is given as its message.
    #[verifier::external_body]
    pub(crate) fn start_stored_file(&mut self, name: &str) -> (r: Result<(), String>)
        requires
            encode_utf8(name@).len() <= entry_name_limit(),
        ensures
            !archive_entry_names(*old(self)).contains(name@) && archive_sizes_fit(*old(self)) ==> r is Ok,
            r is Ok ==> archive_entry_names(*final(self)) == archive_entry_names(*old(self)).push(name@)
                && archive_entry_data(*final(self)) == archive_entry_data(*old(self)).push(Seq::empty())
                && archive_file_open(*final(self)),
    {
        let options = zip::write::SimpleFileOptions::default().compression_method(
            zip::CompressionMethod::Stored,
        );
        match self.writer.start_file(name, options) {
            Ok(()) => Ok(()),
            Err(e) => Err(e.to_string()),
        }
    }

    /// Calls `ZipWriter::add_directory` with `name` and default options. For a
    /// name that ends in `/` the crate keeps the name as it is, refuses it when
    /// an entry already has it, and panics when it takes more than
    /// `entry_name_limit` bytes. On success the archive has a new last entry
    /// `name` that holds nothing, and no file is open. A failure is given as its message.
    #[verifier::external_body]
    pub(crate) fn add_directory(&mut self, name: &str) -> (r: Result<(), String>)
        requires
            name@.len() > 0,
            name@.last() == '/',
            encode_utf8(name@).len() <= entry_name_limit(),
        ensures
            !archive_entry_names(*old(self)).contains(name@) && archive_sizes_fit(*old(self)) ==> r is Ok,
            r is Ok ==> archive_entry_names(*final(self)) == archive_entry_names(*old(self)).push(name@)
                && archive_entry_data(*final(self)) == archive_entry_data(*old(self)).push(Seq::empty())
                && !archive_file_open(*final(self)),
    {
        match self.writer.add_directory(name, zip::write::SimpleFileOptions::default()) {
            Ok(()) => Ok(()),
            Err(e) => Err(e.to_string()),
        }
    }

    /// Calls `Write::write` on the archive with the UTF-8 bytes of `text`. The
    /// crate refuses it when no file is open or when the open file would grow
    /// past `stored_file_limit`; otherwise it hands the bytes to the in-memory
    /// buffer, which takes them all, and returns their count. The bytes are
    /// appended to the open file. A failure is given as its message.
    #[verifier::external_body]
    pub(crate) fn write(&mut self, text: &str) -> (r: Result<usize, String>)
        ensures
            archive_file_open(*old(self)) && archive_entry_data(*old(self)).last().len() + encode_utf8(text@).len()
                <= stored_file_limit() ==> r is Ok,
            r matches Ok(n) ==> n == encode_utf8(text@).len() && archive_entry_names(*final(self))
                == archive_entry_names(*old(self)) && archive_file_open(*final(self)) == archive_file_open(*old(self))
                && archive_entry_data(*final(self)) == append_to_last(archive_entry_data(*old(self)), encode_utf8(text@)),
    {
        match self.writer.write(text.as_bytes()) {
            Ok(n) => Ok(n),
            Err(e) => Err(e.to_string()),
        }
    }

    /// Calls `Write::write_all` on the archive: writes all of `data` into the
    /// open file. Empty data needs no file; otherwise the crate refuses it when
    /// no file is open or when the open file would grow past
    /// `stored_file_limit`. A failure is given as its message.
    #[verifier::external_body]
    pub(crate) fn write_all(&mut self, data: &[u8]) -> (r: Result<(), String>)
        ensures
            data@.len() == 0 || (archive_file_open(*old(self)) && archive_entry_data(*old(self)).last().len()
                + data@.len() <= stored_file_limit()) ==> r is Ok,
            r is Ok ==> archive_entry_names(*final(self)) == archive_entry_names(*old(self))
                && archive_file_open(*final(self)) == archive_file_open(*old(self))
                && archive_entry_data(*final(self)) == append_to_last(archive_entry_data(*old(self)), data@),
    {
        match self.writer.write_all(data) {
            Ok(()) => Ok(()),
            Err(e) => Err(e.to_string()),
        }
    }

    /// Calls `ZipWriter::finish` and takes the buffer out of the returned
    /// cursor: the bytes of the archive. Over an in-memory buffer it fails only
    /// on a file past `stored_file_limit`; a failure is given as its message.
    #[verifier::external_body]
    pub(crate) fn finish(self) -> (r: Result<Vec<u8>, String>)
        ensures
            archive_sizes_fit(self) ==> r is Ok,
            r matches Ok(bytes) ==> bytes@ == archive_bytes(self),
    {
        match self.writer.finish() {
            Ok(cursor) => Ok(cursor.into_inner()),
            Err(e) => Err(e.to_string()),
        }
    }
}

} // verus!
