//! The remote range reader: accounting and checking around byte-range reads.
//!
//! The read itself is the caller's: the reader is told that a read is about
//! to be issued, and is later handed what came back.

use vstd::prelude::*;
use bytes::Bytes;
use crate::error::{IoFault, ScanError};
use crate::file::{ByteRange, FilePartition};

verus! {

/// `bytes::Bytes`, a shared buffer of bytes.
#[verifier::external_type_specification]
#[verifier::external_body]
pub struct ExBytes(Bytes);

/// The bytes that a buffer holds.
pub uninterp spec fn bytes_content(buffer: Bytes) -> Seq<u8>;

/// `Bytes::len` gives the number of bytes in the buffer.
pub assume_specification[ Bytes::len ](buffer: &Bytes) -> (len: usize)
    ensures
        len == bytes_content(*buffer).len(),
;

/// The file name that the object store sees in a location: the last segment
/// of the path that the location parses to, and nothing where the location
/// is empty or is no path.
pub uninterp spec fn filename_of(location: Seq<char>) -> Option<Seq<char>>;

/// A name as contracts see it.
pub open spec fn name_view(name: Option<String>) -> Option<Seq<char>> {
    match name {
        Some(text) => Some(text@),
        None => None,
    }
}

/// `object_store::path::Path::filename`, on the path that
/// `object_store::path::Path::parse` makes of `location`. The contract only
/// gives the result its name: it is a function of the location alone.
#[verifier::external_body]
fn path_filename(location: &str) -> (name: Option<String>)
    ensures
        name_view(name) == filename_of(location@),
{
    match object_store::path::Path::parse(location) {
        Ok(path) => match path.filename() {
            Some(name) => Some(name.to_string()),
            None => None,
        },
        Err(_) => None,
    }
}

/// The label under which a file without a file name is counted.
pub const DEFAULT_FILENAME: &'static str = "__default_filename__";

/// The label under which a file's reads are counted: its file name, or the
/// default label where it has none.
pub open spec fn metrics_label(filename: Option<Seq<char>>) -> Seq<char> {
    match filename {
        Some(name) => name,
        None => DEFAULT_FILENAME@,
    }
}

/// The label for a file whose name is `filename`.
pub fn label_for(filename: Option<String>) -> (label: String)
    ensures
        label@ == metrics_label(name_view(filename)),
{
    match filename {
        Some(name) => name,
        None => DEFAULT_FILENAME.to_owned(),
    }
}

/// The counter after `len` more bytes: it stops at the largest `usize`.
pub open spec fn counted(scanned: nat, len: nat) -> nat {
    if scanned + len > usize::MAX {
        usize::MAX as nat
    } else {
        scanned + len
    }
}

/// The counter after reads of `lens[0]`, `lens[1]`, ... bytes.
pub open spec fn counted_all(scanned: nat, lens: Seq<nat>) -> nat
    decreases lens.len(),
{
    if lens.len() == 0 {
        scanned
    } else {
        counted(counted_all(scanned, lens.drop_last()), lens.last())
    }
}

/// Sum of `lens`.
pub open spec fn total_len(lens: Seq<nat>) -> nat
    decreases lens.len(),
{
    if lens.len() == 0 {
        0
    } else {
        total_len(lens.drop_last()) + lens.last()
    }
}

/// What a read gave, after checking: the bytes if they are as many as the
/// range asked for, and an external I/O error otherwise.
pub open spec fn checked_read(wanted: nat, outcome: Result<Bytes, String>) -> Result<
    Bytes,
    ScanError,
> {
    match outcome {
        Ok(buffer) => if bytes_content(buffer).len() == wanted {
            Ok(buffer)
        } else {
            Err(
                ScanError::ExternalIo {
                    fault: IoFault::ShortRead {
                        wanted: wanted as usize,
                        got: bytes_content(buffer).len() as usize,
                    },
                },
            )
        },
        Err(message) => Err(ScanError::ExternalIo { fault: IoFault::Unavailable { message } }),
    }
}

/// Mathematical model of a [`ParquetFileReader`].
pub struct ReaderState {
    pub partition_index: usize,
    pub meta: FilePartition,
    pub label: Seq<char>,
    /// The "bytes scanned" counter.
    pub bytes_scanned: nat,
}

/// The reader of one file within one partition.
pub struct ParquetFileReader {
    partition_index: usize,
    meta: FilePartition,
    label: String,
    bytes_scanned: usize,
}

impl View for ParquetFileReader {
    type V = ReaderState;

    closed spec fn view(&self) -> ReaderState {
        ReaderState {
            partition_index: self.partition_index,
            meta: self.meta,
            label: self.label@,
            bytes_scanned: self.bytes_scanned as nat,
        }
    }
}

impl ParquetFileReader {
    /// The file that the reader reads.
    pub fn get_meta(&self) -> (meta: &FilePartition)
        ensures
            *meta == self@.meta,
    {
        &self.meta
    }

    /// Length of the file in bytes.
    pub fn get_size(&self) -> (size: usize)
        ensures
            size == self@.meta.size,
    {
        self.meta.size
    }

    pub fn partition_index(&self) -> (index: usize)
        ensures
            index == self@.partition_index,
    {
        self.partition_index
    }

    /// The label under which the reads are counted.
    pub fn label(&self) -> (label: &String)
        ensures
            label@ == self@.label,
    {
        &self.label
    }

    /// The "bytes scanned" counter.
    pub fn bytes_scanned(&self) -> (scanned: usize)
        ensures
            scanned == self@.bytes_scanned,
    {
        self.bytes_scanned
    }

    /// Counts a read that is about to be issued. The counter grows by the
    /// exact length of the range, before the read and whatever becomes of it.
    /// Returns that length.
    pub fn begin_read(&mut self, range: &ByteRange) -> (len: usize)
        ensures
            len == range.spec_len(),
            final(self)@ == (ReaderState {
                bytes_scanned: counted(old(self)@.bytes_scanned, range.spec_len()),
                ..old(self)@
            }),
    {
        let len = range.len();
        self.bytes_scanned = self.bytes_scanned.saturating_add(len);
        len
    }

    /// Checks what a read of `range` gave. An error of the storage resource
    /// and a read of the wrong length both come out as the one external I/O
    /// error; nothing is retried, and the counter is left alone.
    pub fn finish_read(&self, range: &ByteRange, outcome: Result<Bytes, String>) -> (checked:
        Result<Bytes, ScanError>)
        ensures
            checked == checked_read(range.spec_len(), outcome),
    {
        match outcome {
            Ok(buffer) => {
                let got = buffer.len();
                let wanted = range.len();
                if got == wanted {
                    Ok(buffer)
                } else {
                    Err(ScanError::ExternalIo { fault: IoFault::ShortRead { wanted, got } })
                }
            },
            Err(message) => Err(
                ScanError::ExternalIo { fault: IoFault::Unavailable { message } },
            ),
        }
    }
}

/// Makes the readers of a scan. `P` is the caller's handle to the storage
/// resource, resolved once per scan and shared by all its readers.
pub struct FsReaderFactory<P> {
    fs_provider: P,
}

impl<P> FsReaderFactory<P> {
    pub closed spec fn spec_fs_provider(&self) -> P {
        self.fs_provider
    }

    pub fn new(fs_provider: P) -> (factory: Self)
        ensures
            factory.spec_fs_provider() == fs_provider,
    {
        FsReaderFactory { fs_provider }
    }

    /// The storage resource that the readers read from.
    pub fn fs_provider(&self) -> (fs_provider: &P)
        ensures
            *fs_provider == self.spec_fs_provider(),
    {
        &self.fs_provider
    }

    /// The reader of `file_meta` within the partition `partition_index`. It
    /// has scanned nothing yet, and counts under the file's name.
    pub fn create_reader(&self, partition_index: usize, file_meta: FilePartition) -> (reader:
        ParquetFileReader)
        ensures
            reader@ == (ReaderState {
                partition_index,
                meta: file_meta,
                label: metrics_label(filename_of(file_meta.location@)),
                bytes_scanned: 0,
            }),
    {
        let label = label_for(path_filename(file_meta.location.as_str()));
        ParquetFileReader { partition_index, meta: file_meta, label, bytes_scanned: 0 }
    }
}

/// Byte accounting: after any reads the counter stands at the sum of the
/// lengths of the ranges asked for, as long as that sum fits the counter.
pub proof fn lemma_bytes_scanned_is_sum(lens: Seq<nat>)
    requires
        total_len(lens) <= usize::MAX,
    ensures
        counted_all(0, lens) == total_len(lens),
    decreases lens.len(),
{
    if lens.len() > 0 {
        lemma_bytes_scanned_is_sum(lens.drop_last());
    }
}

/// The "bytes scanned" counter never goes down, and never goes beyond what
/// was asked for.
pub proof fn lemma_bytes_scanned_is_monotone(scanned: nat, lens: Seq<nat>)
    ensures
        scanned <= usize::MAX ==> scanned <= counted_all(scanned, lens),
        counted_all(scanned, lens) <= scanned + total_len(lens),
    decreases lens.len(),
{
    if lens.len() > 0 {
        lemma_bytes_scanned_is_monotone(scanned, lens.drop_last());
    }
}

} // verus!
