//! The archive encoder: named byte blobs in, one deflate-compressed
//! archive blob out. The encoding itself is the `zip` crate's work,
//! reached through trusted wrappers; everything around the calls — entry
//! order, entry names, error propagation — is verified. Entries are
//! written, and therefore enumerated by any reader, in ascending index
//! order, which makes the archive contents reproducible.

use vstd::prelude::*;
use crate::names::{dec_digits, entry_name, entry_name_spec, image_prefix, jpg_suffix};

verus! {

/// Errors of the archive encoder, mirroring the archive crate's failure
/// points without carrying its types.
#[derive(Clone, Copy, Debug, PartialEq, Eq)]
pub enum ArchiveError {
    /// Opening a new entry failed.
    EntryOpen,
    /// Writing an entry's bytes failed.
    EntryWrite,
    /// Closing the archive failed.
    Finish,
}

/// An archive being written in memory.
#[verifier::external_body]
pub struct ArchiveBuilder {
    inner: zip::ZipWriter<std::io::Cursor<Vec<u8>>>,
}

/// What a builder holds: the entries written so far, each a name paired
/// with its bytes, in writing order.
pub uninterp spec fn archive_entries(b: ArchiveBuilder) -> Seq<(Seq<u8>, Seq<u8>)>;

/// What the encoder produces for given entries. The options and the
/// entry timestamp are fixed, so the encoding is a function of the
/// entries alone.
pub uninterp spec fn archive_encoding(entries: Seq<(Seq<u8>, Seq<u8>)>) -> Seq<u8>;

impl ArchiveBuilder {
    /// Relies on `zip::ZipWriter::new` over an in-memory cursor: a fresh
    /// archive holds no entries.
    #[verifier::external_body]
    pub(crate) fn new() -> (r: ArchiveBuilder)
        ensures
            archive_entries(r) == Seq::<(Seq<u8>, Seq<u8>)>::empty(),
    {
        ArchiveBuilder { inner: zip::ZipWriter::new(std::io::Cursor::new(Vec::new())) }
    }

    /// Relies on `zip::ZipWriter::start_file` with fixed options — deflate
    /// compression, unix permissions `0o755`, the format's constant default
    /// timestamp: on success a new, empty entry is open under `name`. The
    /// name is ASCII by precondition, so the UTF-8 view of its bytes cannot
    /// fail (a non-UTF-8 name would fall back to an empty name rather than
    /// panic).
    #[verifier::external_body]
    pub(crate) fn start_entry(&mut self, name: &Vec<u8>) -> (r: Result<(), ArchiveError>)
        requires
            forall|i: int| 0 <= i < name@.len() ==> name@[i] < 128,
        ensures
            r is Ok ==> archive_entries(*final(self)) == archive_entries(*old(self)).push(
                (name@, Seq::<u8>::empty()),
            ),
    {
        let options = zip::write::SimpleFileOptions::default().compression_method(
            zip::CompressionMethod::Deflated,
        ).unix_permissions(0o755);
        match self.inner.start_file(core::str::from_utf8(name).unwrap_or(""), options) {
            Ok(()) => Ok(()),
            Err(_) => Err(ArchiveError::EntryOpen),
        }
    }

    /// Relies on `std::io::Write::write_all` on the zip writer: on success
    /// the bytes are appended to the entry opened last.
    #[verifier::external_body]
    pub(crate) fn append_bytes(&mut self, data: &Vec<u8>) -> (r: Result<(), ArchiveError>)
        requires
            archive_entries(*old(self)).len() > 0,
        ensures
            r is Ok ==> archive_entries(*final(self)) == archive_entries(*old(self)).update(
                archive_entries(*old(self)).len() - 1,
                (
                    archive_entries(*old(self)).last().0,
                    archive_entries(*old(self)).last().1 + data@,
                ),
            ),
    {
        match std::io::Write::write_all(&mut self.inner, data.as_slice()) {
            Ok(()) => Ok(()),
            Err(_) => Err(ArchiveError::EntryWrite),
        }
    }

    /// Relies on `zip::ZipWriter::finish`: on success the archive is closed
    /// and its encoded bytes handed back.
    #[verifier::external_body]
    pub(crate) fn finish(self) -> (r: Result<Vec<u8>, ArchiveError>)
        ensures
            r matches Ok(bytes) ==> bytes@ == archive_encoding(archive_entries(self)),
    {
        match self.inner.finish() {
            Ok(cursor) => Ok(cursor.into_inner()),
            Err(_) => Err(ArchiveError::Finish),
        }
    }
}

/// The entries a blob list produces: blob `k` under the name
/// `image_<k + 1>.jpg`, in original order.
pub open spec fn entries_of(blobs: Seq<Seq<u8>>) -> Seq<(Seq<u8>, Seq<u8>)> {
    Seq::new(blobs.len(), |i: int| (entry_name_spec(i), blobs[i]))
}

/// Every decimal digit byte is ASCII.
proof fn lemma_dec_digits_ascii(n: nat)
    ensures
        forall|i: int| 0 <= i < dec_digits(n).len() ==> #[trigger] dec_digits(n)[i] < 128,
    decreases n,
{
    if n >= 10 {
        lemma_dec_digits_ascii(n / 10);
        let d = dec_digits(n / 10);
        assert forall|i: int| 0 <= i < dec_digits(n).len() implies #[trigger] dec_digits(n)[i]
            < 128 by {
            if i < d.len() {
                assert(dec_digits(n)[i] == d[i]);
            } else {
                assert(dec_digits(n)[i] == (48 + n % 10) as u8);
            }
        }
    }
}

/// Every byte of an entry name is ASCII.
proof fn lemma_entry_name_ascii(i: int)
    requires
        i >= 0,
    ensures
        forall|k: int| 0 <= k < entry_name_spec(i).len() ==> #[trigger] entry_name_spec(i)[k]
            < 128,
{
    lemma_dec_digits_ascii((i + 1) as nat);
    assert forall|k: int| 0 <= k < entry_name_spec(i).len() implies #[trigger] entry_name_spec(
        i,
    )[k] < 128 by {
        let p = image_prefix();
        let d = dec_digits((i + 1) as nat);
        let s = jpg_suffix();
        if k < p.len() {
            assert(entry_name_spec(i)[k] == p[k]);
        } else if k < p.len() + d.len() {
            assert(entry_name_spec(i)[k] == d[k - p.len()]);
        } else {
            assert(entry_name_spec(i)[k] == s[k - p.len() - d.len()]);
        }
    }
}

/// Packs the fetched blobs, in fetch-index order, into one archive blob;
/// the result is the fixed encoding of exactly those entries.
pub fn build_archive(blobs: &Vec<Vec<u8>>) -> (r: Result<Vec<u8>, ArchiveError>)
    ensures
        r matches Ok(bytes) ==> bytes@ == archive_encoding(
            entries_of(blobs@.map_values(|b: Vec<u8>| b@)),
        ),
{
    let ghost bs = blobs@.map_values(|b: Vec<u8>| b@);
    let mut w = ArchiveBuilder::new();
    let mut i: usize = 0;
    while i < blobs.len()
        invariant
            0 <= i <= blobs.len(),
            bs == blobs@.map_values(|b: Vec<u8>| b@),
            bs.len() == blobs.len(),
            archive_entries(w) == entries_of(bs.take(i as int)),
        decreases blobs.len() - i,
    {
        let name = entry_name(i);
        proof {
            lemma_entry_name_ascii(i as int);
        }
        let ghost before = archive_entries(w);
        match w.start_entry(&name) {
            Ok(_) => {},
            Err(e) => {
                return Err(e);
            },
        }
        match w.append_bytes(&blobs[i]) {
            Ok(_) => {},
            Err(e) => {
                return Err(e);
            },
        }
        proof {
            assert(Seq::<u8>::empty() + bs[i as int] =~= bs[i as int]);
            assert(archive_entries(w) =~= entries_of(bs.take(i + 1)));
        }
        i = i + 1;
    }
    proof {
        assert(bs.take(blobs.len() as int) =~= bs);
    }
    w.finish()
}

} // verus!
