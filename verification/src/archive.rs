//! Package archives: gzip-compressed tar files, read from memory.

use vstd::prelude::*;

verus! {

/// One member of a tar archive, as far as it could be read.
#[derive(Debug, PartialEq, Eq)]
pub struct ArchiveEntry {
    /// The path of the member, if the archive gives a readable one.
    pub path: Option<String>,
    /// The contents of the member, if they could be read.
    pub data: Option<Vec<u8>>,
}

/// The mathematical value of an [`ArchiveEntry`].
pub struct ArchiveEntryView {
    pub path: Option<Seq<char>>,
    pub data: Option<Seq<u8>>,
}

impl View for ArchiveEntry {
    type V = ArchiveEntryView;

    open spec fn view(&self) -> ArchiveEntryView {
        ArchiveEntryView {
            path: match self.path {
                Some(p) => Some(p@),
                None => None,
            },
            data: match self.data {
                Some(d) => Some(d@),
                None => None,
            },
        }
    }
}

/// The views of a list of entries.
pub open spec fn entry_views(entries: Seq<ArchiveEntry>) -> Seq<ArchiveEntryView> {
    Seq::new(entries.len(), |i: int| entries[i]@)
}

/// What `flate2::read::GzDecoder` reads out of `compressed`: the decompressed
/// bytes, or the text of the error it stops with.
pub uninterp spec fn gzip_decoded(compressed: Seq<u8>) -> Result<Seq<u8>, Seq<char>>;

/// What iterating `binstall_tar::Archive::entries` over `archive` yields, each
/// member with its path and contents; or the text of the error that `entries`
/// itself gives.
pub uninterp spec fn tar_listing(archive: Seq<u8>) -> Result<Seq<ArchiveEntryView>, Seq<char>>;

/// Reads `compressed` to the end through `flate2::read::GzDecoder`. The
/// outcome depends on the bytes alone; the contract names it.
#[verifier::external_body]
pub(crate) fn gunzip(compressed: &[u8]) -> (r: Result<Vec<u8>, String>)
    ensures
        match r {
            Ok(bytes) => gzip_decoded(compressed@) == Ok::<Seq<u8>, Seq<char>>(bytes@),
            Err(message) => gzip_decoded(compressed@) == Err::<Seq<u8>, Seq<char>>(message@),
        },
{
    let mut decoded = Vec::new();
    match std::io::Read::read_to_end(&mut flate2::read::GzDecoder::new(compressed), &mut decoded) {
        Ok(_) => Ok(decoded),
        Err(error) => Err(error.to_string()),
    }
}

/// Walks the members of the tar archive `archive` with
/// `binstall_tar::Archive::entries`, and takes from each its path
/// (`Entry::path`) and its contents (read to the end). A member that cannot be
/// read keeps its place, with `None` for what is missing. The outcome depends
/// on the bytes alone; the contract names it.
#[verifier::external_body]
pub(crate) fn read_tar(archive: &[u8]) -> (r: Result<Vec<ArchiveEntry>, String>)
    ensures
        match r {
            Ok(entries) => tar_listing(archive@) == Ok::<Seq<ArchiveEntryView>, Seq<char>>(
                entry_views(entries@),
            ),
            Err(message) => tar_listing(archive@) == Err::<Seq<ArchiveEntryView>, Seq<char>>(
                message@,
            ),
        },
{
    let mut archive = binstall_tar::Archive::new(archive);
    let mut listing = Vec::new();
    for entry in archive.entries().map_err(|error| error.to_string())? {
        let mut item = ArchiveEntry { path: None, data: None };
        if let Ok(mut file) = entry {
            item.path = file.path().ok().and_then(|p| p.to_str().map(str::to_owned));
            let mut data = Vec::new();
            item.data = std::io::Read::read_to_end(&mut file, &mut data).ok().map(|_| data);
        }
        listing.push(item);
    }
    Ok(listing)
}

} // verus!
