//! Decompressing a package archive and listing the members of the tar
//! archive inside it.
use vstd::prelude::*;

verus! {

/// What zstd decompression makes of a byte sequence: the decoded bytes, or
/// nothing where the input is not a well-formed zstd stream.
pub uninterp spec fn zstd_decoded(raw: Seq<u8>) -> Option<Seq<u8>>;

/// What xz decompression makes of a byte sequence: the decoded bytes, or
/// nothing where the input is not a well-formed xz stream.
pub uninterp spec fn xz_decoded(raw: Seq<u8>) -> Option<Seq<u8>>;

/// What the tar reader makes of a byte sequence: the members it read, in
/// archive order, each as (path, regular file, offset of its data, size of
/// its data); and whether it stopped on an error after them.
pub uninterp spec fn tar_listing(data: Seq<u8>) -> (Seq<(Seq<char>, bool, u64, u64)>, bool);

/// Relies on `zstd::decode_all`: it decodes a whole zstd stream held in
/// memory, and its outcome depends on the input bytes alone.
#[verifier::external_body]
pub(crate) fn zstd_decode(raw: &[u8]) -> (r: Result<Vec<u8>, String>)
    ensures
        match r {
            Ok(v) => zstd_decoded(raw@) == Some(v@),
            Err(_) => zstd_decoded(raw@) is None,
        },
{
    match zstd::decode_all(raw) {
        Ok(v) => Ok(v),
        Err(e) => Err(e.to_string()),
    }
}

/// Relies on `lzma::decompress`: it decodes a whole xz stream held in
/// memory, and its outcome depends on the input bytes alone.
#[verifier::external_body]
pub(crate) fn xz_decode(raw: &[u8]) -> (r: Result<Vec<u8>, String>)
    ensures
        match r {
            Ok(v) => xz_decoded(raw@) == Some(v@),
            Err(_) => xz_decoded(raw@) is None,
        },
{
    match lzma::decompress(raw) {
        Ok(v) => Ok(v),
        Err(e) => Err(e.to_string()),
    }
}

/// One member of a tar archive, as the tar reader describes it.
pub struct TarMember {
    /// The member's path inside the archive.
    pub path: String,
    /// Whether the member is a regular file (not a directory, link, ...).
    pub is_file: bool,
    /// Where the member's data starts in the archive.
    pub start: u64,
    /// How many bytes of data the member has.
    pub size: u64,
}

/// A member as a plain value: (path, regular file, offset, size).
pub open spec fn member_view(m: TarMember) -> (Seq<char>, bool, u64, u64) {
    (m.path@, m.is_file, m.start, m.size)
}

/// The members as plain values, in order.
pub open spec fn members_view(ms: Seq<TarMember>) -> Seq<(Seq<char>, bool, u64, u64)> {
    ms.map_values(|m: TarMember| member_view(m))
}

/// Relies on `tar::Archive::entries`: it reads the members of a tar archive
/// in order, and stops at the end marker, at the end of the data, or at the
/// first member it cannot read; what it reads depends on the bytes alone.
/// The members read before an error are kept, and the error is reported.
#[verifier::external_body]
pub(crate) fn read_tar_members(data: &[u8]) -> (r: (Vec<TarMember>, Option<String>))
    ensures
        members_view(r.0@) == tar_listing(data@).0,
        (r.1 is Some) == tar_listing(data@).1,
{
    let mut members = Vec::new();
    let mut archive = tar::Archive::new(data);
    let entries = match archive.entries() {
        Ok(entries) => entries,
        Err(e) => return (members, Some(e.to_string())),
    };
    for entry in entries {
        match entry.and_then(|e| Ok(TarMember { path: e.path()?.to_string_lossy().into_owned(),
            is_file: e.header().entry_type().is_file(), start: e.raw_file_position(), size: e.size() })) {
            Ok(m) => members.push(m),
            Err(e) => return (members, Some(e.to_string())),
        }
    }
    (members, None)
}

} // verus!
