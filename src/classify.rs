//! Recognising package archives by the suffix of their file name.
use vstd::prelude::*;
use crate::bytes::{ends_with, has_suffix};
use vstd::string::StringSliceAdditionalSpecFns;

verus! {

/// The decompression that a package archive needs.
#[derive(Clone, Copy, Debug, PartialEq, Eq, Structural)]
pub enum ArchiveKind {
    /// A tar archive compressed with zstd (`.pkg.tar.zst`).
    Zstd,
    /// A tar archive compressed with xz (`.pkg.tar.xz`).
    Xz,
    /// Not a package archive: never opened.
    Unrecognized,
}

/// The bytes of `.pkg.tar.zst`.
pub open spec fn zstd_suffix() -> Seq<u8> {
    seq![46u8, 112u8, 107u8, 103u8, 46u8, 116u8, 97u8, 114u8, 46u8, 122u8, 115u8, 116u8]
}

/// The bytes of `.pkg.tar.xz`.
pub open spec fn xz_suffix() -> Seq<u8> {
    seq![46u8, 112u8, 107u8, 103u8, 46u8, 116u8, 97u8, 114u8, 46u8, 120u8, 122u8]
}

/// The kind of archive that a file name stands for.
pub open spec fn kind_of_name(name: Seq<u8>) -> ArchiveKind {
    if has_suffix(name, zstd_suffix()) {
        ArchiveKind::Zstd
    } else if has_suffix(name, xz_suffix()) {
        ArchiveKind::Xz
    } else {
        ArchiveKind::Unrecognized
    }
}

/// Decides from the file name alone whether a file is a package archive, and
/// which decompression it needs.
pub fn classify(file_name: &str) -> (r: ArchiveKind)
    ensures
        r == kind_of_name(file_name.spec_bytes()),
{
    let name = file_name.as_bytes();
    let zst: Vec<u8> = vec![46u8, 112u8, 107u8, 103u8, 46u8, 116u8, 97u8, 114u8, 46u8, 122u8, 115u8, 116u8];
    let xz: Vec<u8> = vec![46u8, 112u8, 107u8, 103u8, 46u8, 116u8, 97u8, 114u8, 46u8, 120u8, 122u8];
    assert(zst@ =~= zstd_suffix());
    assert(xz@ =~= xz_suffix());
    if ends_with(name, zst.as_slice()) {
        ArchiveKind::Zstd
    } else if ends_with(name, xz.as_slice()) {
        ArchiveKind::Xz
    } else {
        ArchiveKind::Unrecognized
    }
}

} // verus!
