//! Recognising ELF images by their leading magic bytes.
use vstd::prelude::*;
use crate::bytes::{has_prefix, starts_with};

verus! {

/// The four bytes that open every ELF image: `0x7f 'E' 'L' 'F'`.
pub open spec fn elf_magic() -> Seq<u8> {
    seq![0x7fu8, 0x45u8, 0x4cu8, 0x46u8]
}

/// A member's content is an ELF image when it opens with the magic bytes.
pub open spec fn is_elf(content: Seq<u8>) -> bool {
    has_prefix(content, elf_magic())
}

/// Whether a member's content opens with the ELF magic bytes. Content shorter
/// than the magic is not ELF; it is no error either.
pub fn is_elf_image(content: &[u8]) -> (r: bool)
    ensures
        r == is_elf(content@),
        content@.len() < 4 ==> !r,
{
    let magic: Vec<u8> = vec![0x7fu8, 0x45u8, 0x4cu8, 0x46u8];
    assert(magic@ =~= elf_magic());
    starts_with(content, magic.as_slice())
}

/// Probes a member's content: when it is an ELF image, hands back an owned
/// copy of the whole content for the symbol lister; otherwise nothing is
/// copied.
pub fn sniff(content: &[u8]) -> (r: Option<Vec<u8>>)
    ensures
        r is Some <==> is_elf(content@),
        r matches Some(image) ==> image@ == content@,
{
    if is_elf_image(content) {
        Some(vstd::slice::slice_to_vec(content))
    } else {
        None
    }
}

/// Content shorter than the magic is never taken for an ELF image.
pub proof fn lemma_short_content_not_elf(content: Seq<u8>)
    requires
        content.len() < 4,
    ensures
        !is_elf(content),
{
}

} // verus!
