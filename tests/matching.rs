use pkg_symbol_audit::bytes::{ends_with, starts_with};
use pkg_symbol_audit::classify::{classify, ArchiveKind};
use pkg_symbol_audit::elf::{is_elf_image, sniff};
use pkg_symbol_audit::listing::{contains, line_has_symbol, listing_has_symbol};

const SYMBOL: &[u8] = b"malloc_usable_size@GLIBC";

#[test]
fn classify_zstd_archive() {
    assert_eq!(classify("a.pkg.tar.zst"), ArchiveKind::Zstd);
    assert_eq!(classify("/srv/repo/core/glibc-2.39-1-x86_64.pkg.tar.zst"), ArchiveKind::Zstd);
}

#[test]
fn classify_xz_archive() {
    assert_eq!(classify("b.pkg.tar.xz"), ArchiveKind::Xz);
}

#[test]
fn classify_other_names() {
    assert_eq!(classify("c.txt"), ArchiveKind::Unrecognized);
    assert_eq!(classify(""), ArchiveKind::Unrecognized);
    assert_eq!(classify("a.pkg.tar.zst.sig"), ArchiveKind::Unrecognized);
    assert_eq!(classify("a.tar.zst"), ArchiveKind::Unrecognized);
    assert_eq!(classify("pkg.tar.xz"), ArchiveKind::Unrecognized);
    assert_eq!(classify("a.pkg.tar.gz"), ArchiveKind::Unrecognized);
}

#[test]
fn classify_bare_suffix() {
    assert_eq!(classify(".pkg.tar.zst"), ArchiveKind::Zstd);
    assert_eq!(classify(".pkg.tar.xz"), ArchiveKind::Xz);
}

#[test]
fn byte_prefix_and_suffix() {
    assert!(ends_with(b"abcdef", b"def"));
    assert!(ends_with(b"abc", b""));
    assert!(!ends_with(b"ef", b"def"));
    assert!(!ends_with(b"abcdef", b"dex"));
    assert!(starts_with(b"abcdef", b"abc"));
    assert!(!starts_with(b"ab", b"abc"));
    assert!(!starts_with(b"abd", b"abc"));
}

#[test]
fn elf_magic_recognised() {
    assert!(is_elf_image(&[0x7f, b'E', b'L', b'F']));
    assert!(is_elf_image(&[0x7f, b'E', b'L', b'F', 2, 1, 1, 0]));
    assert!(!is_elf_image(b"#!/bin/sh\n"));
    assert!(!is_elf_image(&[0x7f, b'E', b'L', b'G', 2]));
}

#[test]
fn short_content_is_not_elf() {
    assert!(!is_elf_image(&[]));
    assert!(!is_elf_image(&[0x7f]));
    assert!(!is_elf_image(&[0x7f, b'E', b'L']));
    assert_eq!(sniff(&[0x7f, b'E', b'L']), None);
}

#[test]
fn sniff_copies_whole_image() {
    let content = vec![0x7f, b'E', b'L', b'F', 9, 8, 7];
    assert_eq!(sniff(&content), Some(content.clone()));
    assert_eq!(sniff(b"plain text"), None);
}

#[test]
fn contains_finds_pattern() {
    assert!(contains(b"hello world", b"o w"));
    assert!(contains(b"abc", b""));
    assert!(contains(b"abc", b"abc"));
    assert!(!contains(b"ab", b"abc"));
    assert!(!contains(b"hello", b"world"));
}

#[test]
fn line_needs_space_before_symbol() {
    assert!(line_has_symbol(b"    12: 0000 0 FUNC GLOBAL DEFAULT UND malloc_usable_size@GLIBC_2.2.5 (2)", SYMBOL));
    assert!(!line_has_symbol(b"UND xmalloc_usable_size@GLIBC_2.2.5", SYMBOL));
    assert!(!line_has_symbol(b"malloc_usable_size@GLIBC_2.2.5", SYMBOL));
    assert!(!line_has_symbol(b" malloc_usable_size", SYMBOL));
}

#[test]
fn line_must_be_text() {
    assert!(!line_has_symbol(b"\xff\xfe UND malloc_usable_size@GLIBC_2.2.5", SYMBOL));
}

#[test]
fn listing_with_symbol_on_some_line() {
    let listing = b"Symbol table '.dynsym' contains 3 entries:\n   1: 0 FUNC GLOBAL DEFAULT UND free@GLIBC_2.2.5 (2)\n   2: 0 FUNC GLOBAL DEFAULT UND malloc_usable_size@GLIBC_2.2.5 (2)\n";
    assert!(listing_has_symbol(listing, SYMBOL));
}

#[test]
fn listing_without_symbol() {
    let listing = b"   1: 0 FUNC GLOBAL DEFAULT UND free@GLIBC_2.2.5 (2)\n   2: 0 FUNC GLOBAL DEFAULT UND malloc@GLIBC_2.2.5 (2)\n";
    assert!(!listing_has_symbol(listing, SYMBOL));
    assert!(!listing_has_symbol(b"", SYMBOL));
    assert!(!listing_has_symbol(b"\n\n", SYMBOL));
}

#[test]
fn listing_last_line_without_newline() {
    assert!(listing_has_symbol(b"a\nUND malloc_usable_size@GLIBC", SYMBOL));
}

#[test]
fn listing_with_crlf_lines() {
    assert!(listing_has_symbol(b"a\r\nUND malloc_usable_size@GLIBC\r\nb\r\n", SYMBOL));
}

#[test]
fn listing_skips_lines_that_are_not_text() {
    let listing = b"\xff UND malloc_usable_size@GLIBC\nUND free@GLIBC\n";
    assert!(!listing_has_symbol(listing, SYMBOL));
    let listing = b"\xff\nUND malloc_usable_size@GLIBC\n";
    assert!(listing_has_symbol(listing, SYMBOL));
}

#[test]
fn symbol_split_over_lines_does_not_count() {
    assert!(!listing_has_symbol(b"UND malloc_usable\n_size@GLIBC\n", SYMBOL));
}
