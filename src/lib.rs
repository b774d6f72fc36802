//! Finds ELF binaries inside compressed package archives that reference a
//! given dynamic symbol.
//!
//! The library holds the decisions: which file names are package archives,
//! how an archive is decoded and walked, which members are ELF images, and
//! whether a symbol listing names the target symbol. Reading files, running
//! the symbol lister and spreading work over threads is left to the caller.
use vstd::prelude::*;

pub mod bytes;
pub mod classify;
pub mod decode;
pub mod elf;
pub mod inspect;
pub mod laws;
pub mod listing;

verus! {

} // verus!
