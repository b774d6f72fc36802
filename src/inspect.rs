//! Inspecting one package archive: decode it, walk its members in order,
//! hand each regular-file ELF image out for a symbol listing, and stop at the
//! first listing that names the target symbol.
//!
//! Listing symbols is work outside the library, so the walk is a state
//! machine: `next_step` either asks for the listing of an image or reports a
//! verdict, and the caller answers a request with `on_listing` or
//! `on_lister_failure`.
use vstd::prelude::*;
use crate::classify::ArchiveKind;
use crate::decode::{
    member_view, members_view, read_tar_members, tar_listing, xz_decode, xz_decoded, zstd_decode,
    zstd_decoded, TarMember,
};
use crate::elf::{is_elf, is_elf_image};
use crate::listing::{listing_has_symbol, listing_names};

verus! {

/// How the inspection of one package ended.
#[derive(Clone, Copy, Debug, PartialEq, Eq, Structural)]
pub enum Verdict {
    /// An ELF member's listing names the target symbol.
    Matched,
    /// The archive was read to its end and no listing names the symbol.
    NotMatched,
    /// The archive could not be decompressed.
    DecodeFailed,
    /// The tar archive inside is malformed.
    ArchiveFailed,
    /// The symbol lister could not list an image.
    ListerFailed,
}

/// What the caller is to do next.
pub enum Step {
    /// List the dynamic symbols of this ELF image, then answer with
    /// `on_listing` or `on_lister_failure`.
    Query(Vec<u8>),
    /// The inspection is over.
    Done(Verdict),
}

/// A member as a plain value: (path, regular file, offset, size).
pub type MemberModel = (Seq<char>, bool, u64, u64);

/// The state of an inspection, as a plain value.
pub struct InspectionView {
    /// The symbol looked for.
    pub symbol: Seq<u8>,
    /// The decompressed tar archive.
    pub data: Seq<u8>,
    /// Its members, in archive order.
    pub members: Seq<MemberModel>,
    /// Whether reading the members stopped on an error after them.
    pub truncated: bool,
    /// The first member not yet looked at.
    pub cursor: nat,
    /// The verdict, once there is one; it never changes after that.
    pub finished: Option<Verdict>,
}

/// Whether a member's data lies within the archive.
pub open spec fn member_fits(data: Seq<u8>, m: MemberModel) -> bool {
    m.2 + m.3 <= data.len()
}

/// A member's data.
pub open spec fn member_content(data: Seq<u8>, m: MemberModel) -> Seq<u8> {
    data.subrange(m.2 as int, m.2 + m.3)
}

/// The first member at or after `i` at which the walk stops: a regular file
/// whose data lies outside the archive, or a regular file that is an ELF
/// image. `members.len()` where there is none.
pub open spec fn next_stop(data: Seq<u8>, members: Seq<MemberModel>, i: nat) -> nat
    decreases members.len() - i,
{
    if i >= members.len() {
        members.len()
    } else if members[i as int].1 && (!member_fits(data, members[i as int]) || is_elf(
        member_content(data, members[i as int]),
    )) {
        i
    } else {
        next_stop(data, members, i + 1)
    }
}

/// The state after the package was decoded and its members listed.
pub open spec fn walk_start(symbol: Seq<u8>, data: Seq<u8>) -> InspectionView {
    InspectionView {
        symbol,
        data,
        members: tar_listing(data).0,
        truncated: tar_listing(data).1,
        cursor: 0,
        finished: None,
    }
}

/// A state that is over, with the given verdict.
pub open spec fn finished_with(symbol: Seq<u8>, v: Verdict) -> InspectionView {
    InspectionView {
        symbol,
        data: Seq::empty(),
        members: Seq::empty(),
        truncated: false,
        cursor: 0,
        finished: Some(v),
    }
}

/// The state in which an inspection starts: a file name that is no package
/// archive is not matched; an archive that does not decompress failed.
pub open spec fn start_view(kind: ArchiveKind, raw: Seq<u8>, symbol: Seq<u8>) -> InspectionView {
    match kind {
        ArchiveKind::Unrecognized => finished_with(symbol, Verdict::NotMatched),
        ArchiveKind::Zstd => match zstd_decoded(raw) {
            Some(data) => walk_start(symbol, data),
            None => finished_with(symbol, Verdict::DecodeFailed),
        },
        ArchiveKind::Xz => match xz_decoded(raw) {
            Some(data) => walk_start(symbol, data),
            None => finished_with(symbol, Verdict::DecodeFailed),
        },
    }
}

/// `v` with the verdict set.
pub open spec fn finish(v: InspectionView, verdict: Verdict) -> InspectionView {
    InspectionView { finished: Some(verdict), ..v }
}

/// `v` with the walk moved on to member `c`.
pub open spec fn move_to(v: InspectionView, c: nat) -> InspectionView {
    InspectionView { cursor: c, ..v }
}

/// The verdict that walking on from `v` reaches without asking for a
/// listing, if it reaches one: the end of the members (not matched, or
/// failed where they were cut short by an error), or a regular file whose
/// data lies outside the archive (failed).
pub open spec fn walk_verdict(v: InspectionView) -> Option<Verdict> {
    let j = next_stop(v.data, v.members, v.cursor);
    if j >= v.members.len() {
        Some(if v.truncated { Verdict::ArchiveFailed } else { Verdict::NotMatched })
    } else if !member_fits(v.data, v.members[j as int]) {
        Some(Verdict::ArchiveFailed)
    } else {
        None
    }
}

/// One step of the walk from `v` gives step `r` and state `w`: a finished
/// inspection repeats its verdict; otherwise the walk either reaches a
/// verdict, or asks for the listing of the next ELF image and moves past it.
pub open spec fn stepped(v: InspectionView, w: InspectionView, r: Step) -> bool {
    match v.finished {
        Some(x) => r == Step::Done(x) && w == v,
        None => match walk_verdict(v) {
            Some(x) => r == Step::Done(x) && w == finish(v, x),
            None => {
                let j = next_stop(v.data, v.members, v.cursor);
                &&& r matches Step::Query(image)
                &&& image@ == member_content(v.data, v.members[j as int])
                &&& w == move_to(v, j + 1)
            },
        },
    }
}

/// Answering with `listing` in state `v` gives step `r` and state `w`: a
/// listing that names the symbol ends the inspection as matched; any other
/// lets the walk go on.
pub open spec fn answered(v: InspectionView, listing: Seq<u8>, w: InspectionView, r: Step) -> bool {
    if v.finished is None && listing_names(listing, v.symbol) {
        r == Step::Done(Verdict::Matched) && w == finish(v, Verdict::Matched)
    } else {
        stepped(v, w, r)
    }
}

/// The inspection of one package archive.
pub struct Inspection {
    symbol: Vec<u8>,
    data: Vec<u8>,
    members: Vec<TarMember>,
    truncated: bool,
    cursor: usize,
    finished: Option<Verdict>,
    message: String,
}

impl View for Inspection {
    type V = InspectionView;

    closed spec fn view(&self) -> InspectionView {
        InspectionView {
            symbol: self.symbol@,
            data: self.data@,
            members: members_view(self.members@),
            truncated: self.truncated,
            cursor: self.cursor as nat,
            finished: self.finished,
        }
    }
}

impl Inspection {
    #[verifier::type_invariant]
    spec fn inv(&self) -> bool {
        &&& self.symbol@.len() < usize::MAX
        &&& self.cursor <= self.members@.len()
    }

    /// Starts the inspection of a package archive of the given kind whose
    /// file holds `raw`, looking for `symbol`. A file that is no package
    /// archive is never decoded.
    pub fn new(kind: ArchiveKind, raw: &[u8], symbol: &[u8]) -> (r: Inspection)
        requires
            symbol@.len() < usize::MAX,
        ensures
            r@ == start_view(kind, raw@, symbol@),
    {
        let symbol = vstd::slice::slice_to_vec(symbol);
        let decoded = match kind {
            ArchiveKind::Unrecognized => {
                return Inspection::finished(symbol, Verdict::NotMatched, String::new());
            },
            ArchiveKind::Zstd => zstd_decode(raw),
            ArchiveKind::Xz => xz_decode(raw),
        };
        match decoded {
            Ok(data) => {
                let (members, error) = read_tar_members(data.as_slice());
                let truncated = error.is_some();
                let message = match error {
                    Some(m) => m,
                    None => String::new(),
                };
                Inspection { symbol, data, members, truncated, cursor: 0, finished: None, message }
            },
            Err(m) => Inspection::finished(symbol, Verdict::DecodeFailed, m),
        }
    }

    fn finished(symbol: Vec<u8>, verdict: Verdict, message: String) -> (r: Inspection)
        requires
            symbol@.len() < usize::MAX,
        ensures
            r@ == finished_with(symbol@, verdict),
    {
        let r = Inspection {
            symbol,
            data: Vec::new(),
            members: Vec::new(),
            truncated: false,
            cursor: 0,
            finished: Some(verdict),
            message,
        };
        assert(members_view(r.members@) =~= Seq::empty());
        r
    }

    /// The first member at or after the cursor at which the walk stops.
    fn find_stop(&self) -> (r: usize)
        ensures
            r == next_stop(self@.data, self@.members, self@.cursor),
            r <= self@.members.len(),
    {
        proof {
            use_type_invariant(self);
        }
        let mut i: usize = self.cursor;
        while i < self.members.len()
            invariant
                self.cursor <= i <= self.members@.len(),
                next_stop(self@.data, self@.members, self@.cursor) == next_stop(
                    self@.data,
                    self@.members,
                    i as nat,
                ),
            decreases self.members.len() - i,
        {
            let m = &self.members[i];
            assert(self@.members[i as int] == member_view(*m));
            if m.is_file {
                let len: u64 = self.data.len() as u64;
                if m.start > len || m.size > len - m.start {
                    return i;
                }
                let content = vstd::slice::slice_subrange(
                    self.data.as_slice(),
                    m.start as usize,
                    (m.start + m.size) as usize,
                );
                assert(content@ == member_content(self@.data, self@.members[i as int]));
                if is_elf_image(content) {
                    return i;
                }
            }
            i = i + 1;
        }
        i
    }

    /// Walks on to the next regular-file ELF member and asks for its
    /// listing, or reports the verdict. Members before it are passed over
    /// without being copied; members after it are not looked at.
    pub fn next_step(&mut self) -> (r: Step)
        ensures
            stepped(old(self)@, final(self)@, r),
    {
        proof {
            use_type_invariant(&*self);
        }
        if let Some(x) = self.finished {
            return Step::Done(x);
        }
        let j = self.find_stop();
        if j == self.members.len() {
            let x = if self.truncated {
                Verdict::ArchiveFailed
            } else {
                Verdict::NotMatched
            };
            self.finished = Some(x);
            return Step::Done(x);
        }
        let len: u64 = self.data.len() as u64;
        let start: u64 = self.members[j].start;
        let size: u64 = self.members[j].size;
        assert(self@.members[j as int] == member_view(self.members@[j as int]));
        if start > len || size > len - start {
            self.message = self.members[j].path.clone();
            self.finished = Some(Verdict::ArchiveFailed);
            return Step::Done(Verdict::ArchiveFailed);
        }
        let content = vstd::slice::slice_subrange(
            self.data.as_slice(),
            start as usize,
            (start + size) as usize,
        );
        let image = vstd::slice::slice_to_vec(content);
        self.cursor = j + 1;
        Step::Query(image)
    }

    /// Answers the last request with the symbol listing of its image. A
    /// listing that names the symbol ends the inspection as matched; the
    /// members after that image are never looked at.
    pub fn on_listing(&mut self, listing: &[u8]) -> (r: Step)
        ensures
            answered(old(self)@, listing@, final(self)@, r),
    {
        proof {
            use_type_invariant(&*self);
        }
        if self.finished.is_none() && listing_has_symbol(listing, self.symbol.as_slice()) {
            self.finished = Some(Verdict::Matched);
            return Step::Done(Verdict::Matched);
        }
        self.next_step()
    }

    /// Answers the last request with the lister's failure: the inspection
    /// ends as failed, unless it was over already.
    pub fn on_lister_failure(&mut self, message: String) -> (r: Step)
        ensures
            old(self)@.finished is None ==> r == Step::Done(Verdict::ListerFailed) && final(self)@
                == finish(old(self)@, Verdict::ListerFailed),
            old(self)@.finished matches Some(x) ==> r == Step::Done(x) && final(self)@ == old(
                self,
            )@,
    {
        proof {
            use_type_invariant(&*self);
        }
        if let Some(x) = self.finished {
            return Step::Done(x);
        }
        self.message = message;
        self.finished = Some(Verdict::ListerFailed);
        Step::Done(Verdict::ListerFailed)
    }

    /// The verdict, once the inspection is over.
    pub fn verdict(&self) -> (r: Option<Verdict>)
        ensures
            r == self@.finished,
    {
        self.finished
    }

    /// What went wrong, where the verdict is a failure: the decoder's, the
    /// tar reader's or the lister's message, or the path of a member whose
    /// data lies outside the archive.
    pub fn message(&self) -> &str {
        self.message.as_str()
    }
}

} // verus!
