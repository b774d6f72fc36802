//! Reading a symbol listing: one symbol per line, as the dynamic symbol
//! table dump of an ELF image prints it.
use vstd::prelude::*;
use crate::bytes::occurs_in;

verus! {

/// Whether a byte sequence is well-formed UTF-8.
pub uninterp spec fn utf8_valid(b: Seq<u8>) -> bool;

/// Relies on `std::str::from_utf8`: it succeeds exactly on well-formed
/// UTF-8, a property of the bytes alone.
#[verifier::external_body]
fn is_utf8(b: &[u8]) -> (r: bool)
    ensures
        r == utf8_valid(b@),
{
    std::str::from_utf8(b).is_ok()
}

/// The text that marks the target symbol on a line: a space, then the name.
pub open spec fn marker(symbol: Seq<u8>) -> Seq<u8> {
    seq![32u8] + symbol
}

/// A line names the symbol when it is text and holds the marker.
pub open spec fn line_names(line: Seq<u8>, symbol: Seq<u8>) -> bool {
    utf8_valid(line) && occurs_in(marker(symbol), line)
}

/// A line ended by a newline, without the newline and without a carriage
/// return before it.
pub open spec fn terminated_line(s: Seq<u8>, start: int, nl: int) -> Seq<u8> {
    if start < nl && s[nl - 1] == 13u8 {
        s.subrange(start, nl - 1)
    } else {
        s.subrange(start, nl)
    }
}

/// Whether some line of `s` names the symbol, reading on from `i` inside the
/// line that began at `start`. Lines end at a newline byte; a last line
/// without one counts when it is not empty.
pub open spec fn names_from(s: Seq<u8>, symbol: Seq<u8>, start: int, i: int) -> bool
    decreases s.len() - i,
{
    if i >= s.len() {
        start < s.len() && line_names(s.subrange(start, s.len() as int), symbol)
    } else if s[i] == 10u8 {
        line_names(terminated_line(s, start, i), symbol) || names_from(s, symbol, i + 1, i + 1)
    } else {
        names_from(s, symbol, start, i + 1)
    }
}

/// Whether some line of the listing `s` names the symbol.
pub open spec fn listing_names(s: Seq<u8>, symbol: Seq<u8>) -> bool {
    names_from(s, symbol, 0, 0)
}

/// Whether `pat` occurs in `s`.
pub fn contains(s: &[u8], pat: &[u8]) -> (r: bool)
    ensures
        r == occurs_in(pat@, s@),
{
    if pat.len() > s.len() {
        return false;
    }
    let last: usize = s.len() - pat.len();
    let mut i: usize = 0;
    while i <= last
        invariant
            last + pat.len() == s.len(),
            0 <= i <= last + 1,
            forall|k: int| 0 <= k < i ==> #[trigger] s@.subrange(k, k + pat@.len()) != pat@,
        decreases last + 1 - i,
    {
        let mut j: usize = 0;
        while j < pat.len() && s[i + j] == pat[j]
            invariant
                last + pat.len() == s.len(),
                i <= last,
                0 <= j <= pat.len(),
                forall|k: int| 0 <= k < j ==> s@[i + k] == pat@[k],
            decreases pat.len() - j,
        {
            j = j + 1;
        }
        if j == pat.len() {
            assert(s@.subrange(i as int, i + pat@.len()) =~= pat@);
            return true;
        }
        assert(s@.subrange(i as int, i + pat@.len())[j as int] != pat@[j as int]);
        i = i + 1;
    }
    assert forall|k: int| 0 <= k <= s@.len() - pat@.len() implies #[trigger] s@.subrange(k, k + pat@.len()) != pat@ by {
    }
    false
}

/// Whether one line names the symbol.
pub fn line_has_symbol(line: &[u8], symbol: &[u8]) -> (r: bool)
    requires
        symbol@.len() < usize::MAX,
    ensures
        r == line_names(line@, symbol@),
{
    let mut pat: Vec<u8> = Vec::new();
    pat.push(32u8);
    let mut k: usize = 0;
    while k < symbol.len()
        invariant
            0 <= k <= symbol.len(),
            pat@ =~= seq![32u8] + symbol@.subrange(0, k as int),
        decreases symbol.len() - k,
    {
        pat.push(symbol[k]);
        k = k + 1;
    }
    assert(symbol@.subrange(0, symbol@.len() as int) =~= symbol@);
    is_utf8(line) && contains(line, pat.as_slice())
}

/// Whether some line of a symbol listing names the symbol: some line is
/// well-formed text that holds a space followed by the symbol's name.
pub fn listing_has_symbol(listing: &[u8], symbol: &[u8]) -> (r: bool)
    requires
        symbol@.len() < usize::MAX,
    ensures
        r == listing_names(listing@, symbol@),
{
    let mut start: usize = 0;
    let mut i: usize = 0;
    while i < listing.len()
        invariant
            0 <= start <= i <= listing.len(),
            symbol@.len() < usize::MAX,
            listing_names(listing@, symbol@) == names_from(listing@, symbol@, start as int, i as int),
        decreases listing.len() - i,
    {
        if listing[i] == 10u8 {
            let end: usize = if start < i && listing[i - 1] == 13u8 { i - 1 } else { i };
            let line = vstd::slice::slice_subrange(listing, start, end);
            if line_has_symbol(line, symbol) {
                return true;
            }
            start = i + 1;
        }
        i = i + 1;
    }
    if start < listing.len() {
        let line = vstd::slice::slice_subrange(listing, start, listing.len());
        line_has_symbol(line, symbol)
    } else {
        false
    }
}

} // verus!
