//! Decoding of directory entries into diagnostic lines.
//!
//! Each entry of the root directory yields one line of the form
//! `/BASE.EXT` built from the entry's raw 8.3 name bytes. A byte outside
//! the printable range has no defined text form and is shown as `?` rather
//! than aborting the enumeration.

use vstd::prelude::*;

verus! {

/// Base name and extension of one directory entry, as the raw bytes the
/// filesystem stores.
pub struct EntryName {
    pub base: Vec<u8>,
    pub ext: Vec<u8>,
}

/// A byte that can stand in a diagnostic line as it is: printable ASCII.
pub open spec fn printable(b: u8) -> bool {
    0x20 <= b && b <= 0x7e
}

/// How one name byte appears in a diagnostic line: itself when printable,
/// the replacement byte `?` otherwise.
pub open spec fn shown_byte(b: u8) -> u8 {
    if printable(b) {
        b
    } else {
        0x3fu8
    }
}

/// The diagnostic line for one entry: a slash, the shown base name, a dot,
/// the shown extension.
pub open spec fn line_of(base: Seq<u8>, ext: Seq<u8>) -> Seq<u8> {
    seq![0x2fu8] + base.map_values(|b: u8| shown_byte(b)) + seq![0x2eu8] + ext.map_values(
        |b: u8| shown_byte(b),
    )
}

/// Appends the shown form of each byte of `name` to `out`.
fn push_shown(out: &mut Vec<u8>, name: &Vec<u8>)
    ensures
        final(out)@ == old(out)@ + name@.map_values(|b: u8| shown_byte(b)),
{
    let ghost shown = name@.map_values(|b: u8| shown_byte(b));
    let mut i: usize = 0;
    while i < name.len()
        invariant
            i <= name.len(),
            shown == name@.map_values(|b: u8| shown_byte(b)),
            out@ == old(out)@ + shown.take(i as int),
        decreases name.len() - i,
    {
        let b: u8 = name[i];
        if 0x20 <= b && b <= 0x7e {
            out.push(b);
        } else {
            out.push(0x3fu8);
        }
        proof {
            assert(shown.take(i + 1 as int) =~= shown.take(i as int).push(shown[i as int]));
            assert(out@ =~= old(out)@ + shown.take(i + 1 as int));
        }
        i = i + 1;
    }
    proof {
        assert(shown.take(name@.len() as int) =~= shown);
    }
}

/// The diagnostic line emitted for one directory entry.
pub fn entry_line(base: &Vec<u8>, ext: &Vec<u8>) -> (r: Vec<u8>)
    ensures
        r@ == line_of(base@, ext@),
{
    let mut line: Vec<u8> = Vec::new();
    line.push(0x2fu8);
    proof {
        assert(line@ =~= seq![0x2fu8]);
    }
    push_shown(&mut line, base);
    line.push(0x2eu8);
    push_shown(&mut line, ext);
    proof {
        assert(line@ =~= line_of(base@, ext@));
    }
    line
}

/// Enumerates a directory's entries: one diagnostic line per entry, in
/// order, exactly as many lines as there are entries — and none on an empty
/// directory.
pub fn listing_lines(entries: &Vec<EntryName>) -> (r: Vec<Vec<u8>>)
    ensures
        r@.len() == entries@.len(),
        forall|i: int|
            0 <= i < entries@.len() ==> r@[i]@ == line_of(entries@[i].base@, entries@[i].ext@),
{
    let mut lines: Vec<Vec<u8>> = Vec::new();
    let mut i: usize = 0;
    while i < entries.len()
        invariant
            i <= entries.len(),
            lines@.len() == i,
            forall|j: int|
                0 <= j < i ==> lines@[j]@ == line_of(entries@[j].base@, entries@[j].ext@),
        decreases entries.len() - i,
    {
        let entry = &entries[i];
        lines.push(entry_line(&entry.base, &entry.ext));
        i = i + 1;
    }
    lines
}

} // verus!
