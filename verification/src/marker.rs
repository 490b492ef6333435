//! The persistence marker: the two magic bytes written to the card and the
//! check that decides whether a prior boot left them there.

use vstd::prelude::*;

verus! {

/// The two magic bytes that the marker file must hold.
pub open spec fn magic() -> Seq<u8> {
    seq![0x42u8, 0x1Eu8]
}

/// A byte sequence counts as a valid marker exactly when it holds at least
/// two bytes and the first two equal the magic value; any other content,
/// including a short read, is treated as "no valid marker".
pub open spec fn is_valid_marker(data: Seq<u8>) -> bool {
    data.len() >= 2 && data[0] == 0x42u8 && data[1] == 0x1Eu8
}

/// The exact bytes written to the marker file on every run.
pub fn marker_bytes() -> (r: Vec<u8>)
    ensures
        r@ == magic(),
{
    let mut v: Vec<u8> = Vec::new();
    v.push(0x42u8);
    v.push(0x1Eu8);
    proof {
        assert(v@ =~= magic());
    }
    v
}

/// Decides from the bytes read back whether the marker of a prior boot is
/// present: at least two bytes, and the first two match the magic value.
pub fn marker_verified(data: &Vec<u8>) -> (r: bool)
    ensures
        r == is_valid_marker(data@),
{
    data.len() >= 2 && data[0] == 0x42u8 && data[1] == 0x1Eu8
}

} // verus!
