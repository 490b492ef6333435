//! Policy constants of the self-test: well-known file names, bus speeds,
//! delay periods, and the indicator schedule of the two terminal loops.

use vstd::prelude::*;

verus! {

/// Short 8.3-style name of the marker file, read in step A and rewritten in
/// step B of the round-trip verifier.
pub fn marker_filename() -> (r: &'static str)
    ensures
        r@ == "O.TST"@,
{
    "O.TST"
}

/// Short 8.3-style name of the diagnostic artifact written in step C.
pub fn artifact_filename() -> (r: &'static str)
    ensures
        r@ == "TEST_DBG.TXT"@,
{
    "TEST_DBG.TXT"
}

/// The fixed human-readable payload of the diagnostic artifact.
pub open spec fn artifact_text_spec() -> Seq<char> {
    "This is my test text file.\r\nI really hope you like it!!"@
}

/// The exact text written to the diagnostic artifact on every run.
pub fn artifact_text() -> (r: &'static str)
    ensures
        r@ == artifact_text_spec(),
{
    "This is my test text file.\r\nI really hope you like it!!"
}

/// Conservative bus frequency (Hz) used while the card initializes; chosen
/// to satisfy the card's power-on timing requirements.
pub fn init_bus_hz() -> (r: u32)
    ensures
        r == 400_000,
{
    400_000
}

/// Operating bus frequency (Hz) the bus is raised to once initialization
/// succeeded.
pub fn operating_bus_hz() -> (r: u32)
    ensures
        r == 16_000_000,
{
    16_000_000
}

/// Size of the buffer the marker read fills: at most this many bytes of the
/// marker file are ever read back.
pub fn marker_read_limit() -> (r: usize)
    ensures
        r == 32,
{
    32
}

/// Half-period (ms) of the healthy indicator blink: the indicator is driven
/// high for this long, then low for this long, forever.
pub fn blink_half_period_ms() -> (r: u32)
    ensures
        r == 100,
{
    100
}

/// Period (ms) between two heartbeat messages of the fatal error handler.
pub fn fatal_heartbeat_ms() -> (r: u32)
    ensures
        r == 5000,
{
    5000
}

/// Level of the indicator during the k-th slot of the signaling loop: high
/// on even slots, low on odd ones, so consecutive slots always toggle.
pub fn indicator_level(slot: u64) -> (on: bool)
    ensures
        on == (slot % 2 == 0),
{
    slot % 2 == 0
}

} // verus!
