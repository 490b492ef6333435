//! Model of the two files the self-test touches on the card's root
//! directory, under the filesystem collaborator's byte-oriented contract:
//! opening a file in create-or-truncate mode and writing N bytes leaves the
//! file holding exactly those N bytes, and a read returns the file's content
//! up to the size of the read buffer.
//!
//! The round-trip verifier runs over this model; a driver that talks to a
//! real card performs the same operations through the filesystem library and
//! reports their outcomes as events to the state machine.

use vstd::prelude::*;

use crate::marker::{is_valid_marker, magic, marker_bytes, marker_verified};
use crate::policy::{artifact_text, artifact_text_spec};
use vstd::string::StringExecFns;

verus! {

/// Content of the files the self-test owns on the card; `None` stands for a
/// file that does not exist.
pub struct CardImage {
    /// Content of the marker file.
    pub marker: Option<Vec<u8>>,
    /// Content of the diagnostic artifact file.
    pub artifact: Option<String>,
}

/// What a read of the marker file returns: nothing when the file does not
/// exist, otherwise its content truncated to the 32-byte read buffer.
pub open spec fn read_back(file: Option<Seq<u8>>) -> Option<Seq<u8>> {
    match file {
        None => None,
        Some(c) => Some(if c.len() <= 32 { c } else { c.take(32) }),
    }
}

/// Content of the marker file after a create-or-truncate write of the magic
/// bytes: exactly the magic bytes, whatever was there before.
pub open spec fn marker_after_write(prior: Option<Seq<u8>>) -> Option<Seq<u8>> {
    Some(magic())
}

/// The verified flag a boot computes from the marker file it found: the
/// read-back bytes exist and form a valid marker.
pub open spec fn round_trip_verified(file: Option<Seq<u8>>) -> bool {
    match read_back(file) {
        None => false,
        Some(data) => is_valid_marker(data),
    }
}

impl CardImage {
    /// The marker file's content as a byte sequence.
    pub open spec fn marker_view(&self) -> Option<Seq<u8>> {
        match self.marker {
            None => None,
            Some(c) => Some(c@),
        }
    }

    /// The artifact file's content as a character sequence.
    pub open spec fn artifact_view(&self) -> Option<Seq<char>> {
        match self.artifact {
            None => None,
            Some(t) => Some(t@),
        }
    }

    /// A card with neither file, as a fresh one comes.
    pub fn fresh() -> (r: CardImage)
        ensures
            r.marker_view() is None,
            r.artifact_view() is None,
    {
        CardImage { marker: None, artifact: None }
    }

    /// Step A of the verifier: read the marker file into a 32-byte buffer.
    /// Returns nothing when the file does not exist — the expected outcome
    /// on a first boot — and the buffered prefix of its content otherwise.
    pub fn read_marker(&self) -> (r: Option<Vec<u8>>)
        ensures
            r is Some <==> read_back(self.marker_view()) is Some,
            r matches Some(data) ==> Some(data@) == read_back(self.marker_view()),
    {
        match &self.marker {
            None => None,
            Some(content) => {
                let n: usize = if content.len() <= 32 {
                    content.len()
                } else {
                    32
                };
                let mut buf: Vec<u8> = Vec::new();
                let mut i: usize = 0;
                while i < n
                    invariant
                        i <= n <= content.len(),
                        buf@ == content@.take(i as int),
                    decreases n - i,
                {
                    buf.push(content[i]);
                    proof {
                        assert(content@.take(i + 1 as int) =~= content@.take(i as int).push(
                            content@[i as int],
                        ));
                    }
                    i = i + 1;
                }
                proof {
                    if content@.len() <= 32 {
                        assert(buf@ =~= content@);
                    }
                }
                Some(buf)
            },
        }
    }

    /// Step B of the verifier: open the marker file in create-or-truncate
    /// mode and write exactly the two magic bytes.
    pub fn write_marker(&mut self)
        ensures
            final(self).marker_view() == marker_after_write(old(self).marker_view()),
            final(self).artifact == old(self).artifact,
    {
        self.marker = Some(marker_bytes());
    }

    /// Step C of the verifier: open the artifact file in create-or-truncate
    /// mode and write the fixed diagnostic text.
    pub fn write_artifact(&mut self)
        ensures
            final(self).artifact_view() == Some(artifact_text_spec()),
            final(self).marker == old(self).marker,
    {
        self.artifact = Some(String::from_str(artifact_text()));
    }

    /// The persistence round-trip verifier, run once per boot when every
    /// file operation succeeds: read the marker left by a prior boot and
    /// compute the verified flag from it, then rewrite the marker for the
    /// next boot, then rewrite the diagnostic artifact.
    pub fn verify_round_trip(&mut self) -> (verified: bool)
        ensures
            verified == round_trip_verified(old(self).marker_view()),
            final(self).marker_view() == marker_after_write(old(self).marker_view()),
            final(self).artifact_view() == Some(artifact_text_spec()),
    {
        let verified: bool = match self.read_marker() {
            None => false,
            Some(data) => marker_verified(&data),
        };
        self.write_marker();
        self.write_artifact();
        verified
    }
}

/// Law: the marker write is idempotent. Because the write truncates, its
/// outcome does not depend on the prior content: the file holds exactly the
/// two magic bytes afterwards, and writing again changes nothing.
pub proof fn marker_write_idempotent(prior: Option<Seq<u8>>)
    ensures
        marker_after_write(marker_after_write(prior)) == marker_after_write(prior),
        marker_after_write(prior) == Some(magic()),
        magic().len() == 2,
{
}

/// Law: round-trip correctness. A boot that reads a marker file written by
/// a prior boot — with no other writer in between — finds a valid marker
/// and sets the verified flag.
pub proof fn marker_round_trip(prior: Option<Seq<u8>>)
    ensures
        round_trip_verified(marker_after_write(prior)) == true,
{
    assert(magic().len() == 2);
    assert(magic()[0] == 0x42u8);
    assert(magic()[1] == 0x1Eu8);
}

/// Law: first-boot behavior. On a card with no marker file the read returns
/// nothing and the verified flag stays false.
pub proof fn first_boot_unverified()
    ensures
        read_back(None) is None,
        round_trip_verified(None) == false,
{
}

} // verus!
