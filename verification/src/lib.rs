//! Core of a boot-time storage self-test for a device with a removable
//! FAT-formatted card.
//!
//! The library holds the decision logic of the self-test: the two-byte
//! persistence marker and its validity check, a model of the marker and
//! artifact files under the filesystem's create-or-truncate semantics,
//! the decoding of directory entries into diagnostic lines, the policy
//! constants (bus speeds, delay periods, file names), and the boot-sequence
//! state machine that separates the one fatal failure gate (volume and root
//! directory open) from every recoverable failure.
//!
//! The hardware collaborators — the serial bus, the block-device driver,
//! the filesystem library and the diagnostic sink — perform the actual
//! transfers; a thin driver feeds their outcomes to the state machine as
//! events and carries out the actions it prescribes.

pub mod card;
pub mod listing;
pub mod machine;
pub mod marker;
pub mod policy;
