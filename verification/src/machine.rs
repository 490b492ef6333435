//! The boot-sequence state machine.
//!
//! The self-test advances through a fixed sequence of phases; each phase
//! prescribes one action for the driver to carry out against the hardware
//! collaborators, and the outcome comes back as an event that decides the
//! next phase. Volume-open and root-directory-open failures are the only
//! fatal ones; every other failure is logged and the sequence proceeds.
//! The two terminal phases — the healthy signaling loop and the fatal error
//! handler — absorb every further event.

use vstd::prelude::*;

use crate::marker::{is_valid_marker, marker_verified};

verus! {

/// Where the boot sequence stands.
#[derive(PartialEq, Eq, Structural, Clone, Copy, Debug)]
pub enum Phase {
    /// The storage device is constructed at the conservative bus speed; its
    /// capacity has not been queried yet.
    Start,
    /// The capacity query came back, with a byte count or with an error;
    /// either way the bus may now be raised to the operating speed.
    CapacityChecked,
    /// The bus runs at the operating speed; the volume is not open yet.
    FastBus,
    /// The volume is open; the root directory is not.
    VolumeReady,
    /// The root directory is open and can be enumerated.
    RootReady,
    /// The root directory's entries have been listed.
    Listed,
    /// The marker left by a prior boot has been read and checked, or found
    /// missing; `verified` is the flag the check produced.
    MarkerChecked { verified: bool },
    /// The fresh marker write was attempted, successfully or not.
    MarkerStored { verified: bool },
    /// The artifact write was attempted, successfully or not.
    ArtifactStored { verified: bool },
    /// All volumes are released; the indicator blinks forever. Terminal.
    Signaling { verified: bool },
    /// A mount failure was hit; the error heartbeat repeats forever.
    /// Terminal.
    Fatal,
}

/// The outcome of the action a phase prescribed.
pub enum Event {
    /// The capacity query returned a byte count.
    CapacityKnown { bytes: u64 },
    /// The capacity query failed. Recoverable: the device may still work.
    CapacityUnknown,
    /// The bus now runs at the operating speed.
    SpeedRaised,
    /// The volume at index 0 is open.
    VolumeOpened,
    /// The volume could not be opened. Fatal.
    VolumeFailed,
    /// The root directory is open.
    RootOpened,
    /// The root directory could not be opened. Fatal.
    RootFailed,
    /// Every entry of the root directory was listed.
    RootListed,
    /// The marker file was read; `data` holds the bytes that came back.
    MarkerData { data: Vec<u8> },
    /// The marker file could not be opened — expected on a first boot.
    MarkerMissing,
    /// The fresh marker was written and the file closed.
    MarkerSaved,
    /// The marker write failed. Recoverable.
    MarkerSaveFailed,
    /// The artifact was written and the file closed.
    ArtifactSaved,
    /// The artifact write failed. Recoverable.
    ArtifactSaveFailed,
    /// All volumes were released.
    Released,
}

/// The one action the driver is to carry out in a phase.
#[derive(PartialEq, Eq, Structural, Clone, Copy, Debug)]
pub enum Action {
    /// Query the device's capacity and log the outcome.
    QueryCapacity,
    /// Reconfigure the bus to the operating speed.
    RaiseBusSpeed,
    /// Open the volume at index 0.
    OpenVolume,
    /// Open the volume's root directory.
    OpenRootDir,
    /// Enumerate the root directory, one diagnostic line per entry.
    ListRootDir,
    /// Open the marker file read-only and read up to the buffer limit.
    ReadMarker,
    /// Open the marker file in create-or-truncate mode and write the magic
    /// bytes.
    WriteMarker,
    /// Open the artifact file in create-or-truncate mode and write the
    /// fixed text.
    WriteArtifact,
    /// Release all volumes; no file handle is open anymore.
    ReleaseVolumes,
    /// Toggle the indicator at the blink period, forever.
    BlinkForever,
    /// Log the error heartbeat at its period, forever.
    HaltForever,
}

/// The transition relation. An event a phase did not ask for changes
/// nothing: no external stimulus alters the sequence at runtime.
pub open spec fn spec_step(p: Phase, e: Event) -> Phase {
    match p {
        Phase::Start => match e {
            Event::CapacityKnown { .. } => Phase::CapacityChecked,
            Event::CapacityUnknown => Phase::CapacityChecked,
            _ => p,
        },
        Phase::CapacityChecked => match e {
            Event::SpeedRaised => Phase::FastBus,
            _ => p,
        },
        Phase::FastBus => match e {
            Event::VolumeOpened => Phase::VolumeReady,
            Event::VolumeFailed => Phase::Fatal,
            _ => p,
        },
        Phase::VolumeReady => match e {
            Event::RootOpened => Phase::RootReady,
            Event::RootFailed => Phase::Fatal,
            _ => p,
        },
        Phase::RootReady => match e {
            Event::RootListed => Phase::Listed,
            _ => p,
        },
        Phase::Listed => match e {
            Event::MarkerData { data } => Phase::MarkerChecked {
                verified: is_valid_marker(data@),
            },
            Event::MarkerMissing => Phase::MarkerChecked { verified: false },
            _ => p,
        },
        Phase::MarkerChecked { verified } => match e {
            Event::MarkerSaved => Phase::MarkerStored { verified },
            Event::MarkerSaveFailed => Phase::MarkerStored { verified },
            _ => p,
        },
        Phase::MarkerStored { verified } => match e {
            Event::ArtifactSaved => Phase::ArtifactStored { verified },
            Event::ArtifactSaveFailed => Phase::ArtifactStored { verified },
            _ => p,
        },
        Phase::ArtifactStored { verified } => match e {
            Event::Released => Phase::Signaling { verified },
            _ => p,
        },
        Phase::Signaling { .. } => p,
        Phase::Fatal => Phase::Fatal,
    }
}

/// Advances the machine by one event.
pub fn step(p: Phase, e: &Event) -> (next: Phase)
    ensures
        next == spec_step(p, *e),
{
    match p {
        Phase::Start => match e {
            Event::CapacityKnown { .. } => Phase::CapacityChecked,
            Event::CapacityUnknown => Phase::CapacityChecked,
            _ => p,
        },
        Phase::CapacityChecked => match e {
            Event::SpeedRaised => Phase::FastBus,
            _ => p,
        },
        Phase::FastBus => match e {
            Event::VolumeOpened => Phase::VolumeReady,
            Event::VolumeFailed => Phase::Fatal,
            _ => p,
        },
        Phase::VolumeReady => match e {
            Event::RootOpened => Phase::RootReady,
            Event::RootFailed => Phase::Fatal,
            _ => p,
        },
        Phase::RootReady => match e {
            Event::RootListed => Phase::Listed,
            _ => p,
        },
        Phase::Listed => match e {
            Event::MarkerData { data } => Phase::MarkerChecked {
                verified: marker_verified(data),
            },
            Event::MarkerMissing => Phase::MarkerChecked { verified: false },
            _ => p,
        },
        Phase::MarkerChecked { verified } => match e {
            Event::MarkerSaved => Phase::MarkerStored { verified },
            Event::MarkerSaveFailed => Phase::MarkerStored { verified },
            _ => p,
        },
        Phase::MarkerStored { verified } => match e {
            Event::ArtifactSaved => Phase::ArtifactStored { verified },
            Event::ArtifactSaveFailed => Phase::ArtifactStored { verified },
            _ => p,
        },
        Phase::ArtifactStored { verified } => match e {
            Event::Released => Phase::Signaling { verified },
            _ => p,
        },
        Phase::Signaling { .. } => p,
        Phase::Fatal => Phase::Fatal,
    }
}

/// The action a phase prescribes.
pub fn next_action(p: Phase) -> (a: Action)
    ensures
        p == Phase::Start ==> a == Action::QueryCapacity,
        p == Phase::CapacityChecked ==> a == Action::RaiseBusSpeed,
        p == Phase::FastBus ==> a == Action::OpenVolume,
        p == Phase::VolumeReady ==> a == Action::OpenRootDir,
        p == Phase::RootReady ==> a == Action::ListRootDir,
        p == Phase::Listed ==> a == Action::ReadMarker,
        p matches Phase::MarkerChecked { .. } ==> a == Action::WriteMarker,
        p matches Phase::MarkerStored { .. } ==> a == Action::WriteArtifact,
        p matches Phase::ArtifactStored { .. } ==> a == Action::ReleaseVolumes,
        p matches Phase::Signaling { .. } ==> a == Action::BlinkForever,
        p == Phase::Fatal ==> a == Action::HaltForever,
{
    match p {
        Phase::Start => Action::QueryCapacity,
        Phase::CapacityChecked => Action::RaiseBusSpeed,
        Phase::FastBus => Action::OpenVolume,
        Phase::VolumeReady => Action::OpenRootDir,
        Phase::RootReady => Action::ListRootDir,
        Phase::Listed => Action::ReadMarker,
        Phase::MarkerChecked { .. } => Action::WriteMarker,
        Phase::MarkerStored { .. } => Action::WriteArtifact,
        Phase::ArtifactStored { .. } => Action::ReleaseVolumes,
        Phase::Signaling { .. } => Action::BlinkForever,
        Phase::Fatal => Action::HaltForever,
    }
}

/// An event that makes the single fatal-failure gate fail.
pub open spec fn mount_failure(e: Event) -> bool {
    e is VolumeFailed || e is RootFailed
}

/// The phase after a whole sequence of events.
pub open spec fn run(p: Phase, es: Seq<Event>) -> Phase
    decreases es.len(),
{
    if es.len() == 0 {
        p
    } else {
        run(spec_step(p, es[0]), es.drop_first())
    }
}

/// Law (mount-failure isolation, single step): a step ends in the fatal
/// phase exactly when it started there or a mount failure hit the phase
/// that performs that mount. No other failure event is fatal.
pub proof fn step_fatal_iff_mount_failure(p: Phase, e: Event)
    ensures
        spec_step(p, e) == Phase::Fatal <==> (p == Phase::Fatal || (p == Phase::FastBus
            && e is VolumeFailed) || (p == Phase::VolumeReady && e is RootFailed)),
{
}

/// Law (mount-failure isolation, whole runs): a boot that never sees a
/// mount failure never reaches the fatal phase, whatever other failures
/// its events report.
pub proof fn no_mount_failure_never_fatal(p: Phase, es: Seq<Event>)
    requires
        p != Phase::Fatal,
        forall|i: int| 0 <= i < es.len() ==> !mount_failure(#[trigger] es[i]),
    ensures
        run(p, es) != Phase::Fatal,
    decreases es.len(),
{
    if es.len() > 0 {
        assert(!mount_failure(es[0]));
        let q = spec_step(p, es[0]);
        assert(q != Phase::Fatal);
        assert forall|i: int| 0 <= i < es.drop_first().len() implies !mount_failure(
            #[trigger] es.drop_first()[i],
        ) by {
            assert(es.drop_first()[i] == es[i + 1]);
        }
        no_mount_failure_never_fatal(q, es.drop_first());
    }
}

/// Law: the fatal phase is absorbing — no sequence of later events leaves
/// it, so in particular the signaling loop is never reached from it.
pub proof fn fatal_absorbing(es: Seq<Event>)
    ensures
        run(Phase::Fatal, es) == Phase::Fatal,
    decreases es.len(),
{
    if es.len() > 0 {
        fatal_absorbing(es.drop_first());
    }
}

/// Law: a volume-open or root-directory-open failure reaches the fatal
/// phase and stays there for good.
pub proof fn mount_failure_reaches_fatal(es: Seq<Event>)
    ensures
        run(spec_step(Phase::FastBus, Event::VolumeFailed), es) == Phase::Fatal,
        run(spec_step(Phase::VolumeReady, Event::RootFailed), es) == Phase::Fatal,
{
    fatal_absorbing(es);
}

/// Law: a missing marker file is handled gracefully — the machine moves on
/// with the verified flag unset instead of failing.
pub proof fn missing_marker_not_fatal()
    ensures
        spec_step(Phase::Listed, Event::MarkerMissing) == (Phase::MarkerChecked {
            verified: false,
        }),
{
}

/// Law: a boot that reads back exactly what the marker write of a prior
/// boot left on the card comes out verified.
pub proof fn machine_round_trip(prior: Option<Seq<u8>>, data: Vec<u8>)
    requires
        Some(data@) == crate::card::read_back(crate::card::marker_after_write(prior)),
    ensures
        spec_step(Phase::Listed, Event::MarkerData { data }) == (Phase::MarkerChecked {
            verified: true,
        }),
{
    assert(crate::marker::magic()[0] == 0x42u8);
    assert(crate::marker::magic()[1] == 0x1Eu8);
}

} // verus!
