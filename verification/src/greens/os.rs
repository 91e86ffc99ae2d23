//! The computer's operating system.
use vstd::prelude::*;

use crate::greens::computer::ComputerPhase;

verus! {

/// The state of the operating system.
#[derive(Debug, Clone, Copy, PartialEq, Eq, Structural)]
pub enum OsState {
    Booting,
    On,
    ShutDown,
    Off,
}

/// The system state that mirrors a computer phase.
pub open spec fn os_state_of(p: ComputerPhase) -> OsState {
    match p {
        ComputerPhase::Off => OsState::Off,
        ComputerPhase::Booting => OsState::Booting,
        ComputerPhase::On => OsState::On,
        ComputerPhase::ShutDown => OsState::ShutDown,
    }
}

/// The computer phase that mirrors a system state.
pub open spec fn phase_of(s: OsState) -> ComputerPhase {
    match s {
        OsState::Booting => ComputerPhase::Booting,
        OsState::On => ComputerPhase::On,
        OsState::ShutDown => ComputerPhase::ShutDown,
        OsState::Off => ComputerPhase::Off,
    }
}

impl From<OsState> for ComputerPhase {
    fn from(value: OsState) -> (p: Self)
        ensures
            p == phase_of(value),
    {
        match value {
            OsState::Booting => ComputerPhase::Booting,
            OsState::On => ComputerPhase::On,
            OsState::ShutDown => ComputerPhase::ShutDown,
            OsState::Off => ComputerPhase::Off,
        }
    }
}

impl From<ComputerPhase> for OsState {
    fn from(value: ComputerPhase) -> (s: Self)
        ensures
            s == os_state_of(value),
    {
        match value {
            ComputerPhase::Off => OsState::Off,
            ComputerPhase::Booting => OsState::Booting,
            ComputerPhase::On => OsState::On,
            ComputerPhase::ShutDown => OsState::ShutDown,
        }
    }
}

impl vstd::std_specs::convert::FromSpecImpl<OsState> for ComputerPhase {
    open spec fn obeys_from_spec() -> bool {
        true
    }

    open spec fn from_spec(v: OsState) -> ComputerPhase {
        phase_of(v)
    }
}

impl vstd::std_specs::convert::FromSpecImpl<ComputerPhase> for OsState {
    open spec fn obeys_from_spec() -> bool {
        true
    }

    open spec fn from_spec(v: ComputerPhase) -> OsState {
        os_state_of(v)
    }
}

/// The two conversions undo each other: a phase survives the trip through
/// the system state, and a system state the trip through the phase.
pub proof fn lemma_phase_state_round_trip(p: ComputerPhase, s: OsState)
    ensures
        phase_of(os_state_of(p)) == p,
        os_state_of(phase_of(s)) == s,
{
}

/// The operating system of the computer.
#[derive(Debug, Clone, Copy, PartialEq, Eq, Structural)]
pub struct Os {
    state: OsState,
}

impl Os {
    /// The system's state.
    pub closed spec fn state(&self) -> OsState {
        self.state
    }

    /// The system as it stands when the computer is in phase `p`.
    pub closed spec fn mirroring(p: ComputerPhase) -> Os {
        Os { state: os_state_of(p) }
    }

    /// A system that is off.
    pub fn new() -> (o: Self)
        ensures
            o.state() == OsState::Off,
    {
        Self { state: OsState::Off }
    }

    /// The system mirroring a computer phase.
    pub fn from(phase: ComputerPhase) -> (o: Self)
        ensures
            o == Os::mirroring(phase),
            o.state() == os_state_of(phase),
    {
        Self { state: OsState::from(phase) }
    }

    /// Moves the system to the state mirroring a computer phase.
    pub fn set(&mut self, phase: ComputerPhase)
        ensures
            *final(self) == Os::mirroring(phase),
            final(self).state() == os_state_of(phase),
    {
        self.state = OsState::from(phase);
    }

    /// Starts the system's game; it has none yet, so nothing happens.
    pub fn os_play(&self) {
    }

    /// Quits the system's game; nothing to do.
    pub fn os_quit() {
    }
}

impl Default for Os {
    fn default() -> (o: Self)
        ensures
            o.state() == OsState::Off,
    {
        Self { state: OsState::Off }
    }
}

} // verus!
