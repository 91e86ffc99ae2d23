//! The computer in the corner: its power phases, its power button, and the
//! operating system that shows while it runs.
use vstd::prelude::*;

use crate::greens::os::Os;

verus! {

/// The computer's power phase.
#[derive(Debug, Clone, Copy, PartialEq, Eq, Structural)]
pub enum ComputerPhase {
    Off,
    Booting,
    On,
    ShutDown,
}

/// The name of a computer phase.
pub open spec fn computer_phase_name(p: ComputerPhase) -> Seq<char> {
    match p {
        ComputerPhase::Off => "Off"@,
        ComputerPhase::Booting => "Booting"@,
        ComputerPhase::On => "On"@,
        ComputerPhase::ShutDown => "ShutDown"@,
    }
}

impl From<ComputerPhase> for &'static str {
    fn from(value: ComputerPhase) -> (s: &'static str)
        ensures
            s@ == computer_phase_name(value),
    {
        match value {
            ComputerPhase::Off => "Off",
            ComputerPhase::Booting => "Booting",
            ComputerPhase::On => "On",
            ComputerPhase::ShutDown => "ShutDown",
        }
    }
}

impl vstd::std_specs::convert::FromSpecImpl<ComputerPhase> for &'static str {
    open spec fn obeys_from_spec() -> bool {
        true
    }

    open spec fn from_spec(v: ComputerPhase) -> &'static str {
        match v {
            ComputerPhase::Off => "Off",
            ComputerPhase::Booting => "Booting",
            ComputerPhase::On => "On",
            ComputerPhase::ShutDown => "ShutDown",
        }
    }
}

/// What a click on the power button asks for.
#[derive(Debug, Clone, Copy, PartialEq, Eq, Structural)]
pub enum PowerButtonAction {
    On,
    Off,
}

impl From<PowerButtonAction> for &'static str {
    fn from(value: PowerButtonAction) -> (s: &'static str)
        ensures
            s@ == match value {
                PowerButtonAction::On => "On"@,
                PowerButtonAction::Off => "Off"@,
            },
    {
        match value {
            PowerButtonAction::On => "On",
            PowerButtonAction::Off => "Off",
        }
    }
}

impl vstd::std_specs::convert::FromSpecImpl<PowerButtonAction> for &'static str {
    open spec fn obeys_from_spec() -> bool {
        true
    }

    open spec fn from_spec(v: PowerButtonAction) -> &'static str {
        match v {
            PowerButtonAction::On => "On",
            PowerButtonAction::Off => "Off",
        }
    }
}

/// The computer's power phase and its operating system.
#[derive(Debug, Clone, Copy, PartialEq, Eq, Structural)]
pub struct ComputerState {
    pub phase: ComputerPhase,
    pub os: Os,
}

impl ComputerState {
    /// A computer that is off, with its system off.
    pub fn new() -> (c: Self)
        ensures
            c.phase == ComputerPhase::Off,
            c.os == Os::mirroring(ComputerPhase::Off),
    {
        ComputerState { phase: ComputerPhase::Off, os: Os::from(ComputerPhase::Off) }
    }

    /// Presses the power button: the computer boots.
    pub fn boot(&mut self)
        ensures
            final(self).phase == ComputerPhase::Booting,
            final(self).os == Os::mirroring(ComputerPhase::Booting),
    {
        self.phase = ComputerPhase::Booting;
        self.os = Os::from(self.phase);
    }

    /// The boot finished: the computer is on and its system runs.
    pub fn on(&mut self)
        ensures
            final(self).phase == ComputerPhase::On,
            final(self).os == Os::mirroring(ComputerPhase::On),
    {
        self.phase = ComputerPhase::On;
        self.os.set(self.phase);
        self.os.os_play();
    }

    /// The system quit: the computer is off again.
    pub fn shutdown(&mut self)
        ensures
            final(self).phase == ComputerPhase::Off,
            final(self).os == Os::mirroring(ComputerPhase::Off),
    {
        self.phase = ComputerPhase::Off;
        self.os.set(self.phase);
    }

    /// Whether the computer is in use: booting, on or shutting down. A
    /// computer that is off, never started or shut down again, can be
    /// started.
    pub fn already_used(&self) -> (r: bool)
        ensures
            r == (self.phase != ComputerPhase::Off),
    {
        self.phase != ComputerPhase::Off
    }
}

} // verus!
