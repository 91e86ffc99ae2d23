//! The floppy disk's phase.
use vstd::prelude::*;

verus! {

/// Whether the floppy disk floats free or sits in the computer.
#[derive(Debug, Clone, Copy, PartialEq, Eq, Structural)]
pub enum DisquettePhase {
    Free,
    Inserted,
}

impl From<DisquettePhase> for &'static str {
    fn from(value: DisquettePhase) -> (s: &'static str)
        ensures
            s == match value {
                DisquettePhase::Free => "Free",
                DisquettePhase::Inserted => "Inserted",
            },
    {
        match value {
            DisquettePhase::Free => "Free",
            DisquettePhase::Inserted => "Inserted",
        }
    }
}

impl vstd::std_specs::convert::FromSpecImpl<DisquettePhase> for &'static str {
    open spec fn obeys_from_spec() -> bool {
        true
    }

    open spec fn from_spec(v: DisquettePhase) -> &'static str {
        match v {
            DisquettePhase::Free => "Free",
            DisquettePhase::Inserted => "Inserted",
        }
    }
}

impl DisquettePhase {
    /// Whether the disk is in the computer.
    pub fn is_inserted(&self) -> (r: bool)
        ensures
            r == (*self == DisquettePhase::Inserted),
    {
        *self == DisquettePhase::Inserted
    }
}

} // verus!
