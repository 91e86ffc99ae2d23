//! Fixed-rate game ticks under a variable frame rate: each frame adds the
//! time since the previous one, at most `MAX_FRAME_NS`, to an accumulator,
//! and the game runs one tick for each whole `TICK_NS` in it.
use vstd::prelude::*;

verus! {

/// The length of a game tick: a sixtieth of a second, in nanoseconds.
pub const TICK_NS: u64 = 16_666_667;

/// The most time one frame may account for, in nanoseconds.
pub const MAX_FRAME_NS: u64 = 100_000_000;

/// The time a frame accounts for: what elapsed since the previous frame,
/// capped at `MAX_FRAME_NS`; nothing for the first frame.
pub open spec fn frame_time(elapsed_ns: Option<u64>) -> int {
    match elapsed_ns {
        Some(e) => if e < MAX_FRAME_NS {
            e as int
        } else {
            MAX_FRAME_NS as int
        },
        None => 0,
    }
}

/// A frame counts for exactly the time since the previous one, unless that
/// is `MAX_FRAME_NS` or more, when it counts for `MAX_FRAME_NS`; the first
/// frame counts for nothing. A frame never counts for more than it lasted.
pub proof fn lemma_frame_time(e: u64)
    ensures
        e < MAX_FRAME_NS ==> frame_time(Some(e)) == e,
        e >= MAX_FRAME_NS ==> frame_time(Some(e)) == MAX_FRAME_NS,
        0 <= frame_time(Some(e)) <= e,
        frame_time(None) == 0,
{
}

/// The time not yet turned into ticks.
pub struct FrameClock {
    accumulator_ns: u64,
}

impl View for FrameClock {
    type V = int;

    closed spec fn view(&self) -> int {
        self.accumulator_ns as int
    }
}

impl FrameClock {
    #[verifier::type_invariant]
    spec fn less_than_a_tick(&self) -> bool {
        self.accumulator_ns < TICK_NS
    }

    /// No time accumulated.
    pub fn new() -> (c: FrameClock)
        ensures
            c@ == 0,
    {
        FrameClock { accumulator_ns: 0 }
    }

    /// The time accumulated, in nanoseconds: always less than a tick.
    pub fn accumulated_ns(&self) -> (a: u64)
        ensures
            a == self@,
            a < TICK_NS,
    {
        proof {
            use_type_invariant(self);
        }
        self.accumulator_ns
    }

    /// A new frame, `elapsed_ns` after the previous one (`None` for the
    /// first): returns how many game ticks to run, and keeps the remainder.
    pub fn advance(&mut self, elapsed_ns: Option<u64>) -> (ticks: u64)
        ensures
            ticks == (old(self)@ + frame_time(elapsed_ns)) / (TICK_NS as int),
            final(self)@ == (old(self)@ + frame_time(elapsed_ns)) % (TICK_NS as int),
            ticks * TICK_NS + final(self)@ == old(self)@ + frame_time(elapsed_ns),
            final(self)@ < TICK_NS,
            elapsed_ns is Some && elapsed_ns.unwrap() < MAX_FRAME_NS
                ==> ticks * TICK_NS + final(self)@ == old(self)@ + elapsed_ns.unwrap(),
            elapsed_ns is Some && elapsed_ns.unwrap() >= MAX_FRAME_NS
                ==> ticks * TICK_NS + final(self)@ == old(self)@ + MAX_FRAME_NS,
            elapsed_ns is None ==> ticks == 0 && final(self)@ == old(self)@,
    {
        proof {
            use_type_invariant(&*self);
        }
        let dt: u64 = match elapsed_ns {
            Some(e) => if e < MAX_FRAME_NS {
                e
            } else {
                MAX_FRAME_NS
            },
            None => 0,
        };
        let mut acc: u64 = self.accumulator_ns + dt;
        let total: Ghost<int> = Ghost(acc as int);
        let mut ticks: u64 = 0;
        while acc >= TICK_NS
            invariant
                ticks * TICK_NS + acc == total@,
                total@ < TICK_NS + MAX_FRAME_NS,
            decreases acc,
        {
            acc = acc - TICK_NS;
            ticks = ticks + 1;
        }
        proof {
            assert(ticks == total@ / (TICK_NS as int) && acc == total@ % (TICK_NS as int)) by (
            nonlinear_arith)
                requires
                    ticks * TICK_NS + acc == total@,
                    0 <= acc < TICK_NS,
                    ticks >= 0,
            ;
        }
        self.accumulator_ns = acc;
        ticks
    }
}

} // verus!
