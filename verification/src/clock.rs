//! The tick clock: it turns the frame times of the host, which come in
//! microseconds, into the whole milliseconds in which the simulation
//! counts, and loses none of the time on the way.
use vstd::prelude::*;

verus! {

/// The microseconds in a millisecond.
pub const MICROS_PER_MILLI: u64 = 1_000;

/// The clock of the simulation. It keeps the part of a millisecond that
/// the frames so far have left over.
#[derive(Clone, Copy, Debug, PartialEq, Eq, Structural)]
pub struct TickClock {
    carry: u32,
}

impl View for TickClock {
    type V = int;

    /// The microseconds that are kept for the next tick.
    closed spec fn view(&self) -> int {
        self.carry as int
    }
}

impl TickClock {
    /// Less than a millisecond is ever kept.
    #[verifier::type_invariant]
    spec fn short(self) -> bool {
        self.carry < MICROS_PER_MILLI
    }

    /// A clock that keeps nothing yet.
    pub fn new() -> (clock: TickClock)
        ensures
            clock@ == 0,
    {
        TickClock { carry: 0 }
    }

    /// The microseconds that are kept for the next tick.
    pub fn carry(&self) -> (micros: u32)
        ensures
            micros == self@,
            micros < MICROS_PER_MILLI,
    {
        proof {
            use_type_invariant(self);
        }
        self.carry
    }

    /// The length of the tick for a frame that took `micros` microseconds:
    /// the whole milliseconds in that time and in what was kept, of which
    /// the rest is kept in turn. So the ticks and what is kept add up to
    /// the time that has passed, exactly. Only a frame of more than
    /// `u32::MAX` milliseconds, seven weeks, is cut to that length.
    pub fn advance(&mut self, micros: u64) -> (ms: u32)
        ensures
            0 <= final(self)@ < MICROS_PER_MILLI,
            (old(self)@ + micros) / 1000 <= u32::MAX ==> ms * 1000 + final(self)@ == old(self)@
                + micros,
            (old(self)@ + micros) / 1000 > u32::MAX ==> ms == u32::MAX && final(self)@ == 0,
    {
        proof {
            use_type_invariant(&*self);
        }
        let whole: u64 = micros / 1000;
        let part: u64 = micros % 1000 + self.carry as u64;
        let ms: u64 = whole + part / 1000;
        if ms > u32::MAX as u64 {
            self.carry = 0;
            u32::MAX
        } else {
            self.carry = (part % 1000) as u32;
            ms as u32
        }
    }
}

} // verus!
