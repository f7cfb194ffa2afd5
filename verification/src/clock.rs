//! The frame clock: frame times come in microseconds, the farm ticks in whole
//! milliseconds, and what is left of a frame is carried into the next.

use vstd::prelude::*;

verus! {

/// Microseconds in one millisecond.
pub const MICROS_PER_MILLI: u64 = 1000;

/// The microseconds of past frames that have not made a whole millisecond
/// yet.
#[derive(Clone, Copy, Debug, PartialEq, Eq, Structural)]
pub struct Clock {
    /// Fewer than a thousand after every frame.
    pub carry: u32,
}

impl Default for Clock {
    /// A clock that carries nothing.
    fn default() -> (clock: Clock)
        ensures
            clock == (Clock { carry: 0 }),
    {
        Clock { carry: 0 }
    }
}

impl Clock {
    /// The whole milliseconds that the carry and a frame of `micros`
    /// microseconds make together, as far as thirty-two bits count.
    pub open spec fn millis(self, micros: u64) -> int {
        let whole = (self.carry + micros) / (MICROS_PER_MILLI as int);
        if whole > u32::MAX {
            u32::MAX as int
        } else {
            whole
        }
    }

    /// The clock after a frame of `micros` microseconds: it carries what the
    /// whole milliseconds leave over, and nothing after a frame too long to
    /// count.
    pub open spec fn advanced(self, micros: u64) -> Clock {
        let run = self.carry + micros;
        if run / (MICROS_PER_MILLI as int) > u32::MAX {
            Clock { carry: 0 }
        } else {
            Clock { carry: (run % (MICROS_PER_MILLI as int)) as u32 }
        }
    }

    /// Takes a frame of `micros` microseconds and gives the whole
    /// milliseconds for the farm to tick.
    pub fn advance(&mut self, micros: u64) -> (millis: u32)
        ensures
            millis == old(self).millis(micros),
            *final(self) == old(self).advanced(micros),
            final(self).carry < MICROS_PER_MILLI,
            old(self).millis(micros) < u32::MAX ==> millis * MICROS_PER_MILLI + final(self).carry
                == old(self).carry + micros,
    {
        let run: u128 = self.carry as u128 + micros as u128;
        let whole: u128 = run / MICROS_PER_MILLI as u128;
        if whole > u32::MAX as u128 {
            self.carry = 0;
            u32::MAX
        } else {
            self.carry = (run % MICROS_PER_MILLI as u128) as u32;
            whole as u32
        }
    }
}

} // verus!
