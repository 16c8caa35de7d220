//! The cycle counter.

use vstd::prelude::*;

verus! {

/// The television standard that a machine was built for. It decides the
/// nominal frequency of the processor and nothing about what an instruction
/// does.
#[derive(Clone, Copy, Debug, PartialEq, Eq, Structural)]
pub enum ClockMode {
    Ntsc,
    Pal,
    Dendy,
}

/// A count of the cycles that have passed, and the frequency, in cycles per
/// second, at which they nominally pass.
#[derive(Clone, Copy, Debug, PartialEq, Eq, Structural)]
pub struct Clock {
    pub mode: ClockMode,
    pub speed: u32,
    pub cycles: u64,
}

impl Clock {
    /// The nominal frequency of the processor, in cycles per second.
    pub open spec fn spec_determine_speed(mode: ClockMode) -> u32 {
        match mode {
            ClockMode::Ntsc => 1_789_773,
            ClockMode::Pal => 1_662_607,
            ClockMode::Dendy => 1_773_448,
        }
    }

    /// The clock after `cycles` more cycles. The count never decreases: it
    /// stays at the largest value that it can hold.
    pub open spec fn ticked(self, cycles: u8) -> Clock {
        Clock {
            mode: self.mode,
            speed: self.speed,
            cycles: if self.cycles + cycles > u64::MAX {
                u64::MAX
            } else {
                (self.cycles + cycles) as u64
            },
        }
    }

    /// A clock of the given standard on which no cycle has passed.
    pub fn new(mode: ClockMode) -> (clock: Clock)
        ensures
            clock == (Clock { mode, speed: Self::spec_determine_speed(mode), cycles: 0 }),
    {
        Clock { mode, speed: Self::determine_speed(mode), cycles: 0 }
    }

    /// Lets `cycles` cycles pass.
    pub fn tick(&mut self, cycles: u8)
        ensures
            *final(self) == old(self).ticked(cycles),
            final(self).cycles >= old(self).cycles,
    {
        let step: u64 = cycles as u64;
        if step > u64::MAX - self.cycles {
            self.cycles = u64::MAX;
        } else {
            self.cycles = self.cycles + step;
        }
    }

    /// The nominal frequency of the processor, in cycles per second.
    #[verifier::when_used_as_spec(spec_determine_speed)]
    pub fn determine_speed(mode: ClockMode) -> (speed: u32)
        ensures
            speed == Self::spec_determine_speed(mode),
    {
        match mode {
            ClockMode::Ntsc => 1_789_773,
            ClockMode::Pal => 1_662_607,
            ClockMode::Dendy => 1_773_448,
        }
    }

    /// The cycles that have passed.
    pub fn cycles(&self) -> (cycles: u64)
        ensures
            cycles == self.cycles,
    {
        self.cycles
    }
}

} // verus!
