//! Running more than one instruction: until the program runs into the
//! interrupt vectors, or until a condition of the caller's holds.

use vstd::prelude::*;
use crate::cpu::registers::RegisterSet;
use crate::cpu::{Cpu, CpuView};
use crate::error::Error;

verus! {

/// An outcome whose count is `n` greater.
pub open spec fn counted(outcome: (CpuView, Result<nat, Error>), n: nat) -> (CpuView, Result<
    nat,
    Error,
>) {
    match outcome.1 {
        Ok(count) => (outcome.0, Ok(count + n)),
        Err(e) => (outcome.0, Err(e)),
    }
}

impl CpuView {
    /// The machine after the program ran for at most `limit` instructions,
    /// and the number of instructions that were run. The program ends before
    /// an instruction that would run into the interrupt vectors; a fault ends
    /// it where it stands. No interrupt is served.
    pub open spec fn start(self, limit: nat) -> (CpuView, Result<nat, Error>)
        decreases limit,
    {
        if limit == 0 {
            (self, Ok(0nat))
        } else {
            match self.next_instruction() {
                Ok(Some(instruction)) => {
                    let (after, outcome) = self.process(instruction);
                    match outcome {
                        Ok(_) => counted(after.start((limit - 1) as nat), 1),
                        Err(e) => (after, Err(e)),
                    }
                },
                Ok(None) => (self, Ok(0nat)),
                Err(e) => (self, Err(e)),
            }
        }
    }

    /// The machine after `n` steps, and whether all of them succeeded.
    /// Nothing is run after the first fault.
    pub open spec fn steps(self, n: nat) -> (CpuView, Result<(), Error>)
        decreases n,
    {
        if n == 0 {
            (self, Ok(()))
        } else {
            let (before, outcome) = self.steps((n - 1) as nat);
            if outcome is Ok {
                let (after, cycles) = before.step();
                match cycles {
                    Ok(_) => (after, Ok(())),
                    Err(e) => (after, Err(e)),
                }
            } else {
                (before, outcome)
            }
        }
    }
}

impl Cpu {
    /// Runs the program from the program counter on, for at most `limit`
    /// instructions, and returns the number of instructions that were run.
    /// The program ends before an instruction that would run into the
    /// interrupt vectors.
    pub fn start(&mut self, limit: u64) -> (r: Result<u64, Error>)
        ensures
            final(self)@ == old(self)@.start(limit as nat).0,
            match old(self)@.start(limit as nat).1 {
                Ok(count) => r == Ok::<u64, Error>(count as u64) && count <= limit,
                Err(e) => r == Err::<u64, Error>(e),
            },
    {
        let mut count: u64 = 0;
        while count < limit
            invariant
                count <= limit,
                old(self)@.start(limit as nat) == counted(
                    self@.start((limit - count) as nat),
                    count as nat,
                ),
            decreases limit - count,
        {
            let instruction = match self.determine_instruction_next() {
                Ok(Some(instruction)) => instruction,
                Ok(None) => {
                    return Ok(count);
                },
                Err(e) => {
                    return Err(e);
                },
            };
            match self.process_instruction(instruction) {
                Ok(_) => {},
                Err(e) => {
                    return Err(e);
                },
            }
            count = count + 1;
        }
        Ok(count)
    }

    /// Steps until `stop` holds of the registers, for at most `limit` steps,
    /// and returns the number of steps that were run. `stop` is asked before
    /// each step, of the registers as they stand then; it is not asked again
    /// once the limit is reached. A fault ends the run where it stands.
    pub fn run_until<F: Fn(&RegisterSet) -> bool>(&mut self, stop: F, limit: u64) -> (r: Result<
        u64,
        Error,
    >)
        requires
            forall|registers: &RegisterSet| call_requires(stop, (registers,)),
        ensures
            match r {
                Ok(n) => {
                    &&& n <= limit
                    &&& old(self)@.steps(n as nat) == (final(self)@, Ok::<(), Error>(()))
                    &&& went_on(stop, old(self)@, n as nat)
                    &&& n < limit ==> call_ensures(stop, (&final(self).registers,), true)
                },
                Err(e) => exists|n: nat|
                    {
                        &&& n < limit
                        &&& went_on(stop, old(self)@, n + 1)
                        &&& (#[trigger] old(self)@.steps(n + 1)) == (
                            final(self)@,
                            Err::<(), Error>(e),
                        )
                    },
            },
    {
        let mut count: u64 = 0;
        while count < limit
            invariant
                count <= limit,
                forall|registers: &RegisterSet| call_requires(stop, (registers,)),
                old(self)@.steps(count as nat) == (self@, Ok::<(), Error>(())),
                went_on(stop, old(self)@, count as nat),
            decreases limit - count,
        {
            if stop(&self.registers) {
                return Ok(count);
            }
            let ghost before = self@;
            let outcome = self.step();
            proof {
                assert((self@, outcome) == before.step());
                assert(went_on(stop, old(self)@, (count + 1) as nat));
            }
            match outcome {
                Ok(_) => {},
                Err(e) => {
                    assert(old(self)@.steps((count + 1) as nat) == (self@, Err::<(), Error>(e)));
                    return Err(e);
                },
            }
            count = count + 1;
        }
        Ok(count)
    }
}

/// Whether `stop` said to go on before each of the first `n` steps from
/// `start`: whether it did not hold of the registers as they stood after none,
/// one, and so on up to `n - 1` steps.
pub open spec fn went_on<F: Fn(&RegisterSet) -> bool>(stop: F, start: CpuView, n: nat) -> bool
    decreases n,
{
    n > 0 ==> {
        &&& went_on(stop, start, (n - 1) as nat)
        &&& start.steps((n - 1) as nat).1 is Ok
        &&& call_ensures(stop, (&start.steps((n - 1) as nat).0.registers,), false)
    }
}

} // verus!
