use vstd::prelude::*;

use crate::cpu::{step, DecodeError, Drawable, Instruction, Registers, CPU};

verus! {

/// Emulated cycles in one second.
pub const FREQUENCY: u32 = 4_194_304;

pub const NANOS_PER_SECOND: u64 = 1_000_000_000;

/// State and result after executing instructions from `r`, `m` until their
/// cycle costs reach `budget`, or until one cannot be executed.
pub open spec fn run_for(r: Registers, m: Seq<u8>, budget: int) -> (Registers, Seq<u8>, Result<
    (),
    DecodeError,
>)
    decreases budget,
{
    if budget <= 0 {
        (r, m, Ok(()))
    } else {
        let (r1, m1, res) = step(r, m, m[r.pc as int]);
        match res {
            Ok(i) => if 0 < i.spec_cycles() < budget {
                run_for(r1, m1, budget - i.spec_cycles())
            } else {
                (r1, m1, Ok(()))
            },
            Err(e) => (r1, m1, Err(e)),
        }
    }
}

/// Every instruction takes at least four cycles.
pub proof fn lemma_cycles_positive(i: Instruction)
    ensures
        i.spec_cycles() >= 4,
{
}

/// How long to pause, in nanoseconds, after a second's worth of cycles that
/// took `elapsed` nanoseconds of real time.
pub open spec fn pause_after(elapsed: u64) -> u64 {
    if elapsed < NANOS_PER_SECOND {
        (NANOS_PER_SECOND - elapsed) as u64
    } else {
        0
    }
}

/// A second's worth of cycles that ran in less than a second of real time is
/// followed by a pause for exactly the rest of that second; one that took a
/// second or more is followed by none.
pub proof fn lemma_pause_fills_second(elapsed: u64)
    ensures
        elapsed < NANOS_PER_SECOND ==> pause_after(elapsed) > 0 && elapsed + pause_after(elapsed)
            == NANOS_PER_SECOND,
        elapsed >= NANOS_PER_SECOND ==> pause_after(elapsed) == 0,
{
}

/// Counts the emulated cycles spent in the current second.
pub struct Scheduler {
    pub cycles: u32,
}

impl Scheduler {
    pub fn new() -> (r: Self)
        ensures
            r.cycles == 0,
    {
        Scheduler { cycles: 0 }
    }

    /// Whether a second's worth of cycles has run.
    pub fn batch_complete(&self) -> (r: bool)
        ensures
            r == (self.cycles >= FREQUENCY),
    {
        self.cycles >= FREQUENCY
    }

    /// Counts an executed instruction of `cost` cycles.
    pub fn record(&mut self, cost: u8)
        requires
            old(self).cycles < FREQUENCY,
        ensures
            final(self).cycles == old(self).cycles + cost,
    {
        self.cycles = self.cycles + cost as u32;
    }

    /// Closes the second: resets the counter and returns how long to pause so
    /// that it lasts one second of real time.
    pub fn end_second(&mut self, elapsed_nanos: u64) -> (pause: u64)
        ensures
            pause == pause_after(elapsed_nanos),
            final(self).cycles == 0,
    {
        self.cycles = 0;
        if elapsed_nanos < NANOS_PER_SECOND {
            NANOS_PER_SECOND - elapsed_nanos
        } else {
            0
        }
    }
}

/// Executes instructions, presenting a frame after each, until the cycles of
/// the current second reach `FREQUENCY` or an instruction cannot run.
pub fn run_second<T: Drawable>(cpu: &mut CPU<T>, clock: &mut Scheduler) -> (r: Result<
    (),
    DecodeError,
>)
    requires
        old(cpu).wf(),
    ensures
        final(cpu).wf(),
        (final(cpu).registers, final(cpu).memory.memory@, r) == run_for(
            old(cpu).registers,
            old(cpu).memory.memory@,
            FREQUENCY - old(clock).cycles,
        ),
        r is Ok ==> final(clock).cycles >= FREQUENCY,
        final(cpu).memory.map == old(cpu).memory.map,
        final(cpu).memory.rom_size == old(cpu).memory.rom_size,
{
    while !clock.batch_complete()
        invariant
            cpu.wf(),
            cpu.memory.map == old(cpu).memory.map,
            cpu.memory.rom_size == old(cpu).memory.rom_size,
            run_for(cpu.registers, cpu.memory.memory@, FREQUENCY - clock.cycles) == run_for(
                old(cpu).registers,
                old(cpu).memory.memory@,
                FREQUENCY - old(clock).cycles,
            ),
        decreases
                if clock.cycles < FREQUENCY {
                    FREQUENCY - clock.cycles
                } else {
                    0
                },
    {
        let instruction = cpu.cycle();
        match instruction {
            Ok(i) => {
                proof {
                    lemma_cycles_positive(i);
                }
                clock.record(i.data().cycles);
            },
            Err(e) => {
                return Err(e);
            },
        }
    }
    Ok(())
}

} // verus!
