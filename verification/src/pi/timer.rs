use vstd::prelude::*;

verus! {

/// Offset of the system timer's register block from the base of the
/// peripherals.
pub const TIMER_OFFSET: usize = 0x3000;

/// The bit of `CS` that reports a match of compare register 1. Writing it as
/// one clears the match.
pub const CS_MATCH_1: u32 = 0b10;

/// The words of the system timer's register block, in the order in which they
/// lie in memory, four bytes each.
#[allow(non_snake_case)]
#[derive(Debug, Copy, Clone, PartialEq, Eq)]
pub struct Registers {
    /// Control and status: bits 0 to 3 report a match of channels 0 to 3.
    pub CS: u32,
    /// Low half of the free-running counter.
    pub CLO: u32,
    /// High half of the free-running counter.
    pub CHI: u32,
    /// The compare registers of channels 0 to 3.
    pub COMPARE: [u32; 4],
}

impl Registers {
    /// The 64-bit count of microseconds that the two halves of the counter
    /// make up.
    pub open spec fn counter(self) -> u64 {
        (self.CHI * 0x1_0000_0000 + self.CLO) as u64
    }

    /// The compare value that matches `us` microseconds after the counter's
    /// present value: the low 32 bits of their sum.
    pub open spec fn match_in(self, us: u32) -> u32 {
        ((self.counter() + us) % 0x1_0000_0000) as u32
    }

    /// The block with compare register 1 set to match in `us` microseconds
    /// and the match bit of channel 1 written to `CS`.
    pub open spec fn armed(self, us: u32) -> Registers {
        Registers {
            CS: CS_MATCH_1,
            COMPARE: vstd::array::spec_array_update(self.COMPARE, 1, self.match_in(us)),
            ..self
        }
    }
}

/// The time from `start` to `now` is `us` microseconds or more.
pub open spec fn spec_has_elapsed(start: u64, us: u64, now: u64) -> bool {
    start + us <= now
}

/// Whether `us` microseconds have passed at `now` since `start`.
#[verifier::when_used_as_spec(spec_has_elapsed)]
pub fn has_elapsed(start: u64, us: u64, now: u64) -> (elapsed: bool)
    ensures
        elapsed == spec_has_elapsed(start, us, now),
{
    now >= start && now - start >= us
}

/// The Raspberry Pi ARM system timer.
///
/// It works on a copy of the register block: the counter as it was read, and
/// after `tick_in` the words to store in compare register 1 and in `CS`.
#[derive(Debug)]
pub struct Timer {
    registers: Registers,
}

impl View for Timer {
    type V = Registers;

    closed spec fn view(&self) -> Registers {
        self.registers
    }
}

impl Timer {
    /// Returns a timer that works on `registers`.
    pub fn new(registers: Registers) -> (timer: Timer)
        ensures
            timer@ == registers,
    {
        Timer { registers }
    }

    /// The register block as it now is.
    pub fn registers(&self) -> (registers: Registers)
        ensures
            registers == self@,
    {
        self.registers
    }

    /// Reads the system timer's counter and returns the 64-bit counter value.
    /// The returned value is the number of elapsed microseconds.
    pub fn read(&self) -> (now: u64)
        ensures
            now == self@.counter(),
    {
        let high: u64 = self.registers.CHI as u64;
        let low: u64 = self.registers.CLO as u64;
        assert((high << 32) | low == high * 0x1_0000_0000 + low) by (bit_vector)
            requires
                high < 0x1_0000_0000,
                low < 0x1_0000_0000,
        ;
        (high << 32) | low
    }

    /// Sets up a match in timer 1 to occur `us` microseconds from now. If
    /// interrupts for timer 1 are enabled and IRQs are unmasked, then a timer
    /// interrupt will be issued in `us` microseconds.
    pub fn tick_in(&mut self, us: u32)
        ensures
            final(self)@ == old(self)@.armed(us),
    {
        let now: u64 = self.read();
        let future: u64 = now.wrapping_add(us as u64);
        assert(future & 0xFFFF_FFFF == future % 0x1_0000_0000) by (bit_vector);
        self.registers.COMPARE[1] = (future & 0xFFFF_FFFF) as u32;
        self.registers.CS = CS_MATCH_1;
    }
}

/// The counter is the high half shifted up by 32 bits with the low half below
/// it: each half is read back from it.
pub proof fn lemma_counter_halves(registers: Registers)
    ensures
        registers.counter() / 0x1_0000_0000 == registers.CHI,
        registers.counter() % 0x1_0000_0000 == registers.CLO,
{
}

} // verus!
