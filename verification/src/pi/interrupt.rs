use vstd::prelude::*;

verus! {

/// Offset of the interrupt controller's register block from the base of the
/// peripherals.
pub const INT_OFFSET: usize = 0xB200;

/// The interrupt lines that are wired.
#[derive(Debug, Copy, Clone, PartialEq, Eq)]
pub enum Interrupt {
    Timer1,
    Timer3,
    Usb,
    Gpio0,
    Gpio1,
    Gpio2,
    Gpio3,
    Uart,
}

impl Interrupt {
    /// The number of the line.
    pub open spec fn spec_line(&self) -> u32 {
        match self {
            Interrupt::Timer1 => 1,
            Interrupt::Timer3 => 3,
            Interrupt::Usb => 9,
            Interrupt::Gpio0 => 49,
            Interrupt::Gpio1 => 50,
            Interrupt::Gpio2 => 51,
            Interrupt::Gpio3 => 52,
            Interrupt::Uart => 57,
        }
    }

    /// The line is in the second bank of 32 lines, not the first.
    pub open spec fn in_second_bank(&self) -> bool {
        self.line() >= 32
    }

    /// The bit that stands for the line in the registers of its bank.
    pub open spec fn position(&self) -> u32 {
        (self.line() % 32) as u32
    }

    /// The word that has the line's bit set and no other.
    pub open spec fn mask(&self) -> u32 {
        1u32 << self.position()
    }

    /// The number of the line.
    #[verifier::when_used_as_spec(spec_line)]
    pub fn line(&self) -> (line: u32)
        ensures
            line == self.spec_line(),
    {
        match self {
            Interrupt::Timer1 => 1,
            Interrupt::Timer3 => 3,
            Interrupt::Usb => 9,
            Interrupt::Gpio0 => 49,
            Interrupt::Gpio1 => 50,
            Interrupt::Gpio2 => 51,
            Interrupt::Gpio3 => 52,
            Interrupt::Uart => 57,
        }
    }
}

/// The words of the controller's register block, in the order in which they
/// lie in memory, four bytes each.
#[allow(non_snake_case)]
#[derive(Debug, Copy, Clone, PartialEq, Eq)]
pub struct Registers {
    pub IRQ_Basic_Pending: u32,
    pub IRQ_Pending_1: u32,
    pub IRQ_Pending_2: u32,
    pub FIQ_Control: u32,
    pub Enable_IRQ_1: u32,
    pub Enable_IRQ_2: u32,
    pub Enable_Basic_IRQs: u32,
    pub Disable_IRQ_1: u32,
    pub Disable_IRQ_2: u32,
    pub Disable_Basic_IRQs: u32,
}

/// Bit `k` of `word` is set.
pub open spec fn bit(word: u32, k: u32) -> bool {
    (word >> k) & 1 == 1
}

impl Registers {
    /// The block with the bit of `interrupt` set in the enable register of its
    /// bank.
    pub open spec fn enabled(self, interrupt: Interrupt) -> Registers {
        if interrupt.in_second_bank() {
            Registers { Enable_IRQ_2: self.Enable_IRQ_2 | interrupt.mask(), ..self }
        } else {
            Registers { Enable_IRQ_1: self.Enable_IRQ_1 | interrupt.mask(), ..self }
        }
    }

    /// The block with the bit of `interrupt` set in the disable register of its
    /// bank.
    pub open spec fn disabled(self, interrupt: Interrupt) -> Registers {
        if interrupt.in_second_bank() {
            Registers { Disable_IRQ_2: self.Disable_IRQ_2 | interrupt.mask(), ..self }
        } else {
            Registers { Disable_IRQ_1: self.Disable_IRQ_1 | interrupt.mask(), ..self }
        }
    }

    /// The bit of `interrupt` is set in the pending register of its bank.
    pub open spec fn pending(self, interrupt: Interrupt) -> bool {
        if interrupt.in_second_bank() {
            self.IRQ_Pending_2 & interrupt.mask() != 0
        } else {
            self.IRQ_Pending_1 & interrupt.mask() != 0
        }
    }
}

impl Default for Registers {
    /// Every word is zero.
    fn default() -> (registers: Registers)
        ensures
            registers == (Registers {
                IRQ_Basic_Pending: 0,
                IRQ_Pending_1: 0,
                IRQ_Pending_2: 0,
                FIQ_Control: 0,
                Enable_IRQ_1: 0,
                Enable_IRQ_2: 0,
                Enable_Basic_IRQs: 0,
                Disable_IRQ_1: 0,
                Disable_IRQ_2: 0,
                Disable_Basic_IRQs: 0,
            }),
    {
        Registers {
            IRQ_Basic_Pending: 0,
            IRQ_Pending_1: 0,
            IRQ_Pending_2: 0,
            FIQ_Control: 0,
            Enable_IRQ_1: 0,
            Enable_IRQ_2: 0,
            Enable_Basic_IRQs: 0,
            Disable_IRQ_1: 0,
            Disable_IRQ_2: 0,
            Disable_Basic_IRQs: 0,
        }
    }
}

/// An interrupt controller. Used to enable and disable interrupts as well as
/// to check if an interrupt is pending.
///
/// It works on a copy of the register block. The enable and disable registers
/// act on the lines whose bits are written as one and leave the others alone,
/// so a controller made from a block of zeros holds, after `enable` or
/// `disable`, the words to store.
#[derive(Debug)]
pub struct Controller {
    registers: Registers,
}

impl View for Controller {
    type V = Registers;

    closed spec fn view(&self) -> Registers {
        self.registers
    }
}

impl Controller {
    /// Returns a controller that works on `registers`.
    pub fn new(registers: Registers) -> (controller: Controller)
        ensures
            controller@ == registers,
    {
        Controller { registers }
    }

    /// The register block as it now is.
    pub fn registers(&self) -> (registers: Registers)
        ensures
            registers == self@,
    {
        self.registers
    }

    /// Enables the interrupt `interrupt`.
    pub fn enable(&mut self, interrupt: Interrupt)
        ensures
            final(self)@ == old(self)@.enabled(interrupt),
    {
        let line: u32 = interrupt.line();
        if line >= 32 {
            let adjust: u32 = line - 32;
            self.registers.Enable_IRQ_2 = self.registers.Enable_IRQ_2 | (1u32 << adjust);
        } else {
            self.registers.Enable_IRQ_1 = self.registers.Enable_IRQ_1 | (1u32 << line);
        }
    }

    /// Disables the interrupt `interrupt`.
    pub fn disable(&mut self, interrupt: Interrupt)
        ensures
            final(self)@ == old(self)@.disabled(interrupt),
    {
        let line: u32 = interrupt.line();
        if line >= 32 {
            let adjust: u32 = line - 32;
            self.registers.Disable_IRQ_2 = self.registers.Disable_IRQ_2 | (1u32 << adjust);
        } else {
            self.registers.Disable_IRQ_1 = self.registers.Disable_IRQ_1 | (1u32 << line);
        }
    }

    /// Returns `true` if `interrupt` is pending. Otherwise, returns `false`.
    pub fn is_pending(&self, interrupt: Interrupt) -> (pending: bool)
        ensures
            pending == self@.pending(interrupt),
    {
        let line: u32 = interrupt.line();
        if line >= 32 {
            let adjust: u32 = line - 32;
            self.registers.IRQ_Pending_2 & (1u32 << adjust) != 0
        } else {
            self.registers.IRQ_Pending_1 & (1u32 << line) != 0
        }
    }
}

/// Setting the mask of bit `b` in a word sets that bit and leaves every other
/// bit as it was, and a word has a bit in common with the mask exactly when
/// bit `b` of it is set.
pub proof fn lemma_mask_bits(word: u32, b: u32, k: u32)
    requires
        b < 32,
        k < 32,
    ensures
        bit(word | (1u32 << b), k) == (k == b || bit(word, k)),
        (word & (1u32 << b) != 0) == bit(word, b),
{
    assert(((word | (1u32 << b)) >> k) & 1 == 1 <==> (k == b || (word >> k) & 1 == 1))
        by (bit_vector)
        requires
            b < 32,
            k < 32,
    ;
    assert((word & (1u32 << b) != 0) <==> ((word >> b) & 1 == 1)) by (bit_vector)
        requires
            b < 32,
    ;
}

/// Enabling a line sets the bit of the line in the enable register of its
/// bank: the first bank for lines below 32, the second for the others, where
/// line `n` has bit `n - 32`. No other bit of the block changes.
pub proof fn lemma_enabled_bits(registers: Registers, interrupt: Interrupt, k: u32)
    requires
        k < 32,
    ensures
        interrupt.position() == if interrupt.line() >= 32 {
            interrupt.line() - 32
        } else {
            interrupt.line() as int
        },
        interrupt.in_second_bank() ==> {
            &&& bit(registers.enabled(interrupt).Enable_IRQ_2, k) == (k == interrupt.position() || bit(
                registers.Enable_IRQ_2,
                k,
            ))
            &&& registers.enabled(interrupt).Enable_IRQ_1 == registers.Enable_IRQ_1
        },
        !interrupt.in_second_bank() ==> {
            &&& bit(registers.enabled(interrupt).Enable_IRQ_1, k) == (k == interrupt.position() || bit(
                registers.Enable_IRQ_1,
                k,
            ))
            &&& registers.enabled(interrupt).Enable_IRQ_2 == registers.Enable_IRQ_2
        },
        registers.pending(interrupt) == if interrupt.in_second_bank() {
            bit(registers.IRQ_Pending_2, interrupt.position())
        } else {
            bit(registers.IRQ_Pending_1, interrupt.position())
        },
{
    lemma_mask_bits(registers.Enable_IRQ_1, interrupt.position(), k);
    lemma_mask_bits(registers.Enable_IRQ_2, interrupt.position(), k);
    lemma_mask_bits(registers.IRQ_Pending_1, interrupt.position(), k);
    lemma_mask_bits(registers.IRQ_Pending_2, interrupt.position(), k);
}

} // verus!
