use vstd::prelude::*;

verus! {

/// The registers that the exception vector saves on entry and restores on
/// return, in the order in which the vector stores them.
///
/// The vector keeps them on the kernel stack at these byte offsets: `ELR` 0,
/// `SPSR` 8, `SP` 16, `TPIDR` 24, `q` 32, `x1_x29` 544, `_reserved` 776,
/// `x30` 784, `x0` 792; 800 bytes in all. This type fixes the fields and
/// their order, not the offsets: whoever shares memory with the vector lays
/// the fields out as the vector does.
#[allow(non_snake_case)]
#[derive(Debug, Copy, Clone, PartialEq, Eq)]
pub struct TrapFrame {
    /// Address of the instruction to resume at.
    pub ELR: u64,
    /// Saved processor state: condition flags and the DAIF mask bits.
    pub SPSR: u64,
    /// Stack pointer of the interrupted code.
    pub SP: u64,
    /// Thread-pointer register; holds the ID of the process.
    pub TPIDR: u64,
    /// SIMD and floating-point registers q0..q31.
    pub q: [u128; 32],
    /// General-purpose registers x1..x29; `x1_x29[i]` is register x(i+1).
    pub x1_x29: [u64; 29],
    /// Padding that keeps the frame a multiple of 16 bytes.
    pub _reserved: u64,
    /// Link register.
    pub x30: u64,
    /// First argument and return value of a system call.
    pub x0: u64,
}

/// Bit 7 of `SPSR`: IRQs are masked while it is set.
pub const SPSR_IRQ_MASK: u64 = 0x80;

/// Bits 6 to 9 of `SPSR`: the D, A, I and F masks.
pub const SPSR_DAIF_MASK: u64 = 0x3c0;

/// Index in `x1_x29` of register x7, which carries the status of a system call.
pub const STATUS_REGISTER: usize = 6;

impl TrapFrame {
    /// Every register is zero.
    pub open spec fn is_zeroed(self) -> bool {
        &&& self.ELR == 0
        &&& self.SPSR == 0
        &&& self.SP == 0
        &&& self.TPIDR == 0
        &&& forall|i: int| 0 <= i < 32 ==> self.q[i] == 0
        &&& forall|i: int| 0 <= i < 29 ==> self.x1_x29[i] == 0
        &&& self._reserved == 0
        &&& self.x30 == 0
        &&& self.x0 == 0
    }

    /// The frame with the IRQ mask bit of `SPSR` cleared.
    pub open spec fn irq_unmasked(self) -> TrapFrame {
        TrapFrame { SPSR: self.SPSR & !SPSR_IRQ_MASK, ..self }
    }

    /// The frame with `value` in x0 and `status` in x7: what a system call
    /// hands back to its caller.
    pub open spec fn returned(self, value: u64, status: u64) -> TrapFrame {
        TrapFrame {
            x0: value,
            x1_x29: vstd::array::spec_array_update(self.x1_x29, STATUS_REGISTER as int, status),
            ..self
        }
    }

    /// Stores what a system call hands back: `value` in x0 and `status` in
    /// x7.
    pub fn set_return(&mut self, value: u64, status: u64)
        ensures
            *final(self) == old(self).returned(value, status),
    {
        self.x0 = value;
        self.x1_x29[STATUS_REGISTER] = status;
    }

    /// Clears the IRQ mask bit of `SPSR`, so that IRQs are taken again once
    /// the frame is returned to.
    pub fn unmask_irq(&mut self)
        ensures
            *final(self) == old(self).irq_unmasked(),
    {
        self.SPSR = self.SPSR & !SPSR_IRQ_MASK;
    }
}

impl Default for TrapFrame {
    fn default() -> (tf: TrapFrame)
        ensures
            tf.is_zeroed(),
    {
        TrapFrame {
            ELR: 0,
            SPSR: 0,
            SP: 0,
            TPIDR: 0,
            q: [0u128; 32],
            x1_x29: [0u64; 29],
            _reserved: 0,
            x30: 0,
            x0: 0,
        }
    }
}

/// Two zeroed frames are the same frame.
pub proof fn lemma_zeroed_is_unique(a: TrapFrame, b: TrapFrame)
    requires
        a.is_zeroed(),
        b.is_zeroed(),
    ensures
        a == b,
{
    assert(a.q =~= b.q);
    assert(a.x1_x29 =~= b.x1_x29);
}

/// `returned` changes x0 and x7 and no other register.
pub proof fn lemma_returned(tf: TrapFrame, value: u64, status: u64)
    ensures
        tf.returned(value, status).x0 == value,
        tf.returned(value, status).x1_x29[6] == status,
        forall|i: int| 0 <= i < 29 && i != 6 ==> tf.returned(value, status).x1_x29[i] == tf.x1_x29[i],
        tf.returned(value, status).ELR == tf.ELR,
        tf.returned(value, status).SPSR == tf.SPSR,
        tf.returned(value, status).SP == tf.SP,
        tf.returned(value, status).TPIDR == tf.TPIDR,
        tf.returned(value, status).q == tf.q,
        tf.returned(value, status).x30 == tf.x30,
        tf.returned(value, status)._reserved == tf._reserved,
{
}

/// Clearing the IRQ mask leaves bit 7 of `SPSR` clear and every other bit as
/// it was.
pub proof fn lemma_irq_unmasked_bits(tf: TrapFrame)
    ensures
        tf.irq_unmasked().SPSR & SPSR_IRQ_MASK == 0,
        tf.irq_unmasked().SPSR | (tf.SPSR & SPSR_IRQ_MASK) == tf.SPSR,
        tf.irq_unmasked().irq_unmasked() == tf.irq_unmasked(),
{
    let s = tf.SPSR;
    assert((s & !0x80u64) & 0x80u64 == 0) by (bit_vector);
    assert((s & !0x80u64) | (s & 0x80u64) == s) by (bit_vector);
    assert((s & !0x80u64) & !0x80u64 == s & !0x80u64) by (bit_vector);
}

} // verus!
