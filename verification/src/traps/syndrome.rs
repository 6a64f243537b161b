use vstd::prelude::*;

verus! {

/// The cause of an instruction or data abort.
#[derive(Debug, PartialEq, Eq, Copy, Clone)]
pub enum Fault {
    AddressSize,
    Translation,
    AccessFlag,
    Permission,
    Alignment,
    TlbConflict,
    Other(u8),
}

/// What the exception syndrome register says about a synchronous exception.
#[derive(Debug, PartialEq, Eq, Copy, Clone)]
pub enum Syndrome {
    Unknown,
    WfiWfe,
    McrMrc,
    McrrMrrc,
    LdcStc,
    SimdFp,
    Vmrs,
    Mrrc,
    IllegalExecutionState,
    Svc(u16),
    Hvc(u16),
    Smc(u16),
    MsrMrsSystem,
    InstructionAbort { kind: Fault, level: u8 },
    PCAlignmentFault,
    DataAbort { kind: Fault, level: u8 },
    SpAlignmentFault,
    TrappedFpu,
    SError,
    Breakpoint,
    Step,
    Watchpoint,
    Brk(u16),
    Other(u32),
}

/// The exception class: bits 31 to 26 of the syndrome register.
pub open spec fn exception_class(esr: u32) -> u32 {
    esr / 0x400_0000
}

/// The instruction-specific syndrome: bits 24 to 0 of the syndrome register.
pub open spec fn instruction_specific(esr: u32) -> u32 {
    esr % 0x200_0000
}

/// The 16-bit immediate of SVC, HVC, SMC and BRK: the low half of the
/// instruction-specific syndrome.
pub open spec fn immediate(iss: u32) -> u16 {
    (iss % 0x1_0000) as u16
}

/// The syndrome word that has `class` in bits 31 to 26, bit 25 clear and `iss`
/// in bits 24 to 0.
pub open spec fn encode(class: u32, iss: u32) -> u32 {
    (class * 0x400_0000 + iss) as u32
}

impl Fault {
    /// The fault that a six-bit fault status code stands for.
    pub open spec fn of_code(code: u32) -> Fault {
        if code <= 0b000011 {
            Fault::AddressSize
        } else if code <= 0b000111 {
            Fault::Translation
        } else if code <= 0b001011 {
            Fault::AccessFlag
        } else if 0b001101 <= code <= 0b001111 {
            Fault::Permission
        } else if code == 0b100001 {
            Fault::Alignment
        } else if code == 0b110000 {
            Fault::TlbConflict
        } else {
            Fault::Other(code as u8)
        }
    }

    /// The fault that an instruction-specific syndrome reports: its low six
    /// bits are the fault status code.
    pub open spec fn of_syndrome(val: u32) -> Fault {
        Fault::of_code(val % 64)
    }
}

impl Syndrome {
    /// The syndrome for an exception class and an instruction-specific
    /// syndrome.
    ///
    /// Aborts carry level 0 when they come from a lower exception level and
    /// level 1 when they come from the same level. The three reserved classes
    /// `0b011001`, `0b011010` and `0b011111` carry the instruction-specific
    /// syndrome in `Other`; every other class without a variant of its own
    /// carries the class.
    pub open spec fn of_class(class: u32, iss: u32) -> Syndrome {
        if class == 0b000000 {
            Syndrome::Unknown
        } else if class == 0b000001 {
            Syndrome::WfiWfe
        } else if class == 0b000011 || class == 0b000100 {
            Syndrome::McrMrc
        } else if class == 0b000110 {
            Syndrome::LdcStc
        } else if class == 0b000111 {
            Syndrome::SimdFp
        } else if class == 0b001000 {
            Syndrome::Vmrs
        } else if class == 0b001100 {
            Syndrome::Mrrc
        } else if class == 0b001110 {
            Syndrome::IllegalExecutionState
        } else if class == 0b010001 || class == 0b010101 {
            Syndrome::Svc(immediate(iss))
        } else if class == 0b010010 || class == 0b010110 {
            Syndrome::Hvc(immediate(iss))
        } else if class == 0b010011 || class == 0b010111 {
            Syndrome::Smc(immediate(iss))
        } else if class == 0b011000 {
            Syndrome::MsrMrsSystem
        } else if class == 0b011001 || class == 0b011010 || class == 0b011111 {
            Syndrome::Other(iss)
        } else if class == 0b100000 {
            Syndrome::InstructionAbort { kind: Fault::of_syndrome(iss), level: 0 }
        } else if class == 0b100001 {
            Syndrome::InstructionAbort { kind: Fault::of_syndrome(iss), level: 1 }
        } else if class == 0b100010 {
            Syndrome::PCAlignmentFault
        } else if class == 0b100100 {
            Syndrome::DataAbort { kind: Fault::of_syndrome(iss), level: 0 }
        } else if class == 0b100101 {
            Syndrome::DataAbort { kind: Fault::of_syndrome(iss), level: 1 }
        } else if class == 0b100110 {
            Syndrome::SpAlignmentFault
        } else if class == 0b101000 || class == 0b101100 {
            Syndrome::TrappedFpu
        } else if class == 0b101111 {
            Syndrome::SError
        } else if class == 0b110000 || class == 0b110001 {
            Syndrome::Breakpoint
        } else if class == 0b110010 || class == 0b110011 {
            Syndrome::Step
        } else if class == 0b110100 || class == 0b110101 {
            Syndrome::Watchpoint
        } else if class == 0b111000 || class == 0b111100 {
            Syndrome::Brk(immediate(iss))
        } else {
            Syndrome::Other(class)
        }
    }

    /// The syndrome that a value of the syndrome register decodes to.
    pub open spec fn decode(esr: u32) -> Syndrome {
        Syndrome::of_class(exception_class(esr), instruction_specific(esr))
    }
}

impl vstd::std_specs::convert::FromSpecImpl<u32> for Fault {
    open spec fn obeys_from_spec() -> bool {
        true
    }

    open spec fn from_spec(val: u32) -> Fault {
        Fault::of_syndrome(val)
    }
}

impl From<u32> for Fault {
    /// Reads the fault status code in the low six bits of `val`.
    fn from(val: u32) -> (fault: Fault) {
        let code: u32 = val & 0x3f;
        assert(val & 0x3f == val % 64) by (bit_vector);
        if code <= 0b000011 {
            Fault::AddressSize
        } else if code <= 0b000111 {
            Fault::Translation
        } else if code <= 0b001011 {
            Fault::AccessFlag
        } else if 0b001101 <= code && code <= 0b001111 {
            Fault::Permission
        } else if code == 0b100001 {
            Fault::Alignment
        } else if code == 0b110000 {
            Fault::TlbConflict
        } else {
            Fault::Other(code as u8)
        }
    }
}

impl vstd::std_specs::convert::FromSpecImpl<u32> for Syndrome {
    open spec fn obeys_from_spec() -> bool {
        true
    }

    open spec fn from_spec(esr: u32) -> Syndrome {
        Syndrome::decode(esr)
    }
}

impl From<u32> for Syndrome {
    /// Decodes a value of the syndrome register.
    fn from(esr: u32) -> (syndrome: Syndrome) {
        let class: u32 = esr >> 26;
        let iss: u32 = esr & 0x1ff_ffff;
        let imm: u16 = (iss & 0xffff) as u16;
        assert(esr >> 26 == esr / 0x400_0000) by (bit_vector);
        assert(esr & 0x1ff_ffff == esr % 0x200_0000) by (bit_vector);
        assert(iss & 0xffff == iss % 0x1_0000) by (bit_vector);
        match class {
            0b000000 => Syndrome::Unknown,
            0b000001 => Syndrome::WfiWfe,
            0b000011 | 0b000100 => Syndrome::McrMrc,
            0b000110 => Syndrome::LdcStc,
            0b000111 => Syndrome::SimdFp,
            0b001000 => Syndrome::Vmrs,
            0b001100 => Syndrome::Mrrc,
            0b001110 => Syndrome::IllegalExecutionState,
            0b010001 | 0b010101 => Syndrome::Svc(imm),
            0b010010 | 0b010110 => Syndrome::Hvc(imm),
            0b010011 | 0b010111 => Syndrome::Smc(imm),
            0b011000 => Syndrome::MsrMrsSystem,
            0b011001 | 0b011010 | 0b011111 => Syndrome::Other(iss),
            0b100000 => Syndrome::InstructionAbort { kind: Fault::from(iss), level: 0 },
            0b100001 => Syndrome::InstructionAbort { kind: Fault::from(iss), level: 1 },
            0b100010 => Syndrome::PCAlignmentFault,
            0b100100 => Syndrome::DataAbort { kind: Fault::from(iss), level: 0 },
            0b100101 => Syndrome::DataAbort { kind: Fault::from(iss), level: 1 },
            0b100110 => Syndrome::SpAlignmentFault,
            0b101000 | 0b101100 => Syndrome::TrappedFpu,
            0b101111 => Syndrome::SError,
            0b110000 | 0b110001 => Syndrome::Breakpoint,
            0b110010 | 0b110011 => Syndrome::Step,
            0b110100 | 0b110101 => Syndrome::Watchpoint,
            0b111000 | 0b111100 => Syndrome::Brk(imm),
            x => Syndrome::Other(x),
        }
    }
}

/// A class of six bits and an instruction-specific syndrome of 25 bits are
/// read back unchanged from the word that `encode` makes of them, so the word
/// decodes to the syndrome of that class.
pub proof fn lemma_decode_encode(class: u32, iss: u32)
    requires
        class < 64,
        iss < 0x200_0000,
    ensures
        exception_class(encode(class, iss)) == class,
        instruction_specific(encode(class, iss)) == iss,
        Syndrome::decode(encode(class, iss)) == Syndrome::of_class(class, iss),
{
    let word: int = class * 0x400_0000 + iss;
    assert(0 <= word < 0x1_0000_0000) by (nonlinear_arith)
        requires
            word == class * 0x400_0000 + iss,
            class < 64,
            iss < 0x200_0000,
    ;
    assert(word / 0x400_0000 == class && word % 0x200_0000 == iss) by (nonlinear_arith)
        requires
            word == class * 0x400_0000 + iss,
            class < 64,
            0 <= iss < 0x200_0000,
    ;
}

/// The immediate of SVC, HVC, SMC and BRK is the low 16 bits of the syndrome
/// register, whatever the bits above them hold.
pub proof fn lemma_immediate_of_word(esr: u32)
    ensures
        immediate(instruction_specific(esr)) == esr % 0x1_0000,
{
    assert((esr % 0x200_0000) % 0x1_0000 == esr % 0x1_0000) by (bit_vector);
}

} // verus!
