use kernel::traps::{Fault, Syndrome};

fn encode(class: u32, iss: u32) -> u32 {
    (class << 26) | iss
}

#[test]
fn svc_one_decodes() {
    assert_eq!(Syndrome::from(0x5600_0001u32), Syndrome::Svc(1));
}

#[test]
fn brk_sixteen_decodes() {
    assert_eq!(Syndrome::from(0xF200_0010u32), Syndrome::Brk(16));
}

#[test]
fn data_abort_translation_same_level() {
    let esr: u32 = encode(0b100101, 0b000101);
    assert_eq!(Syndrome::from(esr), Syndrome::DataAbort { kind: Fault::Translation, level: 1 });
}

#[test]
fn classes_without_fields() {
    assert_eq!(Syndrome::from(encode(0b000000, 0)), Syndrome::Unknown);
    assert_eq!(Syndrome::from(encode(0b000001, 1)), Syndrome::WfiWfe);
    assert_eq!(Syndrome::from(encode(0b000011, 0)), Syndrome::McrMrc);
    assert_eq!(Syndrome::from(encode(0b000100, 0)), Syndrome::McrMrc);
    assert_eq!(Syndrome::from(encode(0b000110, 0)), Syndrome::LdcStc);
    assert_eq!(Syndrome::from(encode(0b000111, 0)), Syndrome::SimdFp);
    assert_eq!(Syndrome::from(encode(0b001000, 0)), Syndrome::Vmrs);
    assert_eq!(Syndrome::from(encode(0b001100, 0)), Syndrome::Mrrc);
    assert_eq!(Syndrome::from(encode(0b001110, 0)), Syndrome::IllegalExecutionState);
    assert_eq!(Syndrome::from(encode(0b011000, 0)), Syndrome::MsrMrsSystem);
    assert_eq!(Syndrome::from(encode(0b100010, 0)), Syndrome::PCAlignmentFault);
    assert_eq!(Syndrome::from(encode(0b100110, 0)), Syndrome::SpAlignmentFault);
    assert_eq!(Syndrome::from(encode(0b101000, 0)), Syndrome::TrappedFpu);
    assert_eq!(Syndrome::from(encode(0b101100, 0)), Syndrome::TrappedFpu);
    assert_eq!(Syndrome::from(encode(0b101111, 0)), Syndrome::SError);
    assert_eq!(Syndrome::from(encode(0b110000, 0)), Syndrome::Breakpoint);
    assert_eq!(Syndrome::from(encode(0b110001, 0)), Syndrome::Breakpoint);
    assert_eq!(Syndrome::from(encode(0b110010, 0)), Syndrome::Step);
    assert_eq!(Syndrome::from(encode(0b110011, 0)), Syndrome::Step);
    assert_eq!(Syndrome::from(encode(0b110100, 0)), Syndrome::Watchpoint);
    assert_eq!(Syndrome::from(encode(0b110101, 0)), Syndrome::Watchpoint);
}

#[test]
fn immediates_are_the_low_sixteen_bits() {
    assert_eq!(Syndrome::from(encode(0b010001, 0x1ff_abcd)), Syndrome::Svc(0xabcd));
    assert_eq!(Syndrome::from(encode(0b010101, 0xffff)), Syndrome::Svc(0xffff));
    assert_eq!(Syndrome::from(encode(0b010010, 7)), Syndrome::Hvc(7));
    assert_eq!(Syndrome::from(encode(0b010110, 0x1_0008)), Syndrome::Hvc(8));
    assert_eq!(Syndrome::from(encode(0b010011, 9)), Syndrome::Smc(9));
    assert_eq!(Syndrome::from(encode(0b010111, 10)), Syndrome::Smc(10));
    assert_eq!(Syndrome::from(encode(0b111000, 0x12_3456)), Syndrome::Brk(0x3456));
    assert_eq!(Syndrome::from(encode(0b111100, 3)), Syndrome::Brk(3));
}

#[test]
fn instruction_length_bit_is_not_read() {
    let with: u32 = encode(0b010101, 1) | (1 << 25);
    let without: u32 = encode(0b010101, 1);
    assert_eq!(Syndrome::from(with), Syndrome::from(without));
    assert_eq!(Syndrome::from(encode(0b100010, 0) | (1 << 25)), Syndrome::PCAlignmentFault);
}

#[test]
fn aborts_carry_fault_and_level() {
    assert_eq!(
        Syndrome::from(encode(0b100000, 0b001101)),
        Syndrome::InstructionAbort { kind: Fault::Permission, level: 0 }
    );
    assert_eq!(
        Syndrome::from(encode(0b100001, 0b100001)),
        Syndrome::InstructionAbort { kind: Fault::Alignment, level: 1 }
    );
    assert_eq!(
        Syndrome::from(encode(0b100100, 0b001000)),
        Syndrome::DataAbort { kind: Fault::AccessFlag, level: 0 }
    );
    assert_eq!(
        Syndrome::from(encode(0b100101, 0x1ff_ffc0)),
        Syndrome::DataAbort { kind: Fault::AddressSize, level: 1 }
    );
}

#[test]
fn other_carries_class_or_syndrome() {
    assert_eq!(Syndrome::from(encode(0b001001, 5)), Syndrome::Other(0b001001));
    assert_eq!(Syndrome::from(encode(0b111010, 5)), Syndrome::Other(0b111010));
    assert_eq!(Syndrome::from(encode(0b000010, 5)), Syndrome::Other(0b000010));
    assert_eq!(Syndrome::from(encode(0b111111, 0x1ff_ffff)), Syndrome::Other(0b111111));
    assert_eq!(Syndrome::from(encode(0b011001, 5)), Syndrome::Other(5));
    assert_eq!(Syndrome::from(encode(0b011010, 0x1ff_ffff)), Syndrome::Other(0x1ff_ffff));
    assert_eq!(Syndrome::from(encode(0b011111, 0)), Syndrome::Other(0));
}

#[test]
fn no_class_decodes_to_a_coprocessor_pair() {
    let mut class: u32 = 0;
    while class < 64 {
        assert_ne!(Syndrome::from(encode(class, 0)), Syndrome::McrrMrrc);
        class += 1;
    }
}

#[test]
fn fault_codes() {
    assert_eq!(Fault::from(0b000000), Fault::AddressSize);
    assert_eq!(Fault::from(0b000011), Fault::AddressSize);
    assert_eq!(Fault::from(0b000100), Fault::Translation);
    assert_eq!(Fault::from(0b000111), Fault::Translation);
    assert_eq!(Fault::from(0b001000), Fault::AccessFlag);
    assert_eq!(Fault::from(0b001011), Fault::AccessFlag);
    assert_eq!(Fault::from(0b001100), Fault::Other(0b001100));
    assert_eq!(Fault::from(0b001101), Fault::Permission);
    assert_eq!(Fault::from(0b001111), Fault::Permission);
    assert_eq!(Fault::from(0b010000), Fault::Other(0b010000));
    assert_eq!(Fault::from(0b100001), Fault::Alignment);
    assert_eq!(Fault::from(0b110000), Fault::TlbConflict);
    assert_eq!(Fault::from(0b111111), Fault::Other(0b111111));
}

#[test]
fn fault_reads_six_bits_only() {
    assert_eq!(Fault::from(0xffff_ffc5), Fault::Translation);
    assert_eq!(Fault::from(0x40), Fault::AddressSize);
    assert_eq!(Fault::from(0x1_0000 | 0b110000), Fault::TlbConflict);
}
