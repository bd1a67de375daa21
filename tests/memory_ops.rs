use gbcore::cpu::CPU;
use gbcore::instruction::{Address, Instruction, Source, WordReg};
use gbcore::registers::{ByteTarget, WordTarget};

#[test]
fn store_and_load_through_hl_increment() {
    let mut cpu = CPU::new();
    cpu.registers.set_word(0xC0FF, WordTarget::HL);
    cpu.registers.a = 0x5A;
    let next = cpu.execute(Instruction::STA(Address::HlIncrement));
    assert_eq!(next, 1);
    assert_eq!(cpu.bus.read_byte(0xC0FF), 0x5A);
    assert_eq!(cpu.registers.get_word(WordTarget::HL), 0xC100);
    cpu.registers.a = 0;
    cpu.execute(Instruction::LDA(Address::HlDecrement));
    assert_eq!(cpu.registers.get_word(WordTarget::HL), 0xC0FF);
    assert_eq!(cpu.registers.a, 0x00);
    cpu.execute(Instruction::LDA(Address::HlDecrement));
    assert_eq!(cpu.registers.a, 0x5A);
    assert_eq!(cpu.registers.get_word(WordTarget::HL), 0xC0FE);
}

#[test]
fn high_page_and_absolute_addresses() {
    let mut cpu = CPU::new();
    cpu.pc = 0x0400;
    cpu.bus.write_byte(0x0401, 0x80);
    cpu.bus.write_byte(0x0402, 0xD0);
    cpu.registers.a = 0x99;
    assert_eq!(cpu.execute(Instruction::STA(Address::HighImmediate)), 0x0402);
    assert_eq!(cpu.bus.read_byte(0xFF80), 0x99);
    assert_eq!(cpu.execute(Instruction::STA(Address::Absolute)), 0x0403);
    assert_eq!(cpu.bus.read_byte(0xD080), 0x99);
    cpu.registers.c = 0x80;
    cpu.registers.a = 0;
    assert_eq!(cpu.execute(Instruction::LDA(Address::HighC)), 0x0401);
    assert_eq!(cpu.registers.a, 0x99);
}

#[test]
fn stack_pointer_loads_and_stores() {
    let mut cpu = CPU::new();
    cpu.registers.set_word(0xABCD, WordTarget::HL);
    cpu.execute(Instruction::LDSPHL);
    assert_eq!(cpu.sp, 0xABCD);
    cpu.bus.write_byte(1, 0x00);
    cpu.bus.write_byte(2, 0xC0);
    assert_eq!(cpu.execute(Instruction::STSP), 3);
    assert_eq!(cpu.bus.read_byte(0xC000), 0xCD);
    assert_eq!(cpu.bus.read_byte(0xC001), 0xAB);
}

#[test]
fn add_hl_flags_keep_zero() {
    let mut cpu = CPU::new();
    cpu.registers.set_word(0x0FFF, WordTarget::HL);
    cpu.registers.set_word(0x0001, WordTarget::BC);
    cpu.registers.f.zero = true;
    cpu.execute(Instruction::ADDHL(WordReg::BC));
    assert_eq!(cpu.registers.get_word(WordTarget::HL), 0x1000);
    assert!(cpu.registers.f.zero && !cpu.registers.f.subtract);
    assert!(cpu.registers.f.half_carry && !cpu.registers.f.carry);
    cpu.registers.set_word(0x8000, WordTarget::HL);
    cpu.execute(Instruction::ADDHL(WordReg::HL));
    assert_eq!(cpu.registers.get_word(WordTarget::HL), 0x0000);
    assert!(!cpu.registers.f.half_carry && cpu.registers.f.carry);
}

#[test]
fn complement_and_carry_flag_ops() {
    let mut cpu = CPU::new();
    cpu.registers.a = 0x35;
    cpu.execute(Instruction::CPL);
    assert_eq!(cpu.registers.a, 0xCA);
    assert!(cpu.registers.f.subtract && cpu.registers.f.half_carry);
    cpu.execute(Instruction::SCF);
    assert!(cpu.registers.f.carry && !cpu.registers.f.subtract && !cpu.registers.f.half_carry);
    cpu.execute(Instruction::CCF);
    assert!(!cpu.registers.f.carry);
}

#[test]
fn decode_memory_loads() {
    assert_eq!(Instruction::from_byte(0x22, false), Some(Instruction::STA(Address::HlIncrement)));
    assert_eq!(Instruction::from_byte(0x1A, false), Some(Instruction::LDA(Address::DE)));
    assert_eq!(Instruction::from_byte(0xF0, false), Some(Instruction::LDA(Address::HighImmediate)));
    assert_eq!(Instruction::from_byte(0xEA, false), Some(Instruction::STA(Address::Absolute)));
    assert_eq!(Instruction::from_byte(0x08, false), Some(Instruction::STSP));
    assert_eq!(Instruction::from_byte(0x39, false), Some(Instruction::ADDHL(WordReg::SP)));
    assert_eq!(Instruction::from_byte(0x2F, false), Some(Instruction::CPL));
}

#[test]
fn decimal_adjust_after_add_and_sub() {
    let mut cpu = CPU::new();
    cpu.registers.a = 0x09;
    cpu.registers.b = 0x08;
    cpu.execute(Instruction::ADD(Source::Reg(ByteTarget::B)));
    assert_eq!(cpu.registers.a, 0x11);
    cpu.execute(Instruction::DAA);
    assert_eq!(cpu.registers.a, 0x17);
    assert!(!cpu.registers.f.carry && !cpu.registers.f.half_carry && !cpu.registers.f.zero);
    cpu.registers.a = 0x99;
    cpu.registers.b = 0x01;
    cpu.execute(Instruction::ADD(Source::Reg(ByteTarget::B)));
    cpu.execute(Instruction::DAA);
    assert_eq!(cpu.registers.a, 0x00);
    assert!(cpu.registers.f.carry && cpu.registers.f.zero);
    cpu.registers.a = 0x10;
    cpu.registers.f.carry = false;
    cpu.execute(Instruction::SUB(Source::Reg(ByteTarget::B)));
    assert_eq!(cpu.registers.a, 0x0F);
    cpu.execute(Instruction::DAA);
    assert_eq!(cpu.registers.a, 0x09);
    assert!(cpu.registers.f.subtract && !cpu.registers.f.carry);
}

#[test]
fn stack_pointer_plus_signed_offset() {
    let mut cpu = CPU::new();
    cpu.sp = 0xFFF8;
    cpu.bus.write_byte(1, 0x08);
    assert_eq!(cpu.execute(Instruction::ADDSP), 2);
    assert_eq!(cpu.sp, 0x0000);
    assert!(cpu.registers.f.half_carry && cpu.registers.f.carry);
    assert!(!cpu.registers.f.zero && !cpu.registers.f.subtract);
    cpu.sp = 0x0100;
    cpu.bus.write_byte(1, 0xFE);
    assert_eq!(cpu.execute(Instruction::LDHLSP), 2);
    assert_eq!(cpu.registers.get_word(WordTarget::HL), 0x00FE);
    assert_eq!(cpu.sp, 0x0100);
    assert!(!cpu.registers.f.half_carry && !cpu.registers.f.carry);
}
