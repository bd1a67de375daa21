use gbcore::cpu::CPU;
use gbcore::instruction::{Instruction, JumpTest, Place, Source, WordReg};
use gbcore::registers::{ByteTarget, WordTarget};

fn reg(t: ByteTarget) -> Source {
    Source::Reg(t)
}

fn flags(cpu: &CPU) -> (bool, bool, bool, bool) {
    let f = cpu.registers.f;
    (f.zero, f.subtract, f.half_carry, f.carry)
}

#[test]
fn add_flags_for_all_pairs() {
    let mut cpu = CPU::new();
    for a in 0u16..=255 {
        for b in 0u16..=255 {
            cpu.registers.a = a as u8;
            cpu.registers.b = b as u8;
            let next = cpu.execute(Instruction::ADD(reg(ByteTarget::B)));
            assert_eq!(next, 1);
            assert_eq!(cpu.registers.a as u16, (a + b) % 256);
            assert_eq!(cpu.registers.f.carry, a + b > 0xFF);
            assert_eq!(cpu.registers.f.half_carry, (a & 0xF) + (b & 0xF) > 0xF);
            assert_eq!(cpu.registers.f.zero, (a + b) % 256 == 0);
            assert!(!cpu.registers.f.subtract);
        }
    }
}

#[test]
fn add_example() {
    let mut cpu = CPU::new();
    cpu.registers.a = 0x3A;
    cpu.registers.b = 0xC6;
    cpu.execute(Instruction::ADD(reg(ByteTarget::B)));
    assert_eq!(cpu.registers.a, 0);
    assert_eq!(flags(&cpu), (true, false, true, true));
}

#[test]
fn adc_uses_carry_in() {
    let mut cpu = CPU::new();
    cpu.registers.a = 0x0F;
    cpu.registers.c = 0x00;
    cpu.registers.f.carry = true;
    cpu.execute(Instruction::ADC(reg(ByteTarget::C)));
    assert_eq!(cpu.registers.a, 0x10);
    assert_eq!(flags(&cpu), (false, false, true, false));
    cpu.registers.a = 0xFF;
    cpu.registers.f.carry = true;
    cpu.execute(Instruction::ADC(reg(ByteTarget::C)));
    assert_eq!(cpu.registers.a, 0x00);
    assert_eq!(flags(&cpu), (true, false, true, true));
}

#[test]
fn sub_self_for_all_values() {
    let mut cpu = CPU::new();
    for a in 0u16..=255 {
        cpu.registers.a = a as u8;
        cpu.registers.f.carry = a % 2 == 0;
        cpu.execute(Instruction::SUB(reg(ByteTarget::A)));
        assert_eq!(cpu.registers.a, 0);
        assert_eq!(flags(&cpu), (true, true, false, false));
    }
}

#[test]
fn sub_borrow() {
    let mut cpu = CPU::new();
    cpu.registers.a = 0x10;
    cpu.registers.d = 0x01;
    cpu.execute(Instruction::SUB(reg(ByteTarget::D)));
    assert_eq!(cpu.registers.a, 0x0F);
    assert_eq!(flags(&cpu), (false, true, true, false));
    cpu.registers.a = 0x00;
    cpu.execute(Instruction::SUB(reg(ByteTarget::D)));
    assert_eq!(cpu.registers.a, 0xFF);
    assert_eq!(flags(&cpu), (false, true, true, true));
}

#[test]
fn sbc_subtracts_carry() {
    let mut cpu = CPU::new();
    cpu.registers.a = 0x05;
    cpu.registers.e = 0x05;
    cpu.registers.f.carry = true;
    cpu.execute(Instruction::SBC(reg(ByteTarget::E)));
    assert_eq!(cpu.registers.a, 0xFF);
    assert_eq!(flags(&cpu), (false, true, true, true));
}

#[test]
fn cp_keeps_a() {
    let mut cpu = CPU::new();
    cpu.registers.a = 0x42;
    cpu.registers.h = 0x42;
    cpu.execute(Instruction::CP(reg(ByteTarget::H)));
    assert_eq!(cpu.registers.a, 0x42);
    assert_eq!(flags(&cpu), (true, true, false, false));
}

#[test]
fn logic_flags() {
    let mut cpu = CPU::new();
    cpu.registers.a = 0xF0;
    cpu.registers.l = 0x0F;
    cpu.execute(Instruction::AND(reg(ByteTarget::L)));
    assert_eq!(cpu.registers.a, 0x00);
    assert_eq!(flags(&cpu), (true, false, true, false));
    cpu.registers.a = 0xF0;
    cpu.execute(Instruction::OR(reg(ByteTarget::L)));
    assert_eq!(cpu.registers.a, 0xFF);
    assert_eq!(flags(&cpu), (false, false, false, false));
    cpu.execute(Instruction::XOR(reg(ByteTarget::A)));
    assert_eq!(cpu.registers.a, 0x00);
    assert_eq!(flags(&cpu), (true, false, false, false));
}

#[test]
fn immediate_operand_reads_next_byte() {
    let mut cpu = CPU::new();
    cpu.pc = 0x0100;
    cpu.bus.write_byte(0x0101, 0x22);
    cpu.registers.a = 0x11;
    let next = cpu.execute(Instruction::ADD(Source::Immediate));
    assert_eq!(next, 0x0102);
    assert_eq!(cpu.registers.a, 0x33);
    let next = cpu.execute(Instruction::LD(Source::Immediate, Place::Reg(ByteTarget::D)));
    assert_eq!(next, 0x0102);
    assert_eq!(cpu.registers.d, 0x22);
}

#[test]
fn inc_dec_round_trip_keeps_carry() {
    let mut cpu = CPU::new();
    let places = [
        Place::Reg(ByteTarget::A),
        Place::Reg(ByteTarget::B),
        Place::Reg(ByteTarget::H),
        Place::Reg(ByteTarget::L),
        Place::HlIndirect,
    ];
    for p in places {
        for v in 0u16..=255 {
            for carry in [false, true] {
                cpu.registers.h = 0xC0;
                cpu.registers.l = 0x00;
                match p {
                    Place::Reg(t) => cpu.registers.set_byte(v as u8, t),
                    Place::HlIndirect => cpu.bus.write_byte(0xC000, v as u8),
                }
                cpu.registers.f.carry = carry;
                cpu.execute(Instruction::INC(p));
                assert_eq!(cpu.registers.f.carry, carry);
                cpu.execute(Instruction::DEC(p));
                assert_eq!(cpu.registers.f.carry, carry);
                let back = match p {
                    Place::Reg(t) => cpu.registers.get_byte(t),
                    Place::HlIndirect => cpu.bus.read_byte(0xC000),
                };
                assert_eq!(back as u16, v);
            }
        }
    }
}

#[test]
fn inc_dec_flags() {
    let mut cpu = CPU::new();
    cpu.registers.b = 0x0F;
    cpu.execute(Instruction::INC(Place::Reg(ByteTarget::B)));
    assert_eq!(cpu.registers.b, 0x10);
    assert_eq!(flags(&cpu), (false, false, true, false));
    cpu.registers.b = 0xFF;
    cpu.registers.f.carry = true;
    cpu.execute(Instruction::INC(Place::Reg(ByteTarget::B)));
    assert_eq!(cpu.registers.b, 0x00);
    assert_eq!(flags(&cpu), (true, false, true, true));
    cpu.execute(Instruction::DEC(Place::Reg(ByteTarget::B)));
    assert_eq!(cpu.registers.b, 0xFF);
    assert_eq!(flags(&cpu), (false, true, true, true));
    cpu.registers.b = 0x01;
    cpu.execute(Instruction::DEC(Place::Reg(ByteTarget::B)));
    assert_eq!(cpu.registers.b, 0x00);
    assert_eq!(flags(&cpu), (true, true, false, true));
}

#[test]
fn word_inc_dec_wrap() {
    let mut cpu = CPU::new();
    cpu.registers.set_word(0xFFFF, WordTarget::DE);
    cpu.execute(Instruction::INCW(WordReg::DE));
    assert_eq!(cpu.registers.get_word(WordTarget::DE), 0x0000);
    cpu.execute(Instruction::DECW(WordReg::SP));
    assert_eq!(cpu.sp, 0xFFFF);
    assert_eq!(flags(&cpu), (false, false, false, false));
}

#[test]
fn bit_seven_of_a() {
    for carry in [false, true] {
        let mut cpu = CPU::new();
        cpu.registers.a = 0x80;
        cpu.registers.f.carry = carry;
        let next = cpu.execute(Instruction::BIT(7, Place::Reg(ByteTarget::A)));
        assert_eq!(next, 2);
        assert!(!cpu.registers.f.zero);
        assert!(cpu.registers.f.half_carry);
        assert!(!cpu.registers.f.subtract);
        assert_eq!(cpu.registers.f.carry, carry);
        assert_eq!(cpu.registers.a, 0x80);
        cpu.registers.a = 0x00;
        cpu.execute(Instruction::BIT(7, Place::Reg(ByteTarget::A)));
        assert!(cpu.registers.f.zero);
        assert_eq!(cpu.registers.f.carry, carry);
    }
}

#[test]
fn set_and_res_leave_flags() {
    let mut cpu = CPU::new();
    cpu.registers.set_byte(0xA0, ByteTarget::F);
    cpu.registers.c = 0x00;
    cpu.execute(Instruction::SET(3, Place::Reg(ByteTarget::C)));
    assert_eq!(cpu.registers.c, 0x08);
    cpu.execute(Instruction::RES(3, Place::Reg(ByteTarget::C)));
    assert_eq!(cpu.registers.c, 0x00);
    assert_eq!(cpu.registers.get_byte(ByteTarget::F), 0xA0);
}

#[test]
fn jp_zero_taken_and_not_taken() {
    let mut cpu = CPU::new();
    cpu.pc = 0x0200;
    cpu.bus.write_byte(0x0200, 0xCA);
    cpu.bus.write_byte(0x0201, 0x34);
    cpu.bus.write_byte(0x0202, 0x12);
    cpu.registers.f.zero = true;
    assert_eq!(cpu.execute(Instruction::JP(JumpTest::Zero)), 0x1234);
    cpu.registers.f.zero = false;
    assert_eq!(cpu.execute(Instruction::JP(JumpTest::Zero)), 0x0203);
    assert_eq!(cpu.step(), Ok(0x0203));
    assert_eq!(cpu.pc, 0x0203);
}

#[test]
fn rlc_eight_times_restores() {
    let mut cpu = CPU::new();
    for v in 0u16..=255 {
        let v = v as u8;
        cpu.registers.e = v;
        for _ in 0..8 {
            cpu.execute(Instruction::RLC(Place::Reg(ByteTarget::E)));
        }
        assert_eq!(cpu.registers.e, v);
        assert_eq!(cpu.registers.f.carry, v & 0x01 != 0);
        if (v & 0x80 != 0) == (v & 0x01 != 0) {
            assert_eq!(cpu.registers.f.carry, v & 0x80 != 0);
        }
    }
}

#[test]
fn accumulator_rotates_clear_zero() {
    let mut cpu = CPU::new();
    cpu.registers.a = 0x00;
    cpu.execute(Instruction::RLCA);
    assert_eq!(flags(&cpu), (false, false, false, false));
    cpu.registers.a = 0x80;
    cpu.execute(Instruction::RLA);
    assert_eq!(cpu.registers.a, 0x00);
    assert_eq!(flags(&cpu), (false, false, false, true));
    cpu.execute(Instruction::RRA);
    assert_eq!(cpu.registers.a, 0x80);
    assert_eq!(flags(&cpu), (false, false, false, false));
    cpu.registers.a = 0x01;
    cpu.execute(Instruction::RRCA);
    assert_eq!(cpu.registers.a, 0x80);
    assert_eq!(flags(&cpu), (false, false, false, true));
}

#[test]
fn register_rotates_set_zero() {
    let mut cpu = CPU::new();
    cpu.registers.b = 0x80;
    cpu.execute(Instruction::RL(Place::Reg(ByteTarget::B)));
    assert_eq!(cpu.registers.b, 0x00);
    assert_eq!(flags(&cpu), (true, false, false, true));
    cpu.execute(Instruction::RR(Place::Reg(ByteTarget::B)));
    assert_eq!(cpu.registers.b, 0x80);
    assert_eq!(flags(&cpu), (false, false, false, false));
    cpu.registers.b = 0x01;
    cpu.execute(Instruction::RRC(Place::Reg(ByteTarget::B)));
    assert_eq!(cpu.registers.b, 0x80);
    assert_eq!(flags(&cpu), (false, false, false, true));
}

#[test]
fn shifts_and_swap() {
    let mut cpu = CPU::new();
    cpu.registers.d = 0x81;
    cpu.execute(Instruction::SLA(Place::Reg(ByteTarget::D)));
    assert_eq!(cpu.registers.d, 0x02);
    assert_eq!(flags(&cpu), (false, false, false, true));
    cpu.registers.d = 0x81;
    cpu.execute(Instruction::SRA(Place::Reg(ByteTarget::D)));
    assert_eq!(cpu.registers.d, 0xC0);
    assert_eq!(flags(&cpu), (false, false, false, true));
    cpu.registers.d = 0x01;
    cpu.execute(Instruction::SRL(Place::Reg(ByteTarget::D)));
    assert_eq!(cpu.registers.d, 0x00);
    assert_eq!(flags(&cpu), (true, false, false, true));
    cpu.registers.d = 0xA5;
    let next = cpu.execute(Instruction::SWAP(Place::Reg(ByteTarget::D)));
    assert_eq!(next, 2);
    assert_eq!(cpu.registers.d, 0x5A);
    assert_eq!(flags(&cpu), (false, false, false, false));
}

#[test]
fn load_register_to_register() {
    let mut cpu = CPU::new();
    cpu.registers.b = 0x77;
    cpu.registers.set_byte(0x50, ByteTarget::F);
    let next = cpu.execute(Instruction::LD(reg(ByteTarget::B), Place::Reg(ByteTarget::A)));
    assert_eq!(next, 1);
    assert_eq!(cpu.registers.a, 0x77);
    assert_eq!(cpu.registers.get_byte(ByteTarget::F), 0x50);
    cpu.registers.set_word(0xC123, WordTarget::HL);
    cpu.execute(Instruction::LD(reg(ByteTarget::A), Place::HlIndirect));
    assert_eq!(cpu.bus.read_byte(0xC123), 0x77);
}

#[test]
fn load_word_immediate() {
    let mut cpu = CPU::new();
    cpu.bus.write_byte(1, 0xFE);
    cpu.bus.write_byte(2, 0xDF);
    let next = cpu.execute(Instruction::LDW(WordReg::SP));
    assert_eq!(next, 3);
    assert_eq!(cpu.sp, 0xDFFE);
}

#[test]
fn relative_jump_backwards() {
    let mut cpu = CPU::new();
    cpu.pc = 0x0010;
    cpu.bus.write_byte(0x0011, 0xFC);
    assert_eq!(cpu.execute(Instruction::JR(JumpTest::Always)), 0x000E);
    cpu.registers.f.carry = false;
    assert_eq!(cpu.execute(Instruction::JR(JumpTest::Carry)), 0x0012);
}

#[test]
fn call_then_return() {
    let mut cpu = CPU::new();
    cpu.pc = 0x0150;
    cpu.sp = 0xFFFE;
    cpu.bus.write_byte(0x0151, 0x00);
    cpu.bus.write_byte(0x0152, 0x40);
    let target = cpu.execute(Instruction::CALL(JumpTest::Always));
    assert_eq!(target, 0x4000);
    assert_eq!(cpu.sp, 0xFFFC);
    assert_eq!(cpu.bus.read_byte(0xFFFD), 0x01);
    assert_eq!(cpu.bus.read_byte(0xFFFC), 0x53);
    cpu.pc = target;
    assert_eq!(cpu.execute(Instruction::RET(JumpTest::Always)), 0x0153);
    assert_eq!(cpu.sp, 0xFFFE);
}

#[test]
fn push_pop_af_masks_flags() {
    let mut cpu = CPU::new();
    cpu.sp = 0xD000;
    cpu.registers.set_word(0x12FF, WordTarget::BC);
    cpu.execute(Instruction::PUSH(WordTarget::BC));
    cpu.execute(Instruction::POP(WordTarget::AF));
    assert_eq!(cpu.sp, 0xD000);
    assert_eq!(cpu.registers.a, 0x12);
    assert_eq!(cpu.registers.get_word(WordTarget::AF), 0x12F0);
}
