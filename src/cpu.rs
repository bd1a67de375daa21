use vstd::prelude::*;
use crate::bus::MemoryBus;
use crate::instruction::{decoding, Address, Instruction, JumpTest, Place, Source, WordReg, PREFIX_BYTE};
use crate::machine::{
    daa_carry, daa_value, rl_value, rlc_value, rr_value, rrc_value, sub_value, wrap16, Machine,
};
use crate::registers::{ByteTarget, Registers, WordTarget};

verus! {

/// One emulated processor: its register file, program counter, stack pointer and memory.
pub struct CPU {
    pub registers: Registers,
    pub pc: u16,
    pub sp: u16,
    pub bus: MemoryBus,
}

/// The opcode that `step` fetched and could not decode.
#[derive(Clone, Copy, Debug, PartialEq, Eq, Structural)]
pub struct DecodeFault {
    pub opcode: u8,
    /// Whether the opcode followed the prefix byte and so belongs to the extended table.
    pub prefixed: bool,
}

impl View for CPU {
    type V = Machine;

    open spec fn view(&self) -> Machine {
        Machine { regs: self.registers, pc: self.pc, sp: self.sp, mem: self.bus@ }
    }
}

/// The opcode that a step at PC decodes, and whether it comes from the extended table.
pub open spec fn fetched(m: Machine) -> (u8, bool) {
    let first = m.read(m.pc);
    if first == PREFIX_BYTE {
        (m.read(wrap16(m.pc + 1)), true)
    } else {
        (first, false)
    }
}

/// `x + n` modulo 2^16.
fn add16(x: u16, n: u16) -> (r: u16)
    ensures
        r == wrap16(x + n),
{
    ((x as u32 + n as u32) % 0x10000) as u16
}

/// `x - n` modulo 2^16.
fn sub16(x: u16, n: u16) -> (r: u16)
    ensures
        r == wrap16(x - n),
{
    if x >= n {
        x - n
    } else {
        (x as u32 + 0x10000 - n as u32) as u16
    }
}

/// A after DAA, from A and the flags before it.
fn decimal_adjust(a: u8, subtract: bool, half_carry: bool, carry: bool) -> (r: u8)
    ensures
        r == daa_value(a, subtract, half_carry, carry),
{
    let high: u16 = if daa_carry_of(a, subtract, carry) { 0x60 } else { 0 };
    if subtract {
        let low: u16 = if half_carry { 6 } else { 0 };
        ((a as u16 + 0x100 - high - low) % 0x100) as u8
    } else {
        let low: u16 = if half_carry || a % 16 > 9 { 6 } else { 0 };
        ((a as u16 + high + low) % 0x100) as u8
    }
}

fn daa_carry_of(a: u8, subtract: bool, carry: bool) -> (r: bool)
    ensures
        r == daa_carry(a, subtract, carry),
{
    if subtract { carry } else { carry || a > 0x99 }
}

impl CPU {
    pub open spec fn wf(&self) -> bool {
        self.bus.wf()
    }

    /// A CPU with every register, PC and SP at zero, and zeroed memory.
    pub fn new() -> (r: CPU)
        ensures
            r.wf(),
            r.registers == Registers::new_spec(),
            r.pc == 0,
            r.sp == 0,
            forall|i: int| 0 <= i < 0x10000 ==> r.bus@[i] == 0,
    {
        CPU { registers: Registers::new(), pc: 0, sp: 0, bus: MemoryBus::new() }
    }

    fn read_imm8(&self) -> (r: u8)
        requires
            self.wf(),
        ensures
            r == self@.imm8(),
    {
        self.bus.read_byte(add16(self.pc, 1))
    }

    fn read_imm16(&self) -> (r: u16)
        requires
            self.wf(),
        ensures
            r == self@.imm16(),
    {
        let lo = self.bus.read_byte(add16(self.pc, 1));
        let hi = self.bus.read_byte(add16(self.pc, 2));
        crate::registers::join_bytes(hi, lo)
    }

    fn read_source(&self, s: Source) -> (r: u8)
        requires
            self.wf(),
        ensures
            r == self@.source_value(s),
    {
        match s {
            Source::Reg(t) => self.registers.get_byte(t),
            Source::HlIndirect => self.bus.read_byte(self.registers.get_word(WordTarget::HL)),
            Source::Immediate => self.read_imm8(),
        }
    }

    fn read_place(&self, p: Place) -> (r: u8)
        requires
            self.wf(),
        ensures
            r == self@.place_value(p),
    {
        match p {
            Place::Reg(t) => self.registers.get_byte(t),
            Place::HlIndirect => self.bus.read_byte(self.registers.get_word(WordTarget::HL)),
        }
    }

    fn write_place(&mut self, p: Place, v: u8)
        requires
            old(self).wf(),
        ensures
            final(self)@ == old(self)@.store(p, v),
            final(self).wf(),
    {
        match p {
            Place::Reg(t) => self.registers.set_byte(v, t),
            Place::HlIndirect => {
                let address = self.registers.get_word(WordTarget::HL);
                self.bus.write_byte(address, v);
            },
        }
    }

    fn test_condition(&self, t: JumpTest) -> (r: bool)
        ensures
            r == self@.condition(t),
    {
        match t {
            JumpTest::NotZero => !self.registers.f.zero,
            JumpTest::Zero => self.registers.f.zero,
            JumpTest::NotCarry => !self.registers.f.carry,
            JumpTest::Carry => self.registers.f.carry,
            JumpTest::Always => true,
        }
    }

    fn get_word_reg(&self, w: WordReg) -> (r: u16)
        ensures
            r == self@.word_reg(w),
    {
        match w {
            WordReg::BC => self.registers.get_word(WordTarget::BC),
            WordReg::DE => self.registers.get_word(WordTarget::DE),
            WordReg::HL => self.registers.get_word(WordTarget::HL),
            WordReg::SP => self.sp,
        }
    }

    fn set_word_reg(&mut self, w: WordReg, v: u16)
        ensures
            final(self)@ == old(self)@.with_word_reg(w, v),
    {
        match w {
            WordReg::BC => self.registers.set_word(v, WordTarget::BC),
            WordReg::DE => self.registers.set_word(v, WordTarget::DE),
            WordReg::HL => self.registers.set_word(v, WordTarget::HL),
            WordReg::SP => self.sp = v,
        }
    }

    fn push(&mut self, v: u16)
        requires
            old(self).wf(),
        ensures
            final(self)@ == old(self)@.pushed(v),
            final(self).wf(),
    {
        let hi = (v >> 8) as u8;
        let lo = (v & 0xFF) as u8;
        assert(v >> 8 == v / 256 && v & 0xFF == v % 256) by (bit_vector);
        let high_address = sub16(self.sp, 1);
        self.bus.write_byte(high_address, hi);
        let low_address = sub16(self.sp, 2);
        self.bus.write_byte(low_address, lo);
        self.sp = low_address;
    }

    fn pop(&mut self) -> (r: u16)
        requires
            old(self).wf(),
        ensures
            r == old(self)@.top(),
            final(self)@ == old(self)@.popped(),
    {
        let lo = self.bus.read_byte(self.sp);
        let hi = self.bus.read_byte(add16(self.sp, 1));
        self.sp = add16(self.sp, 2);
        crate::registers::join_bytes(hi, lo)
    }

    /// The next PC of a jump to the immediate word: the word when `should_jump`, else
    /// past the three bytes of the instruction.
    fn jump(&self, should_jump: bool) -> (r: u16)
        requires
            self.wf(),
        ensures
            r == (if should_jump { self@.imm16() } else { wrap16(self.pc + 3) }),
    {
        if should_jump {
            self.read_imm16()
        } else {
            add16(self.pc, 3)
        }
    }

    fn address(&self, a: Address) -> (r: u16)
        requires
            self.wf(),
        ensures
            r == self@.address(a),
    {
        match a {
            Address::BC => self.registers.get_word(WordTarget::BC),
            Address::DE => self.registers.get_word(WordTarget::DE),
            Address::HlIncrement => self.registers.get_word(WordTarget::HL),
            Address::HlDecrement => self.registers.get_word(WordTarget::HL),
            Address::Absolute => self.read_imm16(),
            Address::HighImmediate => add16(0xFF00, self.read_imm8() as u16),
            Address::HighC => add16(0xFF00, self.registers.c as u16),
        }
    }

    /// Moves HL on after an access through (HL+) or (HL-).
    fn advance_hl(&mut self, a: Address)
        ensures
            final(self)@ == old(self)@.after_address(a),
    {
        match a {
            Address::HlIncrement => {
                let hl = self.registers.get_word(WordTarget::HL);
                self.registers.set_word(add16(hl, 1), WordTarget::HL);
            },
            Address::HlDecrement => {
                let hl = self.registers.get_word(WordTarget::HL);
                self.registers.set_word(sub16(hl, 1), WordTarget::HL);
            },
            _ => {},
        }
    }

    /// The next PC after a load or store of A: the immediate bytes are skipped.
    fn past_address(&self, a: Address) -> (r: u16)
        ensures
            r == wrap16(
                self.pc + match a {
                    Address::Absolute => 3int,
                    Address::HighImmediate => 2int,
                    _ => 1int,
                },
            ),
    {
        match a {
            Address::Absolute => add16(self.pc, 3),
            Address::HighImmediate => add16(self.pc, 2),
            _ => add16(self.pc, 1),
        }
    }

    fn add_hl(&mut self, w: WordReg)
        ensures
            final(self)@ == old(self)@.after_add_hl(w),
    {
        let hl = self.registers.get_word(WordTarget::HL);
        let n = self.get_word_reg(w);
        let sum: u32 = hl as u32 + n as u32;
        let zero = self.registers.f.zero;
        self.registers.set_flag(zero, false, sum > 0xFFFF, hl % 4096 + n % 4096 > 0xFFF);
        self.registers.set_word((sum % 0x10000) as u16, WordTarget::HL);
    }

    /// Writes SP plus the signed immediate byte to `target`, with the flags of ADD SP,e.
    fn sp_offset(&mut self, target: WordReg)
        requires
            old(self).wf(),
        ensures
            final(self)@ == old(self)@.after_sp_offset(target),
    {
        let e = self.read_imm8();
        let sp = self.sp;
        self.registers.set_flag(false, false, sp % 256 + e as u16 > 0xFF, sp % 16 + e as u16 % 16 > 0xF);
        let value = if e < 128 {
            add16(sp, e as u16)
        } else {
            sub16(sp, 256 - e as u16)
        };
        self.set_word_reg(target, value);
    }

    fn daa(&mut self)
        ensures
            final(self)@ == old(self)@.effect(Instruction::DAA),
    {
        let a = self.registers.a;
        let f = self.registers.f;
        let carry = daa_carry_of(a, f.subtract, f.carry);
        let value = decimal_adjust(a, f.subtract, f.half_carry, f.carry);
        self.registers.set_flag(value == 0, f.subtract, carry, false);
        self.registers.set_byte(value, ByteTarget::A);
    }

    fn add(&mut self, value: u8)
        ensures
            final(self)@ == old(self)@.after_add(value, false),
    {
        let a = self.registers.a;
        let sum: u16 = a as u16 + value as u16;
        let result = (sum % 256) as u8;
        self.registers.set_flag(result == 0, false, sum > 0xFF, a % 16 + value % 16 > 0xF);
        self.registers.set_byte(result, ByteTarget::A);
    }

    fn adc(&mut self, value: u8)
        ensures
            final(self)@ == old(self)@.after_add(value, true),
    {
        let a = self.registers.a;
        let cy: u8 = if self.registers.f.carry { 1 } else { 0 };
        let sum: u16 = a as u16 + value as u16 + cy as u16;
        let result = (sum % 256) as u8;
        self.registers.set_flag(result == 0, false, sum > 0xFF, a % 16 + value % 16 + cy > 0xF);
        self.registers.set_byte(result, ByteTarget::A);
    }

    /// Sets the flags of `A - value` (less the carry flag when `use_carry`) and returns
    /// the difference.
    fn alu_sub(&mut self, value: u8, use_carry: bool) -> (r: u8)
        ensures
            final(self)@ == old(self)@.after_compare(value, use_carry),
            r == sub_value(old(self).registers.a, value, use_carry && old(self).registers.f.carry),
    {
        let a = self.registers.a;
        let cy: u8 = if use_carry && self.registers.f.carry { 1 } else { 0 };
        let result = ((a as u16 + 256 - value as u16 - cy as u16) % 256) as u8;
        self.registers.set_flag(
            result == 0,
            true,
            (a as u16) < value as u16 + cy as u16,
            a % 16 < value % 16 + cy,
        );
        result
    }

    fn sub(&mut self, value: u8)
        ensures
            final(self)@ == old(self)@.after_sub(value, false),
    {
        let result = self.alu_sub(value, false);
        self.registers.set_byte(result, ByteTarget::A);
    }

    fn sbc(&mut self, value: u8)
        ensures
            final(self)@ == old(self)@.after_sub(value, true),
    {
        let result = self.alu_sub(value, true);
        self.registers.set_byte(result, ByteTarget::A);
    }

    fn cp(&mut self, value: u8)
        ensures
            final(self)@ == old(self)@.after_compare(value, false),
    {
        self.alu_sub(value, false);
    }

    fn and(&mut self, value: u8)
        ensures
            final(self)@ == old(self)@.after_logic(old(self).registers.a & value, true),
    {
        let new_value = self.registers.get_byte(ByteTarget::A) & value;
        self.registers.set_byte(new_value, ByteTarget::A);
        self.registers.set_flag(new_value == 0, false, false, true);
    }

    fn or(&mut self, value: u8)
        ensures
            final(self)@ == old(self)@.after_logic(old(self).registers.a | value, false),
    {
        let new_value = self.registers.get_byte(ByteTarget::A) | value;
        self.registers.set_byte(new_value, ByteTarget::A);
        self.registers.set_flag(new_value == 0, false, false, false);
    }

    fn xor(&mut self, value: u8)
        ensures
            final(self)@ == old(self)@.after_logic(old(self).registers.a ^ value, false),
    {
        let new_value = self.registers.get_byte(ByteTarget::A) ^ value;
        self.registers.set_byte(new_value, ByteTarget::A);
        self.registers.set_flag(new_value == 0, false, false, false);
    }

    fn inc(&mut self, p: Place)
        requires
            old(self).wf(),
        ensures
            final(self)@ == old(self)@.after_inc(p),
            final(self).wf(),
    {
        let value = self.read_place(p);
        let new_value = if value == 0xFF { 0 } else { value + 1 };
        let half_carry = value % 16 == 0xF;
        let carry = self.registers.f.carry;
        self.registers.set_flag(new_value == 0, false, carry, half_carry);
        self.write_place(p, new_value);
    }

    fn dec(&mut self, p: Place)
        requires
            old(self).wf(),
        ensures
            final(self)@ == old(self)@.after_dec(p),
            final(self).wf(),
    {
        let value = self.read_place(p);
        let new_value = if value == 0 { 0xFF } else { value - 1 };
        let half_carry = value % 16 == 0;
        let carry = self.registers.f.carry;
        self.registers.set_flag(new_value == 0, true, carry, half_carry);
        self.write_place(p, new_value);
    }

    /// Rotates left; bit 7 goes to carry and to bit 0.
    fn alu_rlc(&mut self, value: u8, set_zero: bool) -> (r: u8)
        ensures
            r == rlc_value(value),
            final(self)@ == old(self)@.flagged(set_zero && r == 0, false, (value >> 7u8) & 1 == 1, false),
    {
        let new_value = (value << 1u8) | (value >> 7u8);
        self.registers.set_flag(set_zero && new_value == 0, false, (value >> 7u8) & 1 == 1, false);
        new_value
    }

    /// Rotates left through carry: bit 7 goes to carry, the old carry to bit 0.
    fn alu_rl(&mut self, value: u8, set_zero: bool) -> (r: u8)
        ensures
            r == rl_value(value, old(self).registers.f.carry),
            final(self)@ == old(self)@.flagged(set_zero && r == 0, false, (value >> 7u8) & 1 == 1, false),
    {
        let ci: u8 = if self.registers.f.carry { 1 } else { 0 };
        let new_value = (value << 1u8) | ci;
        self.registers.set_flag(set_zero && new_value == 0, false, (value >> 7u8) & 1 == 1, false);
        new_value
    }

    /// Rotates right; bit 0 goes to carry and to bit 7.
    fn alu_rrc(&mut self, value: u8, set_zero: bool) -> (r: u8)
        ensures
            r == rrc_value(value),
            final(self)@ == old(self)@.flagged(set_zero && r == 0, false, value & 1 == 1, false),
    {
        let new_value = (value >> 1u8) | (value << 7u8);
        self.registers.set_flag(set_zero && new_value == 0, false, value & 1 == 1, false);
        new_value
    }

    /// Rotates right through carry: bit 0 goes to carry, the old carry to bit 7.
    fn alu_rr(&mut self, value: u8, set_zero: bool) -> (r: u8)
        ensures
            r == rr_value(value, old(self).registers.f.carry),
            final(self)@ == old(self)@.flagged(set_zero && r == 0, false, value & 1 == 1, false),
    {
        let ci: u8 = if self.registers.f.carry { 0x80 } else { 0 };
        let new_value = (value >> 1u8) | ci;
        self.registers.set_flag(set_zero && new_value == 0, false, value & 1 == 1, false);
        new_value
    }

    fn rlca(&mut self)
        ensures
            final(self)@ == old(self)@.effect(Instruction::RLCA),
    {
        let value = self.registers.get_byte(ByteTarget::A);
        let new_value = self.alu_rlc(value, false);
        self.registers.set_byte(new_value, ByteTarget::A);
    }

    fn rla(&mut self)
        ensures
            final(self)@ == old(self)@.effect(Instruction::RLA),
    {
        let value = self.registers.get_byte(ByteTarget::A);
        let new_value = self.alu_rl(value, false);
        self.registers.set_byte(new_value, ByteTarget::A);
    }

    fn rrca(&mut self)
        ensures
            final(self)@ == old(self)@.effect(Instruction::RRCA),
    {
        let value = self.registers.get_byte(ByteTarget::A);
        let new_value = self.alu_rrc(value, false);
        self.registers.set_byte(new_value, ByteTarget::A);
    }

    fn rra(&mut self)
        ensures
            final(self)@ == old(self)@.effect(Instruction::RRA),
    {
        let value = self.registers.get_byte(ByteTarget::A);
        let new_value = self.alu_rr(value, false);
        self.registers.set_byte(new_value, ByteTarget::A);
    }

    fn rlc(&mut self, p: Place)
        requires
            old(self).wf(),
        ensures
            final(self)@ == old(self)@.effect(Instruction::RLC(p)),
            final(self).wf(),
    {
        let value = self.read_place(p);
        let new_value = self.alu_rlc(value, true);
        self.write_place(p, new_value);
    }

    fn rl(&mut self, p: Place)
        requires
            old(self).wf(),
        ensures
            final(self)@ == old(self)@.effect(Instruction::RL(p)),
            final(self).wf(),
    {
        let value = self.read_place(p);
        let new_value = self.alu_rl(value, true);
        self.write_place(p, new_value);
    }

    fn rrc(&mut self, p: Place)
        requires
            old(self).wf(),
        ensures
            final(self)@ == old(self)@.effect(Instruction::RRC(p)),
            final(self).wf(),
    {
        let value = self.read_place(p);
        let new_value = self.alu_rrc(value, true);
        self.write_place(p, new_value);
    }

    fn rr(&mut self, p: Place)
        requires
            old(self).wf(),
        ensures
            final(self)@ == old(self)@.effect(Instruction::RR(p)),
            final(self).wf(),
    {
        let value = self.read_place(p);
        let new_value = self.alu_rr(value, true);
        self.write_place(p, new_value);
    }

    fn sla(&mut self, p: Place)
        requires
            old(self).wf(),
        ensures
            final(self)@ == old(self)@.effect(Instruction::SLA(p)),
            final(self).wf(),
    {
        let value = self.read_place(p);
        let new_value = value << 1u8;
        self.registers.set_flag(new_value == 0, false, (value >> 7u8) & 1 == 1, false);
        self.write_place(p, new_value);
    }

    fn sra(&mut self, p: Place)
        requires
            old(self).wf(),
        ensures
            final(self)@ == old(self)@.effect(Instruction::SRA(p)),
            final(self).wf(),
    {
        let value = self.read_place(p);
        let new_value = (value >> 1u8) | (value & 0x80);
        self.registers.set_flag(new_value == 0, false, value & 1 == 1, false);
        self.write_place(p, new_value);
    }

    fn srl(&mut self, p: Place)
        requires
            old(self).wf(),
        ensures
            final(self)@ == old(self)@.effect(Instruction::SRL(p)),
            final(self).wf(),
    {
        let value = self.read_place(p);
        let new_value = value >> 1u8;
        self.registers.set_flag(new_value == 0, false, value & 1 == 1, false);
        self.write_place(p, new_value);
    }

    fn swap(&mut self, p: Place)
        requires
            old(self).wf(),
        ensures
            final(self)@ == old(self)@.effect(Instruction::SWAP(p)),
            final(self).wf(),
    {
        let value = self.read_place(p);
        let new_value = (value >> 4u8) | (value << 4u8);
        self.registers.set_flag(new_value == 0, false, false, false);
        self.write_place(p, new_value);
    }

    fn bit(&mut self, bit: u8, p: Place)
        requires
            old(self).wf(),
            bit < 8,
        ensures
            final(self)@ == old(self)@.effect(Instruction::BIT(bit, p)),
    {
        let value = self.read_place(p);
        let carry = self.registers.f.carry;
        self.registers.set_flag(!((value >> bit) & 1 == 1), false, carry, true);
    }

    fn set(&mut self, bit: u8, p: Place)
        requires
            old(self).wf(),
            bit < 8,
        ensures
            final(self)@ == old(self)@.effect(Instruction::SET(bit, p)),
            final(self).wf(),
    {
        let value = self.read_place(p);
        let new_value = value | (1u8 << bit);
        self.write_place(p, new_value);
    }

    fn res(&mut self, bit: u8, p: Place)
        requires
            old(self).wf(),
            bit < 8,
        ensures
            final(self)@ == old(self)@.effect(Instruction::RES(bit, p)),
            final(self).wf(),
    {
        let value = self.read_place(p);
        let new_value = value & !(1u8 << bit);
        self.write_place(p, new_value);
    }

    /// Executes a decoded instruction against the registers and memory, and returns the
    /// address of the next instruction. PC itself is left for the caller to commit.
    pub fn execute(&mut self, instruction: Instruction) -> (r: u16)
        requires
            old(self).wf(),
            instruction.wf(),
        ensures
            final(self)@ == old(self)@.effect(instruction),
            r == old(self)@.next_pc(instruction),
            final(self).wf(),
    {
        match instruction {
            Instruction::NOP | Instruction::LD(..) | Instruction::LDA(_) | Instruction::STA(_) => {
                self.execute_load(instruction)
            },
            Instruction::LDW(_) | Instruction::LDSPHL | Instruction::STSP | Instruction::INCW(_)
            | Instruction::DECW(_) | Instruction::ADDHL(_) | Instruction::ADDSP
            | Instruction::LDHLSP => self.execute_word(instruction),
            Instruction::ADD(_) | Instruction::ADC(_) | Instruction::SUB(_) | Instruction::SBC(_)
            | Instruction::AND(_) | Instruction::XOR(_) | Instruction::OR(_) | Instruction::CP(_)
            | Instruction::DAA | Instruction::CPL | Instruction::SCF | Instruction::CCF => {
                self.execute_alu(instruction)
            },
            Instruction::INC(_) | Instruction::DEC(_) | Instruction::RLCA | Instruction::RRCA
            | Instruction::RLA | Instruction::RRA | Instruction::RLC(_) | Instruction::RRC(_)
            | Instruction::RL(_) | Instruction::RR(_) | Instruction::SLA(_) | Instruction::SRA(_)
            | Instruction::SWAP(_) | Instruction::SRL(_) => self.execute_shift(instruction),
            Instruction::BIT(..) | Instruction::RES(..) | Instruction::SET(..) => {
                self.execute_bits(instruction)
            },
            Instruction::JP(_) | Instruction::JPHL | Instruction::JR(_) | Instruction::CALL(_)
            | Instruction::RET(_) | Instruction::RETI | Instruction::RST(_) | Instruction::PUSH(_)
            | Instruction::POP(_) | Instruction::HALT | Instruction::STOP | Instruction::DI
            | Instruction::EI => {
                self.execute_control(instruction)
            },
        }
    }

    /// `execute` for the 8-bit loads and stores.
    fn execute_load(&mut self, instruction: Instruction) -> (r: u16)
        requires
            old(self).wf(),
            instruction is NOP || instruction is LD || instruction is LDA || instruction is STA,
        ensures
            final(self)@ == old(self)@.effect(instruction),
            r == old(self)@.next_pc(instruction),
            final(self).wf(),
    {
        match instruction {
            Instruction::NOP => add16(self.pc, 1),
            Instruction::LD(from, target) => {
                let value = self.read_source(from);
                self.write_place(target, value);
                self.past(from)
            },
            Instruction::LDA(a) => {
                let address = self.address(a);
                let value = self.bus.read_byte(address);
                self.registers.set_byte(value, ByteTarget::A);
                self.advance_hl(a);
                self.past_address(a)
            },
            Instruction::STA(a) => {
                let address = self.address(a);
                let value = self.registers.a;
                self.bus.write_byte(address, value);
                self.advance_hl(a);
                self.past_address(a)
            },
            _ => self.pc,
        }
    }

    /// `execute` for the 16-bit loads and arithmetic.
    fn execute_word(&mut self, instruction: Instruction) -> (r: u16)
        requires
            old(self).wf(),
            instruction is LDW || instruction is LDSPHL || instruction is STSP || instruction is INCW
                || instruction is DECW || instruction is ADDHL || instruction is ADDSP
                || instruction is LDHLSP,
        ensures
            final(self)@ == old(self)@.effect(instruction),
            r == old(self)@.next_pc(instruction),
            final(self).wf(),
    {
        match instruction {
            Instruction::LDW(w) => {
                let value = self.read_imm16();
                self.set_word_reg(w, value);
                add16(self.pc, 3)
            },
            Instruction::LDSPHL => {
                self.sp = self.registers.get_word(WordTarget::HL);
                add16(self.pc, 1)
            },
            Instruction::STSP => {
                let address = self.read_imm16();
                let lo = (self.sp % 256) as u8;
                let hi = (self.sp / 256) as u8;
                self.bus.write_byte(address, lo);
                self.bus.write_byte(add16(address, 1), hi);
                add16(self.pc, 3)
            },
            Instruction::INCW(w) => {
                let value = self.get_word_reg(w);
                self.set_word_reg(w, add16(value, 1));
                add16(self.pc, 1)
            },
            Instruction::DECW(w) => {
                let value = self.get_word_reg(w);
                self.set_word_reg(w, sub16(value, 1));
                add16(self.pc, 1)
            },
            Instruction::ADDHL(w) => {
                self.add_hl(w);
                add16(self.pc, 1)
            },
            Instruction::ADDSP => {
                self.sp_offset(WordReg::SP);
                add16(self.pc, 2)
            },
            Instruction::LDHLSP => {
                self.sp_offset(WordReg::HL);
                add16(self.pc, 2)
            },
            _ => self.pc,
        }
    }

    /// `execute` for the 8-bit arithmetic and logic on A.
    fn execute_alu(&mut self, instruction: Instruction) -> (r: u16)
        requires
            old(self).wf(),
            instruction.wf(),
            instruction is ADD || instruction is ADC || instruction is SUB || instruction is SBC
                || instruction is AND || instruction is XOR || instruction is OR || instruction is CP
                || instruction is DAA || instruction is CPL || instruction is SCF
                || instruction is CCF,
        ensures
            final(self)@ == old(self)@.effect(instruction),
            r == old(self)@.next_pc(instruction),
            final(self).wf(),
    {
        match instruction {
            Instruction::ADD(s) => {
                let value = self.read_source(s);
                self.add(value);
                self.past(s)
            },
            Instruction::ADC(s) => {
                let value = self.read_source(s);
                self.adc(value);
                self.past(s)
            },
            Instruction::SUB(s) => {
                let value = self.read_source(s);
                self.sub(value);
                self.past(s)
            },
            Instruction::SBC(s) => {
                let value = self.read_source(s);
                self.sbc(value);
                self.past(s)
            },
            Instruction::AND(s) => {
                let value = self.read_source(s);
                self.and(value);
                self.past(s)
            },
            Instruction::XOR(s) => {
                let value = self.read_source(s);
                self.xor(value);
                self.past(s)
            },
            Instruction::OR(s) => {
                let value = self.read_source(s);
                self.or(value);
                self.past(s)
            },
            Instruction::CP(s) => {
                let value = self.read_source(s);
                self.cp(value);
                self.past(s)
            },
            Instruction::DAA => {
                self.daa();
                add16(self.pc, 1)
            },
            Instruction::CPL => {
                let carry = self.registers.f.carry;
                let zero = self.registers.f.zero;
                self.registers.set_flag(zero, true, carry, true);
                let value = !self.registers.a;
                self.registers.set_byte(value, ByteTarget::A);
                add16(self.pc, 1)
            },
            Instruction::SCF => {
                let zero = self.registers.f.zero;
                self.registers.set_flag(zero, false, true, false);
                add16(self.pc, 1)
            },
            Instruction::CCF => {
                let zero = self.registers.f.zero;
                let carry = self.registers.f.carry;
                self.registers.set_flag(zero, false, !carry, false);
                add16(self.pc, 1)
            },
            _ => self.pc,
        }
    }

    /// `execute` for the 8-bit increments, decrements, rotates and shifts.
    fn execute_shift(&mut self, instruction: Instruction) -> (r: u16)
        requires
            old(self).wf(),
            instruction.wf(),
            instruction is INC || instruction is DEC || instruction is RLCA || instruction is RRCA
                || instruction is RLA || instruction is RRA || instruction is RLC || instruction is RRC
                || instruction is RL || instruction is RR || instruction is SLA || instruction is SRA
                || instruction is SWAP || instruction is SRL,
        ensures
            final(self)@ == old(self)@.effect(instruction),
            r == old(self)@.next_pc(instruction),
            final(self).wf(),
    {
        match instruction {
            Instruction::INC(p) => {
                self.inc(p);
                add16(self.pc, 1)
            },
            Instruction::DEC(p) => {
                self.dec(p);
                add16(self.pc, 1)
            },
            Instruction::RLCA => {
                self.rlca();
                add16(self.pc, 1)
            },
            Instruction::RRCA => {
                self.rrca();
                add16(self.pc, 1)
            },
            Instruction::RLA => {
                self.rla();
                add16(self.pc, 1)
            },
            Instruction::RRA => {
                self.rra();
                add16(self.pc, 1)
            },
            Instruction::RLC(p) => {
                self.rlc(p);
                add16(self.pc, 2)
            },
            Instruction::RRC(p) => {
                self.rrc(p);
                add16(self.pc, 2)
            },
            Instruction::RL(p) => {
                self.rl(p);
                add16(self.pc, 2)
            },
            Instruction::RR(p) => {
                self.rr(p);
                add16(self.pc, 2)
            },
            Instruction::SLA(p) => {
                self.sla(p);
                add16(self.pc, 2)
            },
            Instruction::SRA(p) => {
                self.sra(p);
                add16(self.pc, 2)
            },
            Instruction::SWAP(p) => {
                self.swap(p);
                add16(self.pc, 2)
            },
            Instruction::SRL(p) => {
                self.srl(p);
                add16(self.pc, 2)
            },
            _ => self.pc,
        }
    }

    /// `execute` for the single-bit tests, resets and sets.
    fn execute_bits(&mut self, instruction: Instruction) -> (r: u16)
        requires
            old(self).wf(),
            instruction.wf(),
            instruction is BIT || instruction is RES || instruction is SET,
        ensures
            final(self)@ == old(self)@.effect(instruction),
            r == old(self)@.next_pc(instruction),
            final(self).wf(),
    {
        match instruction {
            Instruction::BIT(b, p) => {
                self.bit(b, p);
                add16(self.pc, 2)
            },
            Instruction::RES(b, p) => {
                self.res(b, p);
                add16(self.pc, 2)
            },
            Instruction::SET(b, p) => {
                self.set(b, p);
                add16(self.pc, 2)
            },
            _ => self.pc,
        }
    }

    /// `execute` for the jumps, calls, returns and stack transfers.
    fn execute_control(&mut self, instruction: Instruction) -> (r: u16)
        requires
            old(self).wf(),
            instruction.wf(),
            instruction is JP || instruction is JPHL || instruction is JR || instruction is CALL
                || instruction is RET || instruction is RETI || instruction is RST
                || instruction is PUSH || instruction is POP || instruction is HALT
                || instruction is STOP || instruction is DI || instruction is EI,
        ensures
            final(self)@ == old(self)@.effect(instruction),
            r == old(self)@.next_pc(instruction),
            final(self).wf(),
    {
        match instruction {
            Instruction::JP(test) => {
                let jump_condition = self.test_condition(test);
                self.jump(jump_condition)
            },
            Instruction::JPHL => self.registers.get_word(WordTarget::HL),
            Instruction::JR(test) => {
                let next = add16(self.pc, 2);
                if self.test_condition(test) {
                    let offset = self.read_imm8();
                    if offset < 128 {
                        add16(next, offset as u16)
                    } else {
                        sub16(next, 256 - offset as u16)
                    }
                } else {
                    next
                }
            },
            Instruction::CALL(test) => {
                let next = add16(self.pc, 3);
                if self.test_condition(test) {
                    let target = self.read_imm16();
                    self.push(next);
                    target
                } else {
                    next
                }
            },
            Instruction::RET(test) => {
                if self.test_condition(test) {
                    self.pop()
                } else {
                    add16(self.pc, 1)
                }
            },
            Instruction::RETI => self.pop(),
            Instruction::RST(target) => {
                let next = add16(self.pc, 1);
                self.push(next);
                target as u16
            },
            Instruction::HALT | Instruction::DI | Instruction::EI => add16(self.pc, 1),
            Instruction::STOP => add16(self.pc, 2),
            Instruction::PUSH(w) => {
                let value = self.registers.get_word(w);
                self.push(value);
                add16(self.pc, 1)
            },
            Instruction::POP(w) => {
                let value = self.pop();
                self.registers.set_word(value, w);
                add16(self.pc, 1)
            },
            _ => self.pc,
        }
    }

    /// The next PC after an instruction that reads `s`: one byte more for an immediate.
    fn past(&self, s: Source) -> (r: u16)
        ensures
            r == wrap16(self.pc + (if s == Source::Immediate { 2int } else { 1int })),
    {
        match s {
            Source::Immediate => add16(self.pc, 2),
            _ => add16(self.pc, 1),
        }
    }

    /// Fetches the opcode at PC (and the next byte after the prefix byte), decodes it,
    /// executes it and commits the next PC, which it returns. An opcode that does not
    /// decode leaves the CPU unchanged and is reported as a fault.
    pub fn step(&mut self) -> (r: Result<u16, DecodeFault>)
        requires
            old(self).wf(),
        ensures
            final(self).wf(),
            ({
                let (opcode, prefixed) = fetched(old(self)@);
                match decoding(opcode, prefixed) {
                    Some(i) => r == Ok::<u16, DecodeFault>(old(self)@.next_pc(i)) && final(self)@
                        == (Machine { pc: old(self)@.next_pc(i), ..old(self)@.effect(i) }),
                    None => r == Err::<u16, DecodeFault>(DecodeFault { opcode, prefixed })
                        && final(self)@ == old(self)@,
                }
            }),
    {
        let mut opcode = self.bus.read_byte(self.pc);
        let prefixed = opcode == PREFIX_BYTE;
        if prefixed {
            opcode = self.bus.read_byte(add16(self.pc, 1));
        }
        match Instruction::from_byte(opcode, prefixed) {
            Some(instruction) => {
                let next_pc = self.execute(instruction);
                self.pc = next_pc;
                Ok(next_pc)
            },
            None => Err(DecodeFault { opcode, prefixed }),
        }
    }
}

} // verus!
