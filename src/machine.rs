use vstd::prelude::*;
use crate::instruction::{Address, Instruction, JumpTest, Place, Source, WordReg};
use crate::registers::{bit_of, pair, ByteTarget, Registers, WordTarget};

verus! {

/// The observable state of a CPU: registers, program counter, stack pointer and memory.
pub struct Machine {
    pub regs: Registers,
    pub pc: u16,
    pub sp: u16,
    pub mem: Seq<u8>,
}

/// An integer taken modulo 2^16.
pub open spec fn wrap16(x: int) -> u16 {
    (x % 0x10000) as u16
}

/// An integer taken modulo 2^8.
pub open spec fn wrap8(x: int) -> u8 {
    (x % 0x100) as u8
}

/// One when the flag is set, zero otherwise.
pub open spec fn carry_in(c: bool) -> int {
    if c { 1 } else { 0 }
}

/// The two's-complement value of a byte.
pub open spec fn signed(b: u8) -> int {
    if b >= 128 { b - 256 } else { b as int }
}

// 8-bit arithmetic: `c` is the incoming carry (false for ADD, SUB and CP).

pub open spec fn add_value(a: u8, n: u8, c: bool) -> u8 {
    wrap8(a + n + carry_in(c))
}

pub open spec fn add_carry(a: u8, n: u8, c: bool) -> bool {
    a + n + carry_in(c) > 0xFF
}

pub open spec fn add_half_carry(a: u8, n: u8, c: bool) -> bool {
    a % 16 + n % 16 + carry_in(c) > 0xF
}

pub open spec fn sub_value(a: u8, n: u8, c: bool) -> u8 {
    wrap8(a - n - carry_in(c))
}

pub open spec fn sub_carry(a: u8, n: u8, c: bool) -> bool {
    a < n + carry_in(c)
}

pub open spec fn sub_half_carry(a: u8, n: u8, c: bool) -> bool {
    a % 16 < n % 16 + carry_in(c)
}

// Rotates and shifts by one bit; `c` is the incoming carry of RL and RR.

pub open spec fn rlc_value(v: u8) -> u8 {
    ((v << 1u8) | (v >> 7u8)) as u8
}

pub open spec fn rrc_value(v: u8) -> u8 {
    ((v >> 1u8) | (v << 7u8)) as u8
}

pub open spec fn rl_value(v: u8, c: bool) -> u8 {
    ((v << 1u8) | (if c { 1u8 } else { 0u8 })) as u8
}

pub open spec fn rr_value(v: u8, c: bool) -> u8 {
    ((v >> 1u8) | (if c { 0x80u8 } else { 0u8 })) as u8
}

pub open spec fn sla_value(v: u8) -> u8 {
    (v << 1u8) as u8
}

pub open spec fn sra_value(v: u8) -> u8 {
    ((v >> 1u8) | (v & 0x80u8)) as u8
}

pub open spec fn srl_value(v: u8) -> u8 {
    v >> 1u8
}

pub open spec fn swap_value(v: u8) -> u8 {
    ((v >> 4u8) | (v << 4u8)) as u8
}

pub open spec fn set_bit_value(v: u8, b: u8) -> u8 {
    v | ((1u8 << b) as u8)
}

pub open spec fn res_bit_value(v: u8, b: u8) -> u8 {
    v & !((1u8 << b) as u8)
}

/// The carry flag after DAA: set by an addition whose result needs the high digit
/// corrected, kept by a subtraction.
pub open spec fn daa_carry(a: u8, subtract: bool, carry: bool) -> bool {
    if subtract { carry } else { carry || a > 0x99 }
}

/// A after DAA: 0x60 corrects the high digit and 0x06 the low digit, added after an
/// addition and taken away after a subtraction.
pub open spec fn daa_value(a: u8, subtract: bool, half_carry: bool, carry: bool) -> u8 {
    let high: int = if daa_carry(a, subtract, carry) { 0x60 } else { 0 };
    if subtract {
        wrap8(a - high - (if half_carry { 6int } else { 0int }))
    } else {
        wrap8(a + high + (if half_carry || a % 16 > 9 { 6int } else { 0int }))
    }
}

impl Machine {
    /// Memory holds one byte for every 16-bit address.
    pub open spec fn wf(self) -> bool {
        self.mem.len() == 0x10000
    }

    pub open spec fn read(self, address: u16) -> u8 {
        self.mem[address as int]
    }

    /// The byte after the opcode.
    pub open spec fn imm8(self) -> u8 {
        self.read(wrap16(self.pc + 1))
    }

    /// The little-endian word in the two bytes after the opcode.
    pub open spec fn imm16(self) -> u16 {
        pair(self.read(wrap16(self.pc + 2)), self.read(wrap16(self.pc + 1)))
    }

    pub open spec fn hl(self) -> u16 {
        self.regs.word(WordTarget::HL)
    }

    pub open spec fn source_value(self, s: Source) -> u8 {
        match s {
            Source::Reg(t) => self.regs.byte(t),
            Source::HlIndirect => self.read(self.hl()),
            Source::Immediate => self.imm8(),
        }
    }

    pub open spec fn place_value(self, p: Place) -> u8 {
        match p {
            Place::Reg(t) => self.regs.byte(t),
            Place::HlIndirect => self.read(self.hl()),
        }
    }

    /// The machine after writing `v` to the place.
    pub open spec fn store(self, p: Place, v: u8) -> Machine {
        match p {
            Place::Reg(t) => Machine { regs: self.regs.with_byte(t, v), ..self },
            Place::HlIndirect => Machine { mem: self.mem.update(self.hl() as int, v), ..self },
        }
    }

    /// The machine after all four flags are set.
    pub open spec fn flagged(self, zero: bool, subtract: bool, carry: bool, half_carry: bool) -> Machine {
        Machine { regs: self.regs.with_flags(zero, subtract, carry, half_carry), ..self }
    }

    pub open spec fn condition(self, t: JumpTest) -> bool {
        match t {
            JumpTest::NotZero => !self.regs.f.zero,
            JumpTest::Zero => self.regs.f.zero,
            JumpTest::NotCarry => !self.regs.f.carry,
            JumpTest::Carry => self.regs.f.carry,
            JumpTest::Always => true,
        }
    }

    pub open spec fn word_reg(self, w: WordReg) -> u16 {
        match w {
            WordReg::BC => self.regs.word(WordTarget::BC),
            WordReg::DE => self.regs.word(WordTarget::DE),
            WordReg::HL => self.regs.word(WordTarget::HL),
            WordReg::SP => self.sp,
        }
    }

    pub open spec fn with_word_reg(self, w: WordReg, v: u16) -> Machine {
        match w {
            WordReg::BC => Machine { regs: self.regs.with_word(WordTarget::BC, v), ..self },
            WordReg::DE => Machine { regs: self.regs.with_word(WordTarget::DE, v), ..self },
            WordReg::HL => Machine { regs: self.regs.with_word(WordTarget::HL, v), ..self },
            WordReg::SP => Machine { sp: v, ..self },
        }
    }

    /// SP drops by two; the high byte goes to SP - 1, the low byte to SP - 2.
    pub open spec fn pushed(self, v: u16) -> Machine {
        let hi = (v / 256) as u8;
        let lo = (v % 256) as u8;
        Machine {
            sp: wrap16(self.sp - 2),
            mem: self.mem.update(wrap16(self.sp - 1) as int, hi).update(
                wrap16(self.sp - 2) as int,
                lo,
            ),
            ..self
        }
    }

    /// The little-endian word at SP.
    pub open spec fn top(self) -> u16 {
        pair(self.read(wrap16(self.sp + 1)), self.read(self.sp))
    }

    /// SP rises by two, past the word at the top of the stack.
    pub open spec fn popped(self) -> Machine {
        Machine { sp: wrap16(self.sp + 2), ..self }
    }

    /// The address that a load or store of A uses.
    pub open spec fn address(self, a: Address) -> u16 {
        match a {
            Address::BC => self.regs.word(WordTarget::BC),
            Address::DE => self.regs.word(WordTarget::DE),
            Address::HlIncrement => self.hl(),
            Address::HlDecrement => self.hl(),
            Address::Absolute => self.imm16(),
            Address::HighImmediate => wrap16(0xFF00 + self.imm8()),
            Address::HighC => wrap16(0xFF00 + self.regs.c),
        }
    }

    /// HL moved on after a load or store through (HL+) or (HL-).
    pub open spec fn after_address(self, a: Address) -> Machine {
        match a {
            Address::HlIncrement => self.with_word_reg(WordReg::HL, wrap16(self.hl() + 1)),
            Address::HlDecrement => self.with_word_reg(WordReg::HL, wrap16(self.hl() - 1)),
            _ => self,
        }
    }

    /// ADD HL,rr: half-carry out of bit 11, carry out of bit 15, zero kept.
    pub open spec fn after_add_hl(self, w: WordReg) -> Machine {
        let hl = self.hl();
        let n = self.word_reg(w);
        self.flagged(self.regs.f.zero, false, hl + n > 0xFFFF, hl % 4096 + n % 4096 > 0xFFF)
            .with_word_reg(WordReg::HL, wrap16(hl + n))
    }

    /// SP plus the signed byte after the opcode, with the flags of ADD SP,e: half-carry
    /// and carry out of bits 3 and 7 of the unsigned low-byte sum, zero and subtract clear.
    pub open spec fn after_sp_offset(self, target: WordReg) -> Machine {
        let e = self.imm8();
        self.flagged(false, false, self.sp % 256 + e > 0xFF, self.sp % 16 + e % 16 > 0xF)
            .with_word_reg(target, wrap16(self.sp + signed(e)))
    }

    /// ADD (no carry in) or ADC (the carry flag in).
    pub open spec fn after_add(self, n: u8, use_carry: bool) -> Machine {
        let a = self.regs.a;
        let c = use_carry && self.regs.f.carry;
        let v = add_value(a, n, c);
        self.flagged(v == 0, false, add_carry(a, n, c), add_half_carry(a, n, c)).store(
            Place::Reg(ByteTarget::A),
            v,
        )
    }

    /// The flags that SUB (no carry in) or SBC (the carry flag in) set.
    pub open spec fn after_compare(self, n: u8, use_carry: bool) -> Machine {
        let a = self.regs.a;
        let c = use_carry && self.regs.f.carry;
        self.flagged(sub_value(a, n, c) == 0, true, sub_carry(a, n, c), sub_half_carry(a, n, c))
    }

    /// SUB or SBC: the flags of the comparison, then the difference into A.
    pub open spec fn after_sub(self, n: u8, use_carry: bool) -> Machine {
        let c = use_carry && self.regs.f.carry;
        self.after_compare(n, use_carry).store(
            Place::Reg(ByteTarget::A),
            sub_value(self.regs.a, n, c),
        )
    }

    /// AND, OR and XOR: the result into A, then flags; half-carry is set by AND only.
    pub open spec fn after_logic(self, v: u8, half_carry: bool) -> Machine {
        self.store(Place::Reg(ByteTarget::A), v).flagged(v == 0, false, false, half_carry)
    }

    /// INC: carry kept, half-carry when the low nibble was 0xF.
    pub open spec fn after_inc(self, p: Place) -> Machine {
        let v = self.place_value(p);
        let r = wrap8(v + 1);
        self.flagged(r == 0, false, self.regs.f.carry, v % 16 == 15).store(p, r)
    }

    /// DEC: carry kept, half-carry when the low nibble was 0.
    pub open spec fn after_dec(self, p: Place) -> Machine {
        let v = self.place_value(p);
        let r = wrap8(v - 1);
        self.flagged(r == 0, true, self.regs.f.carry, v % 16 == 0).store(p, r)
    }

    /// A rotate or shift of the value at `p` to `r`, with carry-out `c`; zero is set from
    /// the result only when `set_zero`.
    pub open spec fn after_shift(self, p: Place, r: u8, c: bool, set_zero: bool) -> Machine {
        self.flagged(set_zero && r == 0, false, c, false).store(p, r)
    }

    /// BIT: zero when the bit is clear, half-carry set, carry kept.
    pub open spec fn after_bit(self, b: u8, p: Place) -> Machine {
        self.flagged(!bit_of(self.place_value(p), b), false, self.regs.f.carry, true)
    }

    /// The machine after the instruction, with PC not yet moved.
    pub open spec fn effect(self, i: Instruction) -> Machine {
        match i {
            Instruction::NOP => self,
            Instruction::LD(s, p) => self.store(p, self.source_value(s)),
            Instruction::LDA(a) => self.store(Place::Reg(ByteTarget::A), self.read(self.address(a)))
                .after_address(a),
            Instruction::STA(a) => Machine {
                mem: self.mem.update(self.address(a) as int, self.regs.a),
                ..self
            }.after_address(a),
            Instruction::LDW(w) => self.with_word_reg(w, self.imm16()),
            Instruction::LDSPHL => Machine { sp: self.hl(), ..self },
            Instruction::STSP => Machine {
                mem: self.mem.update(self.imm16() as int, (self.sp % 256) as u8).update(
                    wrap16(self.imm16() + 1) as int,
                    (self.sp / 256) as u8,
                ),
                ..self
            },
            Instruction::ADDHL(w) => self.after_add_hl(w),
            Instruction::ADDSP => self.after_sp_offset(WordReg::SP),
            Instruction::LDHLSP => self.after_sp_offset(WordReg::HL),
            Instruction::DAA => {
                let f = self.regs.f;
                let v = daa_value(self.regs.a, f.subtract, f.half_carry, f.carry);
                self.flagged(v == 0, f.subtract, daa_carry(self.regs.a, f.subtract, f.carry), false)
                    .store(Place::Reg(ByteTarget::A), v)
            },
            Instruction::CPL => self.flagged(self.regs.f.zero, true, self.regs.f.carry, true).store(
                Place::Reg(ByteTarget::A),
                !self.regs.a,
            ),
            Instruction::SCF => self.flagged(self.regs.f.zero, false, true, false),
            Instruction::CCF => self.flagged(self.regs.f.zero, false, !self.regs.f.carry, false),
            Instruction::ADD(s) => self.after_add(self.source_value(s), false),
            Instruction::ADC(s) => self.after_add(self.source_value(s), true),
            Instruction::SUB(s) => self.after_sub(self.source_value(s), false),
            Instruction::SBC(s) => self.after_sub(self.source_value(s), true),
            Instruction::CP(s) => self.after_compare(self.source_value(s), false),
            Instruction::AND(s) => self.after_logic(self.regs.a & self.source_value(s), true),
            Instruction::OR(s) => self.after_logic(self.regs.a | self.source_value(s), false),
            Instruction::XOR(s) => self.after_logic(self.regs.a ^ self.source_value(s), false),
            Instruction::INC(p) => self.after_inc(p),
            Instruction::DEC(p) => self.after_dec(p),
            Instruction::INCW(w) => self.with_word_reg(w, wrap16(self.word_reg(w) + 1)),
            Instruction::DECW(w) => self.with_word_reg(w, wrap16(self.word_reg(w) - 1)),
            Instruction::RLCA => self.after_shift(
                Place::Reg(ByteTarget::A),
                rlc_value(self.regs.a),
                bit_of(self.regs.a, 7),
                false,
            ),
            Instruction::RLA => self.after_shift(
                Place::Reg(ByteTarget::A),
                rl_value(self.regs.a, self.regs.f.carry),
                bit_of(self.regs.a, 7),
                false,
            ),
            Instruction::RRCA => self.after_shift(
                Place::Reg(ByteTarget::A),
                rrc_value(self.regs.a),
                self.regs.a & 1u8 == 1u8,
                false,
            ),
            Instruction::RRA => self.after_shift(
                Place::Reg(ByteTarget::A),
                rr_value(self.regs.a, self.regs.f.carry),
                self.regs.a & 1u8 == 1u8,
                false,
            ),
            Instruction::RLC(p) => {
                let v = self.place_value(p);
                self.after_shift(p, rlc_value(v), bit_of(v, 7), true)
            },
            Instruction::RL(p) => {
                let v = self.place_value(p);
                self.after_shift(p, rl_value(v, self.regs.f.carry), bit_of(v, 7), true)
            },
            Instruction::RRC(p) => {
                let v = self.place_value(p);
                self.after_shift(p, rrc_value(v), v & 1u8 == 1u8, true)
            },
            Instruction::RR(p) => {
                let v = self.place_value(p);
                self.after_shift(p, rr_value(v, self.regs.f.carry), v & 1u8 == 1u8, true)
            },
            Instruction::SLA(p) => {
                let v = self.place_value(p);
                self.after_shift(p, sla_value(v), bit_of(v, 7), true)
            },
            Instruction::SRA(p) => {
                let v = self.place_value(p);
                self.after_shift(p, sra_value(v), v & 1u8 == 1u8, true)
            },
            Instruction::SRL(p) => {
                let v = self.place_value(p);
                self.after_shift(p, srl_value(v), v & 1u8 == 1u8, true)
            },
            Instruction::SWAP(p) => {
                let v = self.place_value(p);
                self.after_shift(p, swap_value(v), false, true)
            },
            Instruction::BIT(b, p) => self.after_bit(b, p),
            Instruction::SET(b, p) => self.store(p, set_bit_value(self.place_value(p), b)),
            Instruction::RES(b, p) => self.store(p, res_bit_value(self.place_value(p), b)),
            Instruction::JP(_) => self,
            Instruction::JPHL => self,
            Instruction::JR(_) => self,
            Instruction::CALL(t) => if self.condition(t) {
                self.pushed(wrap16(self.pc + 3))
            } else {
                self
            },
            Instruction::RET(t) => if self.condition(t) {
                self.popped()
            } else {
                self
            },
            Instruction::RETI => self.popped(),
            Instruction::RST(_) => self.pushed(wrap16(self.pc + 1)),
            Instruction::HALT | Instruction::STOP | Instruction::DI | Instruction::EI => self,
            Instruction::PUSH(w) => self.pushed(self.regs.word(w)),
            Instruction::POP(w) => Machine {
                regs: self.regs.with_word(w, self.top()),
                ..self.popped()
            },
        }
    }

    /// The address of the next instruction after executing `i` at PC.
    pub open spec fn next_pc(self, i: Instruction) -> u16 {
        match i {
            Instruction::JP(t) => if self.condition(t) {
                self.imm16()
            } else {
                wrap16(self.pc + 3)
            },
            Instruction::JPHL => self.hl(),
            Instruction::JR(t) => if self.condition(t) {
                wrap16(self.pc + 2 + signed(self.imm8()))
            } else {
                wrap16(self.pc + 2)
            },
            Instruction::CALL(t) => if self.condition(t) {
                self.imm16()
            } else {
                wrap16(self.pc + 3)
            },
            Instruction::RET(t) => if self.condition(t) {
                self.top()
            } else {
                wrap16(self.pc + 1)
            },
            Instruction::RETI => self.top(),
            Instruction::RST(target) => target as u16,
            _ => wrap16(self.pc + instruction_length(i)),
        }
    }
}

/// The encoded length in bytes of an instruction that does not branch.
pub open spec fn instruction_length(i: Instruction) -> int {
    match i {
        Instruction::LD(Source::Immediate, _) => 2,
        Instruction::ADD(Source::Immediate) => 2,
        Instruction::ADC(Source::Immediate) => 2,
        Instruction::SUB(Source::Immediate) => 2,
        Instruction::SBC(Source::Immediate) => 2,
        Instruction::AND(Source::Immediate) => 2,
        Instruction::XOR(Source::Immediate) => 2,
        Instruction::OR(Source::Immediate) => 2,
        Instruction::CP(Source::Immediate) => 2,
        Instruction::LDW(_) => 3,
        Instruction::STSP => 3,
        Instruction::STOP => 2,
        Instruction::ADDSP => 2,
        Instruction::LDHLSP => 2,
        Instruction::LDA(Address::Absolute) => 3,
        Instruction::STA(Address::Absolute) => 3,
        Instruction::LDA(Address::HighImmediate) => 2,
        Instruction::STA(Address::HighImmediate) => 2,
        Instruction::RLC(_) => 2,
        Instruction::RRC(_) => 2,
        Instruction::RL(_) => 2,
        Instruction::RR(_) => 2,
        Instruction::SLA(_) => 2,
        Instruction::SRA(_) => 2,
        Instruction::SWAP(_) => 2,
        Instruction::SRL(_) => 2,
        Instruction::BIT(_, _) => 2,
        Instruction::RES(_, _) => 2,
        Instruction::SET(_, _) => 2,
        _ => 1,
    }
}

} // verus!
