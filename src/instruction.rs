use vstd::prelude::*;
use crate::registers::{ByteTarget, WordTarget};

verus! {

/// A byte operand that can be written: a register, or memory at the address in HL.
#[derive(Clone, Copy, Debug, PartialEq, Eq, Structural)]
pub enum Place {
    Reg(ByteTarget),
    HlIndirect,
}

/// A byte operand that can be read: a register, memory at HL, or the byte after the opcode.
#[derive(Clone, Copy, Debug, PartialEq, Eq, Structural)]
pub enum Source {
    Reg(ByteTarget),
    HlIndirect,
    Immediate,
}

/// A 16-bit register operand of the 16-bit loads, increments and decrements.
#[derive(Clone, Copy, Debug, PartialEq, Eq, Structural)]
pub enum WordReg {
    BC,
    DE,
    HL,
    SP,
}

/// The address of a load or store of A.
#[derive(Clone, Copy, Debug, PartialEq, Eq, Structural)]
pub enum Address {
    BC,
    DE,
    /// The address in HL, which then rises by one.
    HlIncrement,
    /// The address in HL, which then drops by one.
    HlDecrement,
    /// The 16-bit immediate.
    Absolute,
    /// 0xFF00 plus the byte after the opcode.
    HighImmediate,
    /// 0xFF00 plus C.
    HighC,
}

/// The condition that gates a jump, call or return.
#[derive(Clone, Copy, Debug, PartialEq, Eq, Structural)]
pub enum JumpTest {
    NotZero,
    Zero,
    NotCarry,
    Carry,
    Always,
}

/// A decoded instruction: the operation and its operand selectors.
#[derive(Clone, Copy, Debug, PartialEq, Eq, Structural)]
pub enum Instruction {
    NOP,
    /// Copies the byte of the source into the place.
    LD(Source, Place),
    /// Loads A from memory.
    LDA(Address),
    /// Stores A to memory.
    STA(Address),
    /// Loads the 16-bit immediate into a register pair or SP.
    LDW(WordReg),
    /// Copies HL into SP.
    LDSPHL,
    /// Stores SP, little-endian, at the 16-bit immediate.
    STSP,
    /// Adds a register pair or SP to HL.
    ADDHL(WordReg),
    /// Adds the signed byte after the opcode to SP.
    ADDSP,
    /// Loads SP plus the signed byte after the opcode into HL.
    LDHLSP,
    ADD(Source),
    ADC(Source),
    SUB(Source),
    SBC(Source),
    AND(Source),
    XOR(Source),
    OR(Source),
    CP(Source),
    INC(Place),
    DEC(Place),
    INCW(WordReg),
    DECW(WordReg),
    RLCA,
    RRCA,
    RLA,
    RRA,
    /// Adjusts A to binary-coded decimal after an addition or subtraction.
    DAA,
    /// Complements A.
    CPL,
    /// Sets the carry flag.
    SCF,
    /// Complements the carry flag.
    CCF,
    RLC(Place),
    RRC(Place),
    RL(Place),
    RR(Place),
    SLA(Place),
    SRA(Place),
    SWAP(Place),
    SRL(Place),
    /// Tests the bit with the given index (0 to 7).
    BIT(u8, Place),
    RES(u8, Place),
    SET(u8, Place),
    /// Jumps to the 16-bit immediate.
    JP(JumpTest),
    /// Jumps to the address in HL.
    JPHL,
    /// Jumps by the signed byte after the opcode, relative to the next instruction.
    JR(JumpTest),
    CALL(JumpTest),
    RET(JumpTest),
    /// Returns, as RET does; interrupt enabling is outside this core.
    RETI,
    /// Calls the fixed address given (0x00, 0x08, ..., 0x38).
    RST(u8),
    PUSH(WordTarget),
    POP(WordTarget),
    /// Waits for an interrupt; this core models no interrupts, so it moves on at once.
    HALT,
    /// Enters low-power mode; this core moves on past its two bytes.
    STOP,
    /// Disables interrupts; this core models no interrupt state.
    DI,
    /// Enables interrupts; this core models no interrupt state.
    EI,
}

/// Opcode prefix byte that selects the extended table for the next byte.
pub const PREFIX_BYTE: u8 = 0xCB;

impl Instruction {
    /// Every bit index that the instruction carries is below 8.
    pub open spec fn wf(self) -> bool {
        match self {
            Instruction::BIT(b, _) => b < 8,
            Instruction::RES(b, _) => b < 8,
            Instruction::SET(b, _) => b < 8,
            _ => true,
        }
    }
}

/// Operand field code: 0 to 7 select B, C, D, E, H, L, (HL), A.
pub open spec fn place_code(i: u8) -> Place {
    if i == 0 {
        Place::Reg(ByteTarget::B)
    } else if i == 1 {
        Place::Reg(ByteTarget::C)
    } else if i == 2 {
        Place::Reg(ByteTarget::D)
    } else if i == 3 {
        Place::Reg(ByteTarget::E)
    } else if i == 4 {
        Place::Reg(ByteTarget::H)
    } else if i == 5 {
        Place::Reg(ByteTarget::L)
    } else if i == 6 {
        Place::HlIndirect
    } else {
        Place::Reg(ByteTarget::A)
    }
}

/// The same operand field read as a source.
pub open spec fn source_code(i: u8) -> Source {
    match place_code(i) {
        Place::Reg(t) => Source::Reg(t),
        Place::HlIndirect => Source::HlIndirect,
    }
}

/// Condition field code: 0 to 3 select NZ, Z, NC, C.
pub open spec fn condition_code(i: u8) -> JumpTest {
    if i == 0 {
        JumpTest::NotZero
    } else if i == 1 {
        JumpTest::Zero
    } else if i == 2 {
        JumpTest::NotCarry
    } else {
        JumpTest::Carry
    }
}

/// Register-pair field code of the 16-bit loads and arithmetic: BC, DE, HL, SP.
pub open spec fn word_reg_code(i: u8) -> WordReg {
    if i == 0 {
        WordReg::BC
    } else if i == 1 {
        WordReg::DE
    } else if i == 2 {
        WordReg::HL
    } else {
        WordReg::SP
    }
}

/// Address field code of the loads and stores of A: (BC), (DE), (HL+), (HL-).
pub open spec fn address_code(i: u8) -> Address {
    if i == 0 {
        Address::BC
    } else if i == 1 {
        Address::DE
    } else if i == 2 {
        Address::HlIncrement
    } else {
        Address::HlDecrement
    }
}

/// Register-pair field code of PUSH and POP: BC, DE, HL, AF.
pub open spec fn stack_pair_code(i: u8) -> WordTarget {
    if i == 0 {
        WordTarget::BC
    } else if i == 1 {
        WordTarget::DE
    } else if i == 2 {
        WordTarget::HL
    } else {
        WordTarget::AF
    }
}

/// ALU field code: ADD, ADC, SUB, SBC, AND, XOR, OR, CP.
pub open spec fn alu_code(y: u8, s: Source) -> Instruction {
    if y == 0 {
        Instruction::ADD(s)
    } else if y == 1 {
        Instruction::ADC(s)
    } else if y == 2 {
        Instruction::SUB(s)
    } else if y == 3 {
        Instruction::SBC(s)
    } else if y == 4 {
        Instruction::AND(s)
    } else if y == 5 {
        Instruction::XOR(s)
    } else if y == 6 {
        Instruction::OR(s)
    } else {
        Instruction::CP(s)
    }
}

/// Rotate/shift field code of the extended table: RLC, RRC, RL, RR, SLA, SRA, SWAP, SRL.
pub open spec fn rotation_code(y: u8, p: Place) -> Instruction {
    if y == 0 {
        Instruction::RLC(p)
    } else if y == 1 {
        Instruction::RRC(p)
    } else if y == 2 {
        Instruction::RL(p)
    } else if y == 3 {
        Instruction::RR(p)
    } else if y == 4 {
        Instruction::SLA(p)
    } else if y == 5 {
        Instruction::SRA(p)
    } else if y == 6 {
        Instruction::SWAP(p)
    } else {
        Instruction::SRL(p)
    }
}

/// The normal opcode table, by the fields x = op / 64, y = op / 8 % 8, z = op % 8,
/// p = y / 2, q = y % 2. Only the illegal slots and the prefix byte itself decode to
/// `None`.
pub open spec fn normal_decoding(op: u8) -> Option<Instruction> {
    let x = op / 64;
    let y = ((op / 8) % 8) as u8;
    let z = op % 8;
    let p = y / 2;
    let q = y % 2;
    if x == 0 {
        if z == 0 {
            if y == 0 {
                Some(Instruction::NOP)
            } else if y == 1 {
                Some(Instruction::STSP)
            } else if y == 2 {
                Some(Instruction::STOP)
            } else if y == 3 {
                Some(Instruction::JR(JumpTest::Always))
            } else if y >= 4 {
                Some(Instruction::JR(condition_code((y - 4) as u8)))
            } else {
                None
            }
        } else if z == 1 {
            if q == 0 {
                Some(Instruction::LDW(word_reg_code(p)))
            } else {
                Some(Instruction::ADDHL(word_reg_code(p)))
            }
        } else if z == 2 {
            if q == 0 {
                Some(Instruction::STA(address_code(p)))
            } else {
                Some(Instruction::LDA(address_code(p)))
            }
        } else if z == 3 {
            if q == 0 {
                Some(Instruction::INCW(word_reg_code(p)))
            } else {
                Some(Instruction::DECW(word_reg_code(p)))
            }
        } else if z == 4 {
            Some(Instruction::INC(place_code(y)))
        } else if z == 5 {
            Some(Instruction::DEC(place_code(y)))
        } else if z == 6 {
            Some(Instruction::LD(Source::Immediate, place_code(y)))
        } else if z == 7 {
            if y == 0 {
                Some(Instruction::RLCA)
            } else if y == 1 {
                Some(Instruction::RRCA)
            } else if y == 2 {
                Some(Instruction::RLA)
            } else if y == 3 {
                Some(Instruction::RRA)
            } else if y == 4 {
                Some(Instruction::DAA)
            } else if y == 5 {
                Some(Instruction::CPL)
            } else if y == 6 {
                Some(Instruction::SCF)
            } else if y == 7 {
                Some(Instruction::CCF)
            } else {
                None
            }
        } else {
            None
        }
    } else if x == 1 {
        if y == 6 && z == 6 {
            Some(Instruction::HALT)
        } else {
            Some(Instruction::LD(source_code(z), place_code(y)))
        }
    } else if x == 2 {
        Some(alu_code(y, source_code(z)))
    } else if z == 0 {
        if y < 4 {
            Some(Instruction::RET(condition_code(y)))
        } else if y == 4 {
            Some(Instruction::STA(Address::HighImmediate))
        } else if y == 5 {
            Some(Instruction::ADDSP)
        } else if y == 6 {
            Some(Instruction::LDA(Address::HighImmediate))
        } else {
            Some(Instruction::LDHLSP)
        }
    } else if z == 1 {
        if q == 0 {
            Some(Instruction::POP(stack_pair_code(p)))
        } else if y == 1 {
            Some(Instruction::RET(JumpTest::Always))
        } else if y == 3 {
            Some(Instruction::RETI)
        } else if y == 5 {
            Some(Instruction::JPHL)
        } else if y == 7 {
            Some(Instruction::LDSPHL)
        } else {
            None
        }
    } else if z == 2 {
        if y < 4 {
            Some(Instruction::JP(condition_code(y)))
        } else if y == 4 {
            Some(Instruction::STA(Address::HighC))
        } else if y == 5 {
            Some(Instruction::STA(Address::Absolute))
        } else if y == 6 {
            Some(Instruction::LDA(Address::HighC))
        } else {
            Some(Instruction::LDA(Address::Absolute))
        }
    } else if z == 3 {
        if y == 0 {
            Some(Instruction::JP(JumpTest::Always))
        } else if y == 6 {
            Some(Instruction::DI)
        } else if y == 7 {
            Some(Instruction::EI)
        } else {
            None
        }
    } else if z == 4 {
        if y < 4 {
            Some(Instruction::CALL(condition_code(y)))
        } else {
            None
        }
    } else if z == 5 {
        if q == 0 {
            Some(Instruction::PUSH(stack_pair_code(p)))
        } else if y == 1 {
            Some(Instruction::CALL(JumpTest::Always))
        } else {
            None
        }
    } else if z == 6 {
        Some(alu_code(y, Source::Immediate))
    } else {
        Some(Instruction::RST((y * 8) as u8))
    }
}

/// The extended opcode table: every byte is defined.
pub open spec fn prefixed_decoding(op: u8) -> Instruction {
    let x = op / 64;
    let y = ((op / 8) % 8) as u8;
    let target = place_code(op % 8);
    if x == 0 {
        rotation_code(y, target)
    } else if x == 1 {
        Instruction::BIT(y, target)
    } else if x == 2 {
        Instruction::RES(y, target)
    } else {
        Instruction::SET(y, target)
    }
}

/// What `from_byte(op, prefixed)` returns.
pub open spec fn decoding(op: u8, prefixed: bool) -> Option<Instruction> {
    if prefixed {
        Some(prefixed_decoding(op))
    } else {
        normal_decoding(op)
    }
}


fn place_of(i: u8) -> (r: Place)
    requires
        i < 8,
    ensures
        r == place_code(i),
{
    match i {
        0 => Place::Reg(ByteTarget::B),
        1 => Place::Reg(ByteTarget::C),
        2 => Place::Reg(ByteTarget::D),
        3 => Place::Reg(ByteTarget::E),
        4 => Place::Reg(ByteTarget::H),
        5 => Place::Reg(ByteTarget::L),
        6 => Place::HlIndirect,
        _ => Place::Reg(ByteTarget::A),
    }
}

fn source_of(i: u8) -> (r: Source)
    requires
        i < 8,
    ensures
        r == source_code(i),
{
    match place_of(i) {
        Place::Reg(t) => Source::Reg(t),
        Place::HlIndirect => Source::HlIndirect,
    }
}

fn alu_of(y: u8, s: Source) -> (r: Instruction)
    requires
        y < 8,
    ensures
        r == alu_code(y, s),
{
    match y {
        0 => Instruction::ADD(s),
        1 => Instruction::ADC(s),
        2 => Instruction::SUB(s),
        3 => Instruction::SBC(s),
        4 => Instruction::AND(s),
        5 => Instruction::XOR(s),
        6 => Instruction::OR(s),
        _ => Instruction::CP(s),
    }
}

fn rotation_of(y: u8, p: Place) -> (r: Instruction)
    requires
        y < 8,
    ensures
        r == rotation_code(y, p),
{
    match y {
        0 => Instruction::RLC(p),
        1 => Instruction::RRC(p),
        2 => Instruction::RL(p),
        3 => Instruction::RR(p),
        4 => Instruction::SLA(p),
        5 => Instruction::SRA(p),
        6 => Instruction::SWAP(p),
        _ => Instruction::SRL(p),
    }
}

impl Instruction {
    /// Decodes an opcode of the normal table, or of the extended table when `prefixed`.
    /// `None` marks an opcode that this decoder does not define: a decode fault.
    pub fn from_byte(byte: u8, prefixed: bool) -> (r: Option<Instruction>)
        ensures
            r == decoding(byte, prefixed),
            r matches Some(i) ==> i.wf(),
    {
        if prefixed {
            Some(Instruction::from_byte_prefixed(byte))
        } else {
            Instruction::from_byte_normal(byte)
        }
    }

    pub fn from_byte_prefixed(byte: u8) -> (r: Instruction)
        ensures
            r == prefixed_decoding(byte),
            r.wf(),
    {
        let y = (byte / 8) % 8;
        let target = place_of(byte % 8);
        match byte / 64 {
            0 => rotation_of(y, target),
            1 => Instruction::BIT(y, target),
            2 => Instruction::RES(y, target),
            _ => Instruction::SET(y, target),
        }
    }

    pub fn from_byte_normal(byte: u8) -> (r: Option<Instruction>)
        ensures
            r == normal_decoding(byte),
            r matches Some(i) ==> i.wf(),
    {
        match byte {
            0x00 => Some(Instruction::NOP),
            0x08 => Some(Instruction::STSP),
            0x09 => Some(Instruction::ADDHL(WordReg::BC)),
            0x19 => Some(Instruction::ADDHL(WordReg::DE)),
            0x29 => Some(Instruction::ADDHL(WordReg::HL)),
            0x39 => Some(Instruction::ADDHL(WordReg::SP)),
            0x02 => Some(Instruction::STA(Address::BC)),
            0x12 => Some(Instruction::STA(Address::DE)),
            0x22 => Some(Instruction::STA(Address::HlIncrement)),
            0x32 => Some(Instruction::STA(Address::HlDecrement)),
            0x0A => Some(Instruction::LDA(Address::BC)),
            0x1A => Some(Instruction::LDA(Address::DE)),
            0x2A => Some(Instruction::LDA(Address::HlIncrement)),
            0x3A => Some(Instruction::LDA(Address::HlDecrement)),
            0xE0 => Some(Instruction::STA(Address::HighImmediate)),
            0xF0 => Some(Instruction::LDA(Address::HighImmediate)),
            0xE2 => Some(Instruction::STA(Address::HighC)),
            0xF2 => Some(Instruction::LDA(Address::HighC)),
            0xEA => Some(Instruction::STA(Address::Absolute)),
            0xFA => Some(Instruction::LDA(Address::Absolute)),
            0xF9 => Some(Instruction::LDSPHL),
            0x27 => Some(Instruction::DAA),
            0x2F => Some(Instruction::CPL),
            0xE8 => Some(Instruction::ADDSP),
            0xF8 => Some(Instruction::LDHLSP),
            0x37 => Some(Instruction::SCF),
            0x3F => Some(Instruction::CCF),
            0x18 => Some(Instruction::JR(JumpTest::Always)),
            0x20 => Some(Instruction::JR(JumpTest::NotZero)),
            0x28 => Some(Instruction::JR(JumpTest::Zero)),
            0x30 => Some(Instruction::JR(JumpTest::NotCarry)),
            0x38 => Some(Instruction::JR(JumpTest::Carry)),
            0x01 => Some(Instruction::LDW(WordReg::BC)),
            0x11 => Some(Instruction::LDW(WordReg::DE)),
            0x21 => Some(Instruction::LDW(WordReg::HL)),
            0x31 => Some(Instruction::LDW(WordReg::SP)),
            0x03 => Some(Instruction::INCW(WordReg::BC)),
            0x13 => Some(Instruction::INCW(WordReg::DE)),
            0x23 => Some(Instruction::INCW(WordReg::HL)),
            0x33 => Some(Instruction::INCW(WordReg::SP)),
            0x0B => Some(Instruction::DECW(WordReg::BC)),
            0x1B => Some(Instruction::DECW(WordReg::DE)),
            0x2B => Some(Instruction::DECW(WordReg::HL)),
            0x3B => Some(Instruction::DECW(WordReg::SP)),
            0x04 | 0x0C | 0x14 | 0x1C | 0x24 | 0x2C | 0x34 | 0x3C => Some(
                Instruction::INC(place_of(byte / 8)),
            ),
            0x05 | 0x0D | 0x15 | 0x1D | 0x25 | 0x2D | 0x35 | 0x3D => Some(
                Instruction::DEC(place_of(byte / 8)),
            ),
            0x06 | 0x0E | 0x16 | 0x1E | 0x26 | 0x2E | 0x36 | 0x3E => Some(
                Instruction::LD(Source::Immediate, place_of(byte / 8)),
            ),
            0x07 => Some(Instruction::RLCA),
            0x0F => Some(Instruction::RRCA),
            0x17 => Some(Instruction::RLA),
            0x1F => Some(Instruction::RRA),
            0x76 => Some(Instruction::HALT),
            0x10 => Some(Instruction::STOP),
            0xF3 => Some(Instruction::DI),
            0xFB => Some(Instruction::EI),
            0xD9 => Some(Instruction::RETI),
            0xC7 | 0xCF | 0xD7 | 0xDF | 0xE7 | 0xEF | 0xF7 | 0xFF => Some(
                Instruction::RST(byte - 0xC7),
            ),
            0x40..=0x7F => Some(Instruction::LD(source_of(byte % 8), place_of((byte / 8) % 8))),
            0x80..=0xBF => Some(alu_of((byte / 8) % 8, source_of(byte % 8))),
            0xC0 => Some(Instruction::RET(JumpTest::NotZero)),
            0xC8 => Some(Instruction::RET(JumpTest::Zero)),
            0xD0 => Some(Instruction::RET(JumpTest::NotCarry)),
            0xD8 => Some(Instruction::RET(JumpTest::Carry)),
            0xC9 => Some(Instruction::RET(JumpTest::Always)),
            0xC1 => Some(Instruction::POP(WordTarget::BC)),
            0xD1 => Some(Instruction::POP(WordTarget::DE)),
            0xE1 => Some(Instruction::POP(WordTarget::HL)),
            0xF1 => Some(Instruction::POP(WordTarget::AF)),
            0xC5 => Some(Instruction::PUSH(WordTarget::BC)),
            0xD5 => Some(Instruction::PUSH(WordTarget::DE)),
            0xE5 => Some(Instruction::PUSH(WordTarget::HL)),
            0xF5 => Some(Instruction::PUSH(WordTarget::AF)),
            0xE9 => Some(Instruction::JPHL),
            0xC2 => Some(Instruction::JP(JumpTest::NotZero)),
            0xCA => Some(Instruction::JP(JumpTest::Zero)),
            0xD2 => Some(Instruction::JP(JumpTest::NotCarry)),
            0xDA => Some(Instruction::JP(JumpTest::Carry)),
            0xC3 => Some(Instruction::JP(JumpTest::Always)),
            0xC4 => Some(Instruction::CALL(JumpTest::NotZero)),
            0xCC => Some(Instruction::CALL(JumpTest::Zero)),
            0xD4 => Some(Instruction::CALL(JumpTest::NotCarry)),
            0xDC => Some(Instruction::CALL(JumpTest::Carry)),
            0xCD => Some(Instruction::CALL(JumpTest::Always)),
            0xC6 | 0xCE | 0xD6 | 0xDE | 0xE6 | 0xEE | 0xF6 | 0xFE => Some(
                alu_of((byte / 8) % 8, Source::Immediate),
            ),
            _ => None,
        }
    }
}

} // verus!
