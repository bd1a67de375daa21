//! Laws of the instruction semantics, stated over `Machine::effect` and
//! `Machine::next_pc`. `CPU::execute` ensures `final@ == old@.effect(i)` and returns
//! `old@.next_pc(i)`, so each law holds of executing the instruction on a CPU.
use vstd::prelude::*;
use crate::instruction::{normal_decoding, Instruction, JumpTest, Place, Source};
use crate::machine::{rlc_value, wrap16, wrap8, Machine};
use crate::registers::{bit_of, lemma_flags_round_trip, ByteTarget, FlagsRegister, Registers, WordTarget};

verus! {

/// The normal table leaves out only the eleven illegal opcodes and the prefix byte,
/// whose next byte is decoded against the extended table; every extended opcode is
/// defined by construction.
pub proof fn lemma_undefined_opcodes(op: u8)
    ensures
        normal_decoding(op) is None <==> (op == 0xCB || op == 0xD3 || op == 0xDB || op == 0xDD
            || op == 0xE3 || op == 0xE4 || op == 0xEB || op == 0xEC || op == 0xED || op == 0xF4
            || op == 0xFC || op == 0xFD),
{
}

/// A register pair reads back the word last written to it, but for AF, whose low byte
/// goes through the flags and so keeps only its high nibble; writing a pair leaves the
/// other pairs' registers as they were.
pub proof fn lemma_word_round_trip(r: Registers, w: WordTarget, v: u16)
    ensures
        w != WordTarget::AF ==> r.with_word(w, v).word(w) == v,
        w == WordTarget::AF ==> r.with_word(w, v).word(w) == v & 0xFFF0,
        w != WordTarget::BC ==> r.with_word(w, v).word(WordTarget::BC) == r.word(WordTarget::BC),
        w != WordTarget::DE ==> r.with_word(w, v).word(WordTarget::DE) == r.word(WordTarget::DE),
        w != WordTarget::HL ==> r.with_word(w, v).word(WordTarget::HL) == r.word(WordTarget::HL),
{
    let lo = (v % 256) as u8;
    lemma_flags_round_trip(lo);
    assert(FlagsRegister::unpacked(lo).packed() == lo & 0xF0);
    assert((v / 256) as u8 as int * 256 + (lo & 0xF0) as int == v & 0xFFF0) by (bit_vector)
        requires
            lo == (v % 256) as u8,
    ;
}

/// ADD A,n sets carry exactly when the unsigned sum of A and n exceeds 0xFF, sets
/// half-carry exactly when the sum of their low nibbles exceeds 0xF, and leaves their
/// sum modulo 256 in A.
pub proof fn lemma_add_flags(m: Machine, s: Source)
    ensures
        ({
            let a = m.regs.a;
            let n = m.source_value(s);
            let after = m.effect(Instruction::ADD(s));
            &&& after.regs.f.carry == (a as u16 + n as u16 > 0xFF)
            &&& after.regs.f.half_carry == ((a & 0xF) + (n & 0xF) > 0xF)
            &&& after.regs.a == (a + n) % 256
            &&& after.regs.f.zero == (after.regs.a == 0)
            &&& !after.regs.f.subtract
        }),
{
    let a = m.regs.a;
    let n = m.source_value(s);
    assert(a & 0xF == a % 16 && n & 0xF == n % 16) by (bit_vector);
}

/// Subtracting A from itself leaves zero in A, sets zero and subtract, and clears carry
/// and half-carry.
pub proof fn lemma_sub_self(m: Machine, s: Source)
    requires
        m.source_value(s) == m.regs.a,
    ensures
        ({
            let after = m.effect(Instruction::SUB(s));
            &&& after.regs.a == 0
            &&& after.regs.f.zero
            &&& after.regs.f.subtract
            &&& !after.regs.f.carry
            &&& !after.regs.f.half_carry
        }),
{
}

/// INC followed by DEC on the same register or on memory at HL gives back the original
/// value, and neither changes the carry flag. (F is left out: a byte written to F loses
/// its low nibble.)
pub proof fn lemma_inc_dec_round_trip(m: Machine, p: Place)
    requires
        m.wf(),
        p != Place::Reg(ByteTarget::F),
    ensures
        ({
            let after_inc = m.effect(Instruction::INC(p));
            let after_dec = after_inc.effect(Instruction::DEC(p));
            &&& after_dec.place_value(p) == m.place_value(p)
            &&& after_inc.regs.f.carry == m.regs.f.carry
            &&& after_dec.regs.f.carry == m.regs.f.carry
        }),
{
    let v = m.place_value(p);
    let after_inc = m.effect(Instruction::INC(p));
    assert(after_inc.place_value(p) == wrap8(v + 1));
    assert(wrap8(wrap8(v + 1) - 1) == v);
}

/// JP Z jumps to the little-endian address in the two bytes after the opcode when the
/// zero flag is set, and moves PC on by exactly three bytes when it is clear; either
/// way no register, flag or memory byte changes.
pub proof fn lemma_jump_on_zero(m: Machine)
    ensures
        m.regs.f.zero ==> m.next_pc(Instruction::JP(JumpTest::Zero)) == m.read(wrap16(m.pc + 1))
            + 256 * m.read(wrap16(m.pc + 2)),
        !m.regs.f.zero ==> m.next_pc(Instruction::JP(JumpTest::Zero)) == wrap16(m.pc + 3),
        m.effect(Instruction::JP(JumpTest::Zero)) == m,
{
}

/// One RLC on a register other than F, or on memory at HL: the value is rotated left,
/// carry takes its old bit 7, and memory keeps its size.
proof fn lemma_rlc_step(m: Machine, p: Place)
    requires
        m.wf(),
        p != Place::Reg(ByteTarget::F),
    ensures
        m.effect(Instruction::RLC(p)).wf(),
        m.effect(Instruction::RLC(p)).place_value(p) == rlc_value(m.place_value(p)),
        m.effect(Instruction::RLC(p)).regs.f.carry == bit_of(m.place_value(p), 7),
{
}

/// RLC applied eight times to a register other than F, or to memory at HL, gives back
/// the original value, and the carry flag then holds bit 0 of that value.
pub proof fn lemma_rlc_eight_times(m: Machine, p: Place)
    requires
        m.wf(),
        p != Place::Reg(ByteTarget::F),
    ensures
        ({
            let i = Instruction::RLC(p);
            let after = m.effect(i).effect(i).effect(i).effect(i).effect(i).effect(i).effect(
                i,
            ).effect(i);
            &&& after.place_value(p) == m.place_value(p)
            &&& after.regs.f.carry == bit_of(m.place_value(p), 0)
        }),
{
    let i = Instruction::RLC(p);
    let m1 = m.effect(i);
    let m2 = m1.effect(i);
    let m3 = m2.effect(i);
    let m4 = m3.effect(i);
    let m5 = m4.effect(i);
    let m6 = m5.effect(i);
    let m7 = m6.effect(i);
    lemma_rlc_step(m, p);
    lemma_rlc_step(m1, p);
    lemma_rlc_step(m2, p);
    lemma_rlc_step(m3, p);
    lemma_rlc_step(m4, p);
    lemma_rlc_step(m5, p);
    lemma_rlc_step(m6, p);
    lemma_rlc_step(m7, p);
    let v = m.place_value(p);
    assert(rlc_value(rlc_value(rlc_value(rlc_value(rlc_value(rlc_value(rlc_value(rlc_value(v))))))))
        == v && bit_of(rlc_value(rlc_value(rlc_value(rlc_value(rlc_value(rlc_value(rlc_value(v))))))), 7)
        == bit_of(v, 0)) by (bit_vector);
}

/// RLC applied eight times leaves in carry bit 7 of the original value, for every value
/// whose bit 7 equals its bit 0 (the carry holds bit 0 in general).
pub proof fn lemma_rlc_eight_times_carry(m: Machine, p: Place)
    requires
        m.wf(),
        p != Place::Reg(ByteTarget::F),
        bit_of(m.place_value(p), 7) == bit_of(m.place_value(p), 0),
    ensures
        ({
            let i = Instruction::RLC(p);
            let after = m.effect(i).effect(i).effect(i).effect(i).effect(i).effect(i).effect(
                i,
            ).effect(i);
            after.regs.f.carry == bit_of(m.place_value(p), 7)
        }),
{
    lemma_rlc_eight_times(m, p);
}

} // verus!
