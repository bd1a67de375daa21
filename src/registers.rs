use vstd::prelude::*;

verus! {

/// The four condition flags of the F register.
#[derive(Clone, Copy, Debug, PartialEq, Eq, Structural)]
pub struct FlagsRegister {
    pub zero: bool,
    pub subtract: bool,
    pub half_carry: bool,
    pub carry: bool,
}

pub const ZERO_POSITION: u8 = 7;
pub const SUBTRACT_POSITION: u8 = 6;
pub const HALF_CARRY_POSITION: u8 = 5;
pub const CARRY_POSITION: u8 = 4;

/// True when bit `n` of `b` is one.
pub open spec fn bit_of(b: u8, n: u8) -> bool {
    (b >> n) & 1u8 == 1u8
}

/// The byte weight of one flag: `1 << position` when set, otherwise zero.
pub open spec fn flag_bit(set: bool, position: u8) -> u8 {
    if set { (1u8 << position) as u8 } else { 0u8 }
}

impl FlagsRegister {
    /// The packed byte: zero, subtract, half-carry and carry at bits 7, 6, 5, 4.
    pub open spec fn packed(self) -> u8 {
        flag_bit(self.zero, 7) | flag_bit(self.subtract, 6) | flag_bit(self.half_carry, 5)
            | flag_bit(self.carry, 4)
    }

    /// The flags that a byte encodes; its low nibble is ignored.
    pub open spec fn unpacked(b: u8) -> FlagsRegister {
        FlagsRegister {
            zero: bit_of(b, 7),
            subtract: bit_of(b, 6),
            half_carry: bit_of(b, 5),
            carry: bit_of(b, 4),
        }
    }

    pub fn to_byte(&self) -> (r: u8)
        ensures
            r == self.packed(),
    {
        let z: u8 = if self.zero { 1 } else { 0 };
        let n: u8 = if self.subtract { 1 } else { 0 };
        let h: u8 = if self.half_carry { 1 } else { 0 };
        let c: u8 = if self.carry { 1 } else { 0 };
        let r = (z << ZERO_POSITION) | (n << SUBTRACT_POSITION) | (h << HALF_CARRY_POSITION) | (c
            << CARRY_POSITION);
        proof {
            lemma_pack_bits(self.zero, self.subtract, self.half_carry, self.carry, z, n, h, c);
        }
        r
    }

    pub fn from_byte(byte: u8) -> (r: FlagsRegister)
        ensures
            r == FlagsRegister::unpacked(byte),
    {
        FlagsRegister {
            zero: ((byte >> ZERO_POSITION) & 1) == 1,
            subtract: ((byte >> SUBTRACT_POSITION) & 1) == 1,
            half_carry: ((byte >> HALF_CARRY_POSITION) & 1) == 1,
            carry: ((byte >> CARRY_POSITION) & 1) == 1,
        }
    }
}

impl From<FlagsRegister> for u8 {
    fn from(flag: FlagsRegister) -> (r: u8) {
        flag.to_byte()
    }
}

impl vstd::std_specs::convert::FromSpecImpl<FlagsRegister> for u8 {
    open spec fn obeys_from_spec() -> bool {
        true
    }

    open spec fn from_spec(v: FlagsRegister) -> u8 {
        v.packed()
    }
}

impl From<u8> for FlagsRegister {
    fn from(byte: u8) -> (r: FlagsRegister) {
        FlagsRegister::from_byte(byte)
    }
}

impl vstd::std_specs::convert::FromSpecImpl<u8> for FlagsRegister {
    open spec fn obeys_from_spec() -> bool {
        true
    }

    open spec fn from_spec(v: u8) -> FlagsRegister {
        FlagsRegister::unpacked(v)
    }
}

proof fn lemma_pack_bits(zb: bool, nb: bool, hb: bool, cb: bool, z: u8, n: u8, h: u8, c: u8)
    requires
        z == (if zb { 1u8 } else { 0u8 }),
        n == (if nb { 1u8 } else { 0u8 }),
        h == (if hb { 1u8 } else { 0u8 }),
        c == (if cb { 1u8 } else { 0u8 }),
    ensures
        (z << 7u8) | (n << 6u8) | (h << 5u8) | (c << 4u8) == (FlagsRegister {
            zero: zb,
            subtract: nb,
            half_carry: hb,
            carry: cb,
        }).packed(),
{
    assert((z << 7u8) | (n << 6u8) | (h << 5u8) | (c << 4u8) == flag_bit(zb, 7) | flag_bit(nb, 6)
        | flag_bit(hb, 5) | flag_bit(cb, 4)) by (bit_vector)
        requires
            z == (if zb { 1u8 } else { 0u8 }),
            n == (if nb { 1u8 } else { 0u8 }),
            h == (if hb { 1u8 } else { 0u8 }),
            c == (if cb { 1u8 } else { 0u8 }),
    ;
}

/// Packing the flags that a byte encodes gives back its high nibble.
pub proof fn lemma_flags_round_trip(b: u8)
    ensures
        FlagsRegister::unpacked(b).packed() == b & 0xF0,
        b & 0x0F == 0 ==> FlagsRegister::unpacked(b).packed() == b,
{
    assert(flag_bit(bit_of(b, 7), 7) | flag_bit(bit_of(b, 6), 6) | flag_bit(bit_of(b, 5), 5)
        | flag_bit(bit_of(b, 4), 4) == b & 0xF0) by (bit_vector);
    assert(b & 0x0F == 0 ==> b & 0xF0 == b) by (bit_vector);
}


/// Selects one of the eight 8-bit registers.
#[derive(Clone, Copy, Debug, PartialEq, Eq, Structural)]
pub enum ByteTarget {
    A,
    B,
    C,
    D,
    E,
    F,
    H,
    L,
}

/// Selects one of the four 16-bit register pairs.
#[derive(Clone, Copy, Debug, PartialEq, Eq, Structural)]
pub enum WordTarget {
    BC,
    DE,
    HL,
    AF,
}

/// The register file: seven data registers and the flags register F.
#[derive(Clone, Copy, Debug, PartialEq, Eq, Structural)]
pub struct Registers {
    pub a: u8,
    pub b: u8,
    pub c: u8,
    pub d: u8,
    pub e: u8,
    pub f: FlagsRegister,
    pub h: u8,
    pub l: u8,
}

/// The 16-bit value whose high byte is `hi` and low byte is `lo`.
pub open spec fn pair(hi: u8, lo: u8) -> u16 {
    (hi as int * 256 + lo as int) as u16
}

impl Registers {
    /// What `get_byte(t)` reads: F reads as the packed flags.
    pub open spec fn byte(self, t: ByteTarget) -> u8 {
        match t {
            ByteTarget::A => self.a,
            ByteTarget::B => self.b,
            ByteTarget::C => self.c,
            ByteTarget::D => self.d,
            ByteTarget::E => self.e,
            ByteTarget::F => self.f.packed(),
            ByteTarget::H => self.h,
            ByteTarget::L => self.l,
        }
    }

    /// The registers after `set_byte(v, t)`: a byte written to F is decoded into flags.
    pub open spec fn with_byte(self, t: ByteTarget, v: u8) -> Registers {
        match t {
            ByteTarget::A => Registers { a: v, ..self },
            ByteTarget::B => Registers { b: v, ..self },
            ByteTarget::C => Registers { c: v, ..self },
            ByteTarget::D => Registers { d: v, ..self },
            ByteTarget::E => Registers { e: v, ..self },
            ByteTarget::F => Registers { f: FlagsRegister::unpacked(v), ..self },
            ByteTarget::H => Registers { h: v, ..self },
            ByteTarget::L => Registers { l: v, ..self },
        }
    }

    /// What `get_word(w)` reads: the high register times 256 plus the low register.
    pub open spec fn word(self, w: WordTarget) -> u16 {
        match w {
            WordTarget::BC => pair(self.b, self.c),
            WordTarget::DE => pair(self.d, self.e),
            WordTarget::HL => pair(self.h, self.l),
            WordTarget::AF => pair(self.a, self.f.packed()),
        }
    }

    /// The registers after `set_word(v, w)`: the high byte goes to the first register of
    /// the pair, the low byte to the second.
    pub open spec fn with_word(self, w: WordTarget, v: u16) -> Registers {
        let hi = (v / 256) as u8;
        let lo = (v % 256) as u8;
        match w {
            WordTarget::BC => Registers { b: hi, c: lo, ..self },
            WordTarget::DE => Registers { d: hi, e: lo, ..self },
            WordTarget::HL => Registers { h: hi, l: lo, ..self },
            WordTarget::AF => Registers { a: hi, f: FlagsRegister::unpacked(lo), ..self },
        }
    }

    /// The registers with all four flags replaced.
    pub open spec fn with_flags(self, zero: bool, subtract: bool, carry: bool, half_carry: bool) -> Registers {
        Registers { f: FlagsRegister { zero, subtract, half_carry, carry }, ..self }
    }

    /// Every register zero and every flag clear.
    pub open spec fn new_spec() -> Registers {
        let f = FlagsRegister { zero: false, subtract: false, half_carry: false, carry: false };
        Registers { a: 0, b: 0, c: 0, d: 0, e: 0, f, h: 0, l: 0 }
    }

    pub fn new() -> (r: Registers)
        ensures
            r == Registers::new_spec(),
    {
        let f = FlagsRegister { zero: false, subtract: false, half_carry: false, carry: false };
        Registers { a: 0, b: 0, c: 0, d: 0, e: 0, f, h: 0, l: 0 }
    }

    pub fn set_byte(&mut self, value: u8, byte_target: ByteTarget)
        ensures
            *final(self) == old(self).with_byte(byte_target, value),
    {
        match byte_target {
            ByteTarget::A => self.a = value,
            ByteTarget::B => self.b = value,
            ByteTarget::C => self.c = value,
            ByteTarget::D => self.d = value,
            ByteTarget::E => self.e = value,
            ByteTarget::F => self.f = FlagsRegister::from_byte(value),
            ByteTarget::H => self.h = value,
            ByteTarget::L => self.l = value,
        }
    }

    pub fn get_byte(&self, byte_target: ByteTarget) -> (r: u8)
        ensures
            r == self.byte(byte_target),
    {
        match byte_target {
            ByteTarget::A => self.a,
            ByteTarget::B => self.b,
            ByteTarget::C => self.c,
            ByteTarget::D => self.d,
            ByteTarget::E => self.e,
            ByteTarget::F => self.f.to_byte(),
            ByteTarget::H => self.h,
            ByteTarget::L => self.l,
        }
    }

    pub fn set_flag(&mut self, zero: bool, subtract: bool, carry: bool, half_carry: bool)
        ensures
            *final(self) == old(self).with_flags(zero, subtract, carry, half_carry),
    {
        self.f.zero = zero;
        self.f.subtract = subtract;
        self.f.carry = carry;
        self.f.half_carry = half_carry;
    }

    pub fn set_word(&mut self, value: u16, word_target: WordTarget)
        ensures
            *final(self) == old(self).with_word(word_target, value),
    {
        let hi = (value >> 8) as u8;
        let lo = (value & 0xFF) as u8;
        proof {
            lemma_split_word(value);
        }
        match word_target {
            WordTarget::BC => {
                self.b = hi;
                self.c = lo;
            },
            WordTarget::DE => {
                self.d = hi;
                self.e = lo;
            },
            WordTarget::HL => {
                self.h = hi;
                self.l = lo;
            },
            WordTarget::AF => {
                self.a = hi;
                self.f = FlagsRegister::from_byte(lo);
            },
        }
    }

    pub fn get_word(&self, word_target: WordTarget) -> (r: u16)
        ensures
            r == self.word(word_target),
    {
        match word_target {
            WordTarget::BC => join_bytes(self.b, self.c),
            WordTarget::DE => join_bytes(self.d, self.e),
            WordTarget::HL => join_bytes(self.h, self.l),
            WordTarget::AF => join_bytes(self.a, self.f.to_byte()),
        }
    }
}

/// Combines a high and a low byte into a word.
pub fn join_bytes(hi: u8, lo: u8) -> (r: u16)
    ensures
        r == pair(hi, lo),
{
    let r = (hi as u16) << 8 | lo as u16;
    assert(((hi as u16) << 8 | lo as u16) == hi as u16 * 256 + lo as u16) by (bit_vector);
    r
}

proof fn lemma_split_word(v: u16)
    ensures
        v >> 8 == v / 256,
        v & 0xFF == v % 256,
{
    assert(v >> 8 == v / 256 && v & 0xFF == v % 256) by (bit_vector);
}

} // verus!
