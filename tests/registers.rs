use gbcore::registers::{ByteTarget, FlagsRegister, Registers, WordTarget};

#[test]
fn flags_round_trip_high_nibble() {
    for b in 0u16..=255 {
        let b = b as u8;
        let back = FlagsRegister::from_byte(b).to_byte();
        assert_eq!(back, b & 0xF0);
        if b & 0x0F == 0 {
            assert_eq!(back, b);
        }
    }
}

#[test]
fn flags_bit_positions() {
    let f = FlagsRegister::from_byte(0x80);
    assert!(f.zero && !f.subtract && !f.half_carry && !f.carry);
    let f = FlagsRegister::from_byte(0x10);
    assert!(!f.zero && !f.subtract && !f.half_carry && f.carry);
    let f = FlagsRegister { zero: false, subtract: true, half_carry: true, carry: false };
    assert_eq!(f.to_byte(), 0x60);
}

#[test]
fn new_registers_are_zero() {
    let r = Registers::new();
    for t in [ByteTarget::A, ByteTarget::B, ByteTarget::C, ByteTarget::D, ByteTarget::E, ByteTarget::F, ByteTarget::H, ByteTarget::L] {
        assert_eq!(r.get_byte(t), 0);
    }
}

#[test]
fn byte_targets_are_independent() {
    let mut r = Registers::new();
    let targets = [ByteTarget::A, ByteTarget::B, ByteTarget::C, ByteTarget::D, ByteTarget::E, ByteTarget::H, ByteTarget::L];
    for (i, t) in targets.iter().enumerate() {
        r.set_byte(0x11 * (i as u8 + 1), *t);
    }
    for (i, t) in targets.iter().enumerate() {
        assert_eq!(r.get_byte(*t), 0x11 * (i as u8 + 1));
    }
    assert_eq!(r.get_byte(ByteTarget::F), 0);
}

#[test]
fn writing_f_masks_low_nibble() {
    let mut r = Registers::new();
    r.set_byte(0xBF, ByteTarget::F);
    assert_eq!(r.get_byte(ByteTarget::F), 0xB0);
    assert!(r.f.zero && !r.f.subtract && r.f.half_carry && r.f.carry);
}

#[test]
fn word_pairs() {
    let mut r = Registers::new();
    r.set_word(0x1234, WordTarget::BC);
    r.set_word(0x5678, WordTarget::DE);
    r.set_word(0x9ABC, WordTarget::HL);
    r.set_word(0xDEFF, WordTarget::AF);
    assert_eq!((r.b, r.c), (0x12, 0x34));
    assert_eq!((r.d, r.e), (0x56, 0x78));
    assert_eq!((r.h, r.l), (0x9A, 0xBC));
    assert_eq!(r.a, 0xDE);
    assert_eq!(r.get_word(WordTarget::BC), 0x1234);
    assert_eq!(r.get_word(WordTarget::DE), 0x5678);
    assert_eq!(r.get_word(WordTarget::HL), 0x9ABC);
    assert_eq!(r.get_word(WordTarget::AF), 0xDEF0);
    r.set_byte(0x01, ByteTarget::C);
    assert_eq!(r.get_word(WordTarget::BC), 0x1201);
}

#[test]
fn set_flag_sets_all_four() {
    let mut r = Registers::new();
    r.set_flag(true, false, true, false);
    assert!(r.f.zero && !r.f.subtract && r.f.carry && !r.f.half_carry);
    assert_eq!(r.get_byte(ByteTarget::F), 0x90);
    r.set_flag(false, true, false, true);
    assert_eq!(r.get_byte(ByteTarget::F), 0x60);
}

#[test]
fn from_conversions_match_byte_methods() {
    let f = FlagsRegister::from(0xD7u8);
    assert!(f.zero && f.subtract && !f.half_carry && f.carry);
    assert_eq!(u8::from(f), 0xD0);
}
