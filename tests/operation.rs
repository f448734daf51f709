use zmu_cortex_m::instruction::SRType;
use zmu_cortex_m::operation::{
    add_with_carry, decode_imm_shift, shift_c, sign_extend, thumb_expand_imm,
};

#[test]
fn add_with_carry_unsigned_overflow() {
    assert_eq!(add_with_carry(0xFFFF_FFFF, 1, false), (0, true, false));
}

#[test]
fn add_with_carry_signed_overflow() {
    assert_eq!(add_with_carry(0x7FFF_FFFF, 1, false), (0x8000_0000, false, true));
}

#[test]
fn subtraction_through_the_adder() {
    for &(x, y) in &[(5u32, 3u32), (3, 5), (0, 0), (0x8000_0000, 1), (7, 7)] {
        let (r, carry, _) = add_with_carry(x, !y, true);
        assert_eq!(r, x.wrapping_sub(y));
        assert_eq!(!carry, x < y);
    }
}

#[test]
fn sign_extend_byte() {
    assert_eq!(sign_extend(0xFF, 7, 32), 0xFFFF_FFFF);
    assert_eq!(sign_extend(0x7F, 7, 32), 0x7F);
    assert_eq!(sign_extend(0x8000, 15, 64), 0xFFFF_FFFF_FFFF_8000);
}

#[test]
fn shifts_with_carry() {
    assert_eq!(shift_c(0x8000_0001, SRType::LSL, 1, false), (2, true));
    assert_eq!(shift_c(0x8000_0001, SRType::LSR, 1, false), (0x4000_0000, true));
    assert_eq!(shift_c(0x8000_0000, SRType::ASR, 4, false), (0xF800_0000, false));
    assert_eq!(shift_c(0x8000_0000, SRType::ASR, 40, false), (0xFFFF_FFFF, true));
    assert_eq!(shift_c(0x0000_0001, SRType::ROR, 1, false), (0x8000_0000, true));
    assert_eq!(shift_c(0x0000_0003, SRType::RRX, 1, true), (0x8000_0001, true));
    assert_eq!(shift_c(0x1234, SRType::LSL, 0, true), (0x1234, true));
    assert_eq!(shift_c(0xFFFF_FFFF, SRType::LSL, 33, true), (0, false));
    assert_eq!(shift_c(0x8000_0000, SRType::LSR, 32, false), (0, true));
}

#[test]
fn immediate_shift_decoding() {
    assert_eq!(decode_imm_shift(0, 3), (SRType::LSL, 3));
    assert_eq!(decode_imm_shift(1, 0), (SRType::LSR, 32));
    assert_eq!(decode_imm_shift(2, 0), (SRType::ASR, 32));
    assert_eq!(decode_imm_shift(3, 0), (SRType::RRX, 1));
    assert_eq!(decode_imm_shift(3, 4), (SRType::ROR, 4));
}

#[test]
fn modified_immediates() {
    assert_eq!(thumb_expand_imm(0x0AB), 0xAB);
    assert_eq!(thumb_expand_imm(0x1AB), 0x00AB_00AB);
    assert_eq!(thumb_expand_imm(0x2AB), 0xAB00_AB00);
    assert_eq!(thumb_expand_imm(0x3AB), 0xABAB_ABAB);
    // 1:0101011 rotated right by 8
    assert_eq!(thumb_expand_imm(0x42B), 0xAB00_0000);
}
