use zmu_cortex_m::bits::Bits;

#[test]
fn test_get_bits_u32_to_u32() {
    {
        let input: u32 = 0b0000_0000_0000_0000_0000_0000_1111_1111_u32;
        let o1: u32 = input.get_bits(0..8);
        let o2: u32 = input.get_bits(0..4);
        let o3 = input.get_bit(0);
        assert_eq!(o1, 0b1111_1111_u32);
        assert_eq!(o2, 0b1111_u32);
        assert_eq!(o3, true);
    }
    {
        let input: u32 = 0b0000_0000_0000_0000_1100_0000_0000_0000_u32;
        let o1: u32 = input.get_bits(14..16);
        assert_eq!(o1, 0b11_u32);
    }
    {
        let input: u32 = 0b1111_1111_1111_1111_1111_1111_1111_1111_u32;
        let o1: u32 = input.get_bits(0..32);
        assert_eq!(o1, 0b1111_1111_1111_1111_1111_1111_1111_1111_u32);
    }
}

#[test]
fn get_bits_is_narrow_on_every_width() {
    let a: u8 = 0xB6;
    assert_eq!(a.get_bits(2..5), 0b101);
    let b: u16 = 0xF0F0;
    assert_eq!(b.get_bits(4..12), 0x0F);
    let c: u64 = 0xFFFF_FFFF_FFFF_FFFF;
    assert_eq!(c.get_bits(0..64), 0xFFFF_FFFF_FFFF_FFFF);
    assert_eq!(c.get_bits(60..64), 0xF);
    assert_eq!(c.get_bits(7..7), 0);
}

#[test]
fn set_bits_keeps_low_bits_of_value() {
    let mut v: u32 = 0xFFFF_FFFF;
    v.set_bits(4..8, 0x1A);
    assert_eq!(v, 0xFFFF_FFAF);
    assert_eq!(v.get_bits(4..8), 0x1A % 16);
    let mut w: u16 = 0;
    w.set_bits(0..16, 0xBEEF);
    assert_eq!(w, 0xBEEF);
    let mut x: u64 = 0x1234;
    x.set_bits(60..64, 0xF);
    assert_eq!(x, 0xF000_0000_0000_1234);
}

#[test]
fn set_bit_changes_one_bit() {
    let mut v: u8 = 0b1010_1010;
    v.set_bit(0, true);
    assert_eq!(v, 0b1010_1011);
    assert!(v.get_bit(0));
    v.set_bit(7, false);
    assert_eq!(v, 0b0010_1011);
    let mut w: u64 = 0;
    w.set_bit(63, true);
    assert_eq!(w, 0x8000_0000_0000_0000);
}
