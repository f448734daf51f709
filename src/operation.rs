//! Arithmetic primitives of the architecture: add with carry, shifts with
//! carry, immediate expansion and sign extension.

use crate::bits::{field, Bits};
use crate::instruction::SRType;
use vstd::arithmetic::power2::{lemma2_to64, lemma2_to64_rest, pow2};
use vstd::bits::{lemma_u64_pow2_no_overflow, lemma_u64_shl_is_mul};
use vstd::prelude::*;

verus! {

/// A 32-bit word read as a two's complement integer.
pub open spec fn signed32(x: u32) -> int {
    if x < 0x8000_0000 {
        x as int
    } else {
        x as int - 0x1_0000_0000
    }
}

/// Result, carry out and signed overflow of `x + y + carry_in`.
pub open spec fn add_with_carry_spec(x: u32, y: u32, carry_in: bool) -> (u32, bool, bool) {
    let c: int = if carry_in { 1 } else { 0 };
    let unsigned_sum = x as int + y as int + c;
    let result = (unsigned_sum % 0x1_0000_0000) as u32;
    let signed_sum = signed32(x) + signed32(y) + c;
    (result, unsigned_sum != result as int, signed_sum != signed32(result))
}

/// The architectural adder: `(x + y + carry_in) mod 2^32`, the unsigned
/// carry out and the signed overflow.
pub fn add_with_carry(x: u32, y: u32, carry_in: bool) -> (r: (u32, bool, bool))
    ensures
        r == add_with_carry_spec(x, y, carry_in),
{
    let c: u64 = if carry_in { 1 } else { 0 };
    let unsigned_sum: u64 = x as u64 + y as u64 + c;
    let result: u32 = (unsigned_sum % 0x1_0000_0000) as u32;
    let sx: i64 = if x < 0x8000_0000 { x as i64 } else { x as i64 - 0x1_0000_0000 };
    let sy: i64 = if y < 0x8000_0000 { y as i64 } else { y as i64 - 0x1_0000_0000 };
    let sr: i64 = if result < 0x8000_0000 { result as i64 } else { result as i64 - 0x1_0000_0000 };
    let signed_sum: i64 = sx + sy + c as i64;
    let carry_out = unsigned_sum != result as u64;
    let overflow = signed_sum != sr;
    (result, carry_out, overflow)
}

/// Subtraction as the adder performs it: `x + !y + 1` is `x - y` modulo 2^32,
/// and the carry out is set exactly when no borrow occurs (`x >= y`).
pub proof fn lemma_subtract_by_add(x: u32, y: u32)
    ensures
        add_with_carry_spec(x, !y, true).0 as int == (x as int - y as int) % 0x1_0000_0000,
        add_with_carry_spec(x, !y, true).1 == (x >= y),
        add_with_carry_spec(x, !y, true).2 == (signed32(x) - signed32(y) != signed32(
            add_with_carry_spec(x, !y, true).0,
        )),
{
    assert(!y == 0xFFFF_FFFFu32 - y) by (bit_vector);
}

/// Logical shift left by `n` with the last bit shifted out.
pub open spec fn lsl_c(x: u32, n: nat) -> (u32, bool) {
    if n > 32 {
        (0, false)
    } else {
        let wide = x as nat * pow2(n);
        ((wide % 0x1_0000_0000) as u32, (wide / 0x1_0000_0000) % 2 == 1)
    }
}

/// Logical shift right by `n > 0` with the last bit shifted out.
pub open spec fn lsr_c(x: u32, n: nat) -> (u32, bool) {
    if n > 32 {
        (0, false)
    } else {
        ((x as nat / pow2(n)) as u32, (x as nat / pow2((n - 1) as nat)) % 2 == 1)
    }
}

/// Arithmetic shift right by `n > 0` with the last bit shifted out: the
/// sign bit is copied into the vacated positions.
pub open spec fn asr_c(x: u32, n: nat) -> (u32, bool) {
    let k: nat = if n > 32 { 32 } else { n };
    let r: nat = if x < 0x8000_0000 {
        x as nat / pow2(k)
    } else {
        (0xFFFF_FFFF - ((0xFFFF_FFFF - x) as nat) / pow2(k)) as nat
    };
    (r as u32, (x as nat / pow2((k - 1) as nat)) % 2 == 1)
}

/// Rotate right by `n > 0`; the carry is the top bit of the result.
pub open spec fn ror_c(x: u32, n: nat) -> (u32, bool) {
    let m = n % 32;
    let r: u32 = if m == 0 {
        x
    } else {
        ((x as nat / pow2(m) + x as nat * pow2((32 - m) as nat)) % 0x1_0000_0000) as u32
    };
    (r, r >= 0x8000_0000)
}

/// Rotate right by one through the carry.
pub open spec fn rrx_c(x: u32, carry_in: bool) -> (u32, bool) {
    let top: nat = if carry_in { 0x8000_0000 } else { 0 };
    ((top + x as nat / 2) as u32, x % 2 == 1)
}

/// The shifted value and carry out of `Shift_C(value, type, amount, carry_in)`.
pub open spec fn shift_c_spec(value: u32, srtype: SRType, amount: nat, carry_in: bool) -> (
    u32,
    bool,
) {
    if amount == 0 && srtype != SRType::RRX {
        (value, carry_in)
    } else {
        match srtype {
            SRType::LSL => lsl_c(value, amount),
            SRType::LSR => lsr_c(value, amount),
            SRType::ASR => asr_c(value, amount),
            SRType::ROR => ror_c(value, amount),
            SRType::RRX => rrx_c(value, carry_in),
        }
    }
}

/// `x >> n` is division by `2^n`, for every `n` up to the width.
proof fn lemma_shr32(x: u32, n: u32)
    requires
        n <= 32,
    ensures
        n < 32 ==> (x >> n) as nat == x as nat / pow2(n as nat),
        n == 32 ==> x as nat / pow2(n as nat) == 0,
{
    lemma2_to64();
    if n < 32 {
        vstd::bits::lemma_u32_shr_is_div(x, n);
    }
}

/// Bit `n` of `x` as a shift and a mask.
proof fn lemma_bit32(x: u32, n: u32)
    requires
        n < 32,
    ensures
        ((x >> n) & 1 == 1) == ((x as nat / pow2(n as nat)) % 2 == 1),
{
    lemma_shr32(x, n);
    let y = x >> n;
    assert((y & 1 == 1) == (y % 2 == 1)) by (bit_vector);
}

fn lsl_c_exec(x: u32, n: u32) -> (r: (u32, bool))
    requires
        1 <= n,
    ensures
        r == lsl_c(x, n as nat),
{
    if n > 32 {
        return (0, false);
    }
    proof {
        lemma2_to64();
        lemma_u64_pow2_no_overflow(n as nat);
        let p = pow2(n as nat);
        assert(x as nat * p <= 0xFFFF_FFFF_FFFF_FFFF) by (nonlinear_arith)
            requires
                x < 0x1_0000_0000,
                p <= 0x1_0000_0000,
        ;
        lemma_u64_shl_is_mul(x as u64, n as u64);
    }
    let wide: u64 = (x as u64) << (n as u64);
    let carry = (wide >> 32u64) & 1 == 1;
    proof {
        assert(((wide >> 32u64) & 1 == 1) == ((wide as nat / 0x1_0000_0000) % 2 == 1)) by (bit_vector);
    }
    ((wide % 0x1_0000_0000) as u32, carry)
}

fn lsr_c_exec(x: u32, n: u32) -> (r: (u32, bool))
    requires
        1 <= n,
    ensures
        r == lsr_c(x, n as nat),
{
    if n > 32 {
        return (0, false);
    }
    proof {
        lemma_shr32(x, n);
        lemma_bit32(x, (n - 1) as u32);
    }
    let carry = (x >> (n - 1)) & 1 == 1;
    if n == 32 {
        (0, carry)
    } else {
        (x >> n, carry)
    }
}

fn asr_c_exec(x: u32, n: u32) -> (r: (u32, bool))
    requires
        1 <= n,
    ensures
        r == asr_c(x, n as nat),
{
    let k: u32 = if n > 32 { 32 } else { n };
    let y: u32 = !x;
    proof {
        assert(y == 0xFFFF_FFFF - x) by (bit_vector)
            requires
                y == !x,
        ;
        lemma_shr32(x, k);
        lemma_shr32(y, k);
        lemma_bit32(x, (k - 1) as u32);
    }
    let carry = (x >> (k - 1)) & 1 == 1;
    let result: u32 = if x < 0x8000_0000 {
        if k == 32 {
            0
        } else {
            x >> k
        }
    } else if k == 32 {
        0xFFFF_FFFF
    } else {
        !(y >> k)
    };
    proof {
        if x >= 0x8000_0000 && k < 32 {
            let z = y >> k;
            assert(!z == 0xFFFF_FFFF - z) by (bit_vector);
        }
    }
    (result, carry)
}

fn ror_c_exec(x: u32, n: u32) -> (r: (u32, bool))
    requires
        1 <= n,
    ensures
        r == ror_c(x, n as nat),
{
    let m: u32 = n % 32;
    let result: u32 = if m == 0 {
        x
    } else {
        let lo: u64 = (x as u64) >> (m as u64);
        let hi: u64 = (x as u64) << ((32 - m) as u64);
        proof {
            lemma2_to64();
            vstd::bits::lemma_u64_shr_is_div(x as u64, m as u64);
            lemma_u64_pow2_no_overflow((32 - m) as nat);
            let p = pow2((32 - m) as nat);
            assert(x as nat * p <= 0xFFFF_FFFF_FFFF_FFFF) by (nonlinear_arith)
                requires
                    x < 0x1_0000_0000,
                    p <= 0x1_0000_0000,
            ;
            lemma_u64_shl_is_mul(x as u64, (32 - m) as u64);
            let xx = x as u64;
            assert((xx >> m) | (xx << (32 - m) as u64) == (xx >> m) + (xx << (32 - m) as u64))
                by (bit_vector)
                requires
                    xx < 0x1_0000_0000,
                    1 <= m < 32,
            ;
            assert((xx >> m) + (xx << (32 - m) as u64) <= 0xFFFF_FFFF_FFFF_FFFF) by (bit_vector)
                requires
                    xx < 0x1_0000_0000,
                    1 <= m < 32,
            ;
        }
        (((lo | hi) % 0x1_0000_0000) as u32)
    };
    (result, result >= 0x8000_0000)
}

/// `Shift_C`: shifts or rotates `value` by `amount` and gives the carry out.
/// A zero amount leaves the value and the carry alone, except for RRX.
pub fn shift_c(value: u32, srtype: SRType, amount: usize, carry_in: bool) -> (r: (u32, bool))
    ensures
        r == shift_c_spec(value, srtype, amount as nat, carry_in),
{
    if srtype == SRType::RRX {
        let top: u32 = if carry_in { 0x8000_0000 } else { 0 };
        return (top + value / 2, value % 2 == 1);
    }
    if amount == 0 {
        return (value, carry_in);
    }
    // Past 64 only the amount modulo 32 still matters (to ROR).
    let n: u32 = if amount > 64 { 64 + (amount % 32) as u32 } else { amount as u32 };
    assert(shift_c_spec(value, srtype, amount as nat, carry_in) == shift_c_spec(
        value,
        srtype,
        n as nat,
        carry_in,
    ));
    match srtype {
        SRType::LSL => lsl_c_exec(value, n),
        SRType::LSR => lsr_c_exec(value, n),
        SRType::ASR => asr_c_exec(value, n),
        _ => ror_c_exec(value, n),
    }
}

/// Shift kind and amount of an immediate shift encoding: an immediate of zero
/// means 32 for LSR and ASR, and RRX where ROR is encoded.
pub open spec fn decode_imm_shift_spec(srtype: u8, imm5: u8) -> (SRType, u8) {
    if srtype == 0 {
        (SRType::LSL, imm5)
    } else if srtype == 1 {
        (SRType::LSR, if imm5 == 0 { 32u8 } else { imm5 })
    } else if srtype == 2 {
        (SRType::ASR, if imm5 == 0 { 32u8 } else { imm5 })
    } else if imm5 == 0 {
        (SRType::RRX, 1u8)
    } else {
        (SRType::ROR, imm5)
    }
}

/// `DecodeImmShift`: the shift of a two-bit type field and a five-bit amount.
pub fn decode_imm_shift(srtype: u8, imm5: u8) -> (r: (SRType, u8))
    ensures
        r == decode_imm_shift_spec(srtype, imm5),
{
    match srtype {
        0 => (SRType::LSL, imm5),
        1 => (SRType::LSR, if imm5 == 0 { 32 } else { imm5 }),
        2 => (SRType::ASR, if imm5 == 0 { 32 } else { imm5 }),
        _ => if imm5 == 0 {
            (SRType::RRX, 1)
        } else {
            (SRType::ROR, imm5)
        },
    }
}

/// The 32-bit constant of a Thumb-2 modified immediate `i:imm3:imm8`.
pub open spec fn thumb_expand_imm_spec(imm12: u32) -> u32 {
    let imm8 = imm12 % 256;
    if imm12 / 1024 == 0 {
        let pattern = (imm12 / 256) % 4;
        if pattern == 0 {
            imm8
        } else if pattern == 1 {
            (imm8 * 0x0001_0001) as u32
        } else if pattern == 2 {
            (imm8 * 0x0100_0100) as u32
        } else {
            (imm8 * 0x0101_0101) as u32
        }
    } else {
        ror_c((0x80 + imm12 % 0x80) as u32, (imm12 / 0x80) as nat).0
    }
}

/// `ThumbExpandImm`: a byte replicated over the word, or a rotated 8-bit
/// value with its top bit set.
pub fn thumb_expand_imm(imm12: u32) -> (r: u32)
    requires
        imm12 < 0x1000,
    ensures
        r == thumb_expand_imm_spec(imm12),
{
    let imm8: u32 = imm12 % 256;
    if imm12 / 1024 == 0 {
        let pattern: u32 = (imm12 / 256) % 4;
        if pattern == 0 {
            imm8
        } else if pattern == 1 {
            imm8 * 0x0001_0001
        } else if pattern == 2 {
            imm8 * 0x0100_0100
        } else {
            imm8 * 0x0101_0101
        }
    } else {
        ror_c_exec(0x80 + imm12 % 0x80, imm12 / 0x80).0
    }
}

/// `2^k - 1`.
fn low_mask(k: u64) -> (r: u64)
    requires
        k <= 64,
    ensures
        r as nat == pow2(k as nat) - 1,
{
    proof {
        lemma2_to64();
        lemma2_to64_rest();
    }
    if k == 64 {
        0xFFFF_FFFF_FFFF_FFFF
    } else {
        proof {
            lemma_u64_pow2_no_overflow(k as nat);
            lemma_u64_shl_is_mul(1, k);
        }
        (1u64 << k) - 1
    }
}

/// Bits `0..=topbit` of `value`, with bit `topbit` copied into every position
/// above it up to `size` bits.
pub open spec fn sign_extend_spec(value: u32, topbit: nat, size: nat) -> nat {
    let low = field(value as nat, 0, topbit + 1);
    if field(value as nat, topbit, 1) == 1 {
        (low + pow2(size) - pow2(topbit + 1)) as nat
    } else {
        low
    }
}

/// Sign-extends the `topbit + 1`-bit value in the low bits of `value` to `size` bits.
pub fn sign_extend(value: u32, topbit: usize, size: usize) -> (r: u64)
    requires
        topbit < 32,
        topbit < size <= 64,
    ensures
        r as nat == sign_extend_spec(value, topbit as nat, size as nat),
{
    let wide: u64 = value as u64;
    let low: u64 = wide.get_bits(0..topbit + 1);
    if value.get_bit(topbit) {
        let high = low_mask(size as u64);
        let below = low_mask(topbit as u64 + 1);
        proof {
            if topbit + 1 < size {
                vstd::arithmetic::power2::lemma_pow2_strictly_increases(
                    (topbit + 1) as nat,
                    size as nat,
                );
            }
            assert(low as nat <= pow2((topbit + 1) as nat) - 1) by {
                vstd::arithmetic::power2::lemma_pow2_pos((topbit + 1) as nat);
            }
        }
        low + (high - below)
    } else {
        low
    }
}

} // verus!
