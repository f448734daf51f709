//! Bit-range accessors on the unsigned word widths.

use core::ops::Range;
use vstd::arithmetic::power2::{lemma2_to64, lemma2_to64_rest, lemma_pow2_pos, pow2};
use vstd::bits::{
    lemma_u64_low_bits_mask_is_mod, lemma_u64_pow2_no_overflow, lemma_u64_shl_is_mul,
    lemma_u64_shr_is_div, low_bits_mask,
};
use vstd::prelude::*;

verus! {

/// The `n`-bit field of `v` that starts at bit `lo`, right-aligned.
pub open spec fn field(v: nat, lo: nat, n: nat) -> nat {
    v / pow2(lo) % pow2(n)
}

/// Whether bit `i` of `v` is set.
pub open spec fn bit_set(v: nat, i: nat) -> bool {
    field(v, i, 1) == 1
}

/// The `n`-bit field of `x` at `lo`, written with shifts and masks.
pub open spec fn field_bv(x: u64, lo: u64, n: u64) -> u64 {
    if n == 0 {
        0
    } else if n >= 64 {
        x >> lo
    } else {
        (x >> lo) & (((1u64 << n) - 1) as u64)
    }
}

/// `x` with the `n`-bit field at `lo` replaced by the low `n` bits of `v`.
pub open spec fn replace_bv(x: u64, lo: u64, n: u64, v: u64) -> u64 {
    if n == 0 {
        x
    } else if n >= 64 {
        v
    } else {
        (x & !((((1u64 << n) - 1) as u64) << lo)) | ((v & (((1u64 << n) - 1) as u64)) << lo)
    }
}

/// The shift-and-mask form of a field is the arithmetic one.
pub proof fn lemma_field_bv(x: u64, lo: u64, n: u64)
    requires
        lo + n <= 64,
    ensures
        field_bv(x, lo, n) as nat == field(x as nat, lo as nat, n as nat),
        field_bv(x, lo, n) <= x,
{
    lemma2_to64();
    lemma2_to64_rest();
    if n == 0 {
        assert(field(x as nat, lo as nat, 0) == 0);
    } else if n == 64 {
        assert(lo == 0);
        assert(x >> 0 == x) by (bit_vector);
        assert(x as nat / 1 == x as nat);
        assert(x as nat % 0x1_0000_0000_0000_0000 == x as nat);
    } else {
        lemma_u64_shr_is_div(x, lo);
        lemma_u64_pow2_no_overflow(n as nat);
        lemma_u64_shl_is_mul(1, n);
        let y = x >> lo;
        assert((((1u64 << n) - 1) as u64) == low_bits_mask(n as nat) as u64);
        lemma_u64_low_bits_mask_is_mod(y, n as nat);
        assert(((x >> lo) & (((1u64 << n) - 1) as u64)) <= x) by (bit_vector);
    }
}

/// Reads the `n`-bit field of `x` at `lo`.
fn field64(x: u64, lo: u64, n: u64) -> (r: u64)
    requires
        lo + n <= 64,
    ensures
        r == field_bv(x, lo, n),
        r as nat == field(x as nat, lo as nat, n as nat),
        r <= x,
{
    proof {
        lemma_field_bv(x, lo, n);
    }
    if n == 0 {
        0
    } else if n == 64 {
        x >> lo
    } else {
        assert((1u64 << n) >= 1) by (bit_vector)
            requires
                n < 64,
        ;
        (x >> lo) & ((1u64 << n) - 1)
    }
}

/// Replacing a field leaves the new value in that field and every other bit alone.
pub proof fn lemma_replace_bv(x: u64, lo: u64, n: u64, v: u64)
    requires
        lo + n <= 64,
    ensures
        field(replace_bv(x, lo, n, v) as nat, lo as nat, n as nat) == v as nat % pow2(n as nat),
        forall|i: nat|
            i < 64 && (i < lo || lo + n <= i) ==> #[trigger] bit_set(
                replace_bv(x, lo, n, v) as nat,
                i,
            ) == bit_set(x as nat, i),
{
    let r = replace_bv(x, lo, n, v);
    lemma_field_bv(r, lo, n);
    lemma_field_bv(v, 0, n);
    lemma_pow2_pos(0);
    lemma2_to64();
    assert(field(v as nat, 0, n as nat) == v as nat % pow2(n as nat));
    assert(field_bv(r, lo, n) == field_bv(v, 0, n)) by (bit_vector)
        requires
            r == replace_bv(x, lo, n, v),
            lo + n <= 64,
    ;
    assert forall|i: nat| i < 64 && (i < lo || lo + n <= i) implies #[trigger] bit_set(
        r as nat,
        i,
    ) == bit_set(x as nat, i) by {
        let j = i as u64;
        lemma_field_bv(r, j, 1);
        lemma_field_bv(x, j, 1);
        assert(field_bv(r, j, 1) == field_bv(x, j, 1)) by (bit_vector)
            requires
                r == replace_bv(x, lo, n, v),
                lo + n <= 64,
                j < 64,
                j < lo || lo + n <= j,
        ;
    }
}

/// Writes the low `n` bits of `v` into the field of `x` at `lo`.
fn replace64(x: u64, lo: u64, n: u64, v: u64) -> (r: u64)
    requires
        lo + n <= 64,
    ensures
        r == replace_bv(x, lo, n, v),
{
    if n == 0 {
        x
    } else if n == 64 {
        v
    } else {
        assert((1u64 << n) >= 1) by (bit_vector)
            requires
                n < 64,
        ;
        let mask: u64 = (1u64 << n) - 1;
        (x & !(mask << lo)) | ((v & mask) << lo)
    }
}

/// Bit-range access on an unsigned machine word.
///
/// A range `lo..hi` names bits `lo` up to, not including, `hi`.
pub trait Bits: Sized {
    /// The number of bits of the word.
    spec fn width() -> nat;

    /// The word as a natural number.
    spec fn value(&self) -> nat;

    /// The field `range`, right-aligned.
    fn get_bits(&self, range: Range<usize>) -> (r: Self)
        requires
            range.start <= range.end <= Self::width(),
        ensures
            r.value() == field(self.value(), range.start as nat, (range.end - range.start) as nat),
    ;

    /// Whether bit `bit` is set.
    fn get_bit(&self, bit: usize) -> (r: bool)
        requires
            bit < Self::width(),
        ensures
            r == bit_set(self.value(), bit as nat),
    ;

    /// Sets bit `bit` to `value`; no other bit changes.
    fn set_bit(&mut self, bit: usize, value: bool)
        requires
            bit < Self::width(),
        ensures
            bit_set(final(self).value(), bit as nat) == value,
            forall|i: nat|
                i < Self::width() && i != bit ==> #[trigger] bit_set(final(self).value(), i)
                    == bit_set(old(self).value(), i),
            final(self).value() < pow2(Self::width()),
    ;

    /// Replaces the field `range` with the low bits of `value`; no other bit changes.
    fn set_bits(&mut self, range: Range<usize>, value: Self)
        requires
            range.start <= range.end <= Self::width(),
        ensures
            field(final(self).value(), range.start as nat, (range.end - range.start) as nat)
                == value.value() % pow2((range.end - range.start) as nat),
            forall|i: nat|
                i < Self::width() && (i < range.start || range.end <= i) ==> #[trigger] bit_set(
                    final(self).value(),
                    i,
                ) == bit_set(old(self).value(), i),
            final(self).value() < pow2(Self::width()),
    ;
}

impl Bits for u32 {
    open spec fn width() -> nat {
        32
    }

    open spec fn value(&self) -> nat {
        *self as nat
    }

    fn get_bits(&self, range: Range<usize>) -> (r: u32) {
        let f = field64(*self as u64, range.start as u64, (range.end - range.start) as u64);
        f as u32
    }

    fn get_bit(&self, bit: usize) -> (r: bool) {
        field64(*self as u64, bit as u64, 1) == 1
    }

    fn set_bit(&mut self, bit: usize, value: bool) {
        let x = *self as u64;
        let v: u64 = if value { 1 } else { 0 };
        let r = replace64(x, bit as u64, 1, v);
        proof {
            lemma_replace_bv(x, bit as u64, 1, v);
            lemma2_to64();
            let lo = bit as u64;
            assert(replace_bv(x, lo, 1, v) < 0x1_0000_0000) by (bit_vector)
                requires
                    x < 0x1_0000_0000,
                    lo < 32,
                    v <= 1,
            ;
        }
        *self = r as u32;
    }

    fn set_bits(&mut self, range: Range<usize>, value: u32) {
        let x = *self as u64;
        let v = value as u64;
        let lo = range.start as u64;
        let n = (range.end - range.start) as u64;
        let r = replace64(x, lo, n, v);
        proof {
            lemma_replace_bv(x, lo, n, v);
            lemma2_to64();
            assert(replace_bv(x, lo, n, v) < 0x1_0000_0000) by (bit_vector)
                requires
                    x < 0x1_0000_0000,
                    v < 0x1_0000_0000,
                    lo + n <= 32,
            ;
        }
        *self = r as u32;
    }
}

impl Bits for u16 {
    open spec fn width() -> nat {
        16
    }

    open spec fn value(&self) -> nat {
        *self as nat
    }

    fn get_bits(&self, range: Range<usize>) -> (r: u16) {
        let f = field64(*self as u64, range.start as u64, (range.end - range.start) as u64);
        f as u16
    }

    fn get_bit(&self, bit: usize) -> (r: bool) {
        field64(*self as u64, bit as u64, 1) == 1
    }

    fn set_bit(&mut self, bit: usize, value: bool) {
        let x = *self as u64;
        let v: u64 = if value { 1 } else { 0 };
        let r = replace64(x, bit as u64, 1, v);
        proof {
            lemma_replace_bv(x, bit as u64, 1, v);
            lemma2_to64();
            let lo = bit as u64;
            assert(replace_bv(x, lo, 1, v) < 0x1_0000) by (bit_vector)
                requires
                    x < 0x1_0000,
                    lo < 16,
                    v <= 1,
            ;
        }
        *self = r as u16;
    }

    fn set_bits(&mut self, range: Range<usize>, value: u16) {
        let x = *self as u64;
        let v = value as u64;
        let lo = range.start as u64;
        let n = (range.end - range.start) as u64;
        let r = replace64(x, lo, n, v);
        proof {
            lemma_replace_bv(x, lo, n, v);
            lemma2_to64();
            assert(replace_bv(x, lo, n, v) < 0x1_0000) by (bit_vector)
                requires
                    x < 0x1_0000,
                    v < 0x1_0000,
                    lo + n <= 16,
            ;
        }
        *self = r as u16;
    }
}

impl Bits for u8 {
    open spec fn width() -> nat {
        8
    }

    open spec fn value(&self) -> nat {
        *self as nat
    }

    fn get_bits(&self, range: Range<usize>) -> (r: u8) {
        let f = field64(*self as u64, range.start as u64, (range.end - range.start) as u64);
        f as u8
    }

    fn get_bit(&self, bit: usize) -> (r: bool) {
        field64(*self as u64, bit as u64, 1) == 1
    }

    fn set_bit(&mut self, bit: usize, value: bool) {
        let x = *self as u64;
        let v: u64 = if value { 1 } else { 0 };
        let r = replace64(x, bit as u64, 1, v);
        proof {
            lemma_replace_bv(x, bit as u64, 1, v);
            lemma2_to64();
            let lo = bit as u64;
            assert(replace_bv(x, lo, 1, v) < 0x100) by (bit_vector)
                requires
                    x < 0x100,
                    lo < 8,
                    v <= 1,
            ;
        }
        *self = r as u8;
    }

    fn set_bits(&mut self, range: Range<usize>, value: u8) {
        let x = *self as u64;
        let v = value as u64;
        let lo = range.start as u64;
        let n = (range.end - range.start) as u64;
        let r = replace64(x, lo, n, v);
        proof {
            lemma_replace_bv(x, lo, n, v);
            lemma2_to64();
            assert(replace_bv(x, lo, n, v) < 0x100) by (bit_vector)
                requires
                    x < 0x100,
                    v < 0x100,
                    lo + n <= 8,
            ;
        }
        *self = r as u8;
    }
}

impl Bits for u64 {
    open spec fn width() -> nat {
        64
    }

    open spec fn value(&self) -> nat {
        *self as nat
    }

    fn get_bits(&self, range: Range<usize>) -> (r: u64) {
        field64(*self, range.start as u64, (range.end - range.start) as u64)
    }

    fn get_bit(&self, bit: usize) -> (r: bool) {
        field64(*self, bit as u64, 1) == 1
    }

    fn set_bit(&mut self, bit: usize, value: bool) {
        let v: u64 = if value { 1 } else { 0 };
        let r = replace64(*self, bit as u64, 1, v);
        proof {
            lemma_replace_bv(*self, bit as u64, 1, v);
            lemma2_to64();
            lemma2_to64_rest();
            assert(v as nat % pow2(1) == v as nat);
        }
        *self = r;
    }

    fn set_bits(&mut self, range: Range<usize>, value: u64) {
        let lo = range.start as u64;
        let n = (range.end - range.start) as u64;
        proof {
            lemma_replace_bv(*self, lo, n, value);
            lemma2_to64_rest();
        }
        *self = replace64(*self, lo, n, value);
    }
}

} // verus!
