//! Width-splitting, width-merging, zero/sign extension, widening multiply and
//! top-bit testing for the 8/16/32-bit values the register file traffics in.
//! All splits and merges are little-endian: the low half comes first.

use vstd::prelude::*;

verus! {

/// Two's-complement reading of a bit pattern `v` (with `0 <= v < m`, `m` the
/// modulus of the width, e.g. 0x100 for bytes): values at or above `m / 2`
/// stand for negatives.
pub open spec fn as_signed(v: int, m: int) -> int {
    if v < m / 2 {
        v
    } else {
        v - m
    }
}

/// Bit pattern (in `[0, m)`) of a two's-complement value `v`.
pub open spec fn as_unsigned(v: int, m: int) -> int {
    if v < 0 {
        v + m
    } else {
        v
    }
}

/// Truncating (round-toward-zero) division, as machine signed division
/// performs it: the quotient of the magnitudes, negated when the operand
/// signs differ.
pub open spec fn trunc_div(x: int, d: int) -> int
    recommends
        d != 0,
{
    let q = (vstd::math::abs(x) / vstd::math::abs(d)) as int;
    if (x < 0) != (d < 0) {
        -q
    } else {
        q
    }
}

/// Remainder of truncating division: the remainder of the magnitudes,
/// carrying the sign of the dividend.
pub open spec fn trunc_rem(x: int, d: int) -> int
    recommends
        d != 0,
{
    let r = (vstd::math::abs(x) % vstd::math::abs(d)) as int;
    if x < 0 {
        -r
    } else {
        r
    }
}

/// Splits a value into its (low, high) halves.
pub trait NumSplit<T>: Sized {
    /// The pair (low, high) that `half_split` returns.
    spec fn split_spec(self) -> (T, T);

    /// Returns (low, high), little-endian.
    fn half_split(self) -> (r: (T, T))
        ensures
            r == self.split_spec(),
    ;
}

impl NumSplit<u8> for u16 {
    open spec fn split_spec(self) -> (u8, u8) {
        ((self % 0x100) as u8, (self / 0x100) as u8)
    }

    fn half_split(self) -> (r: (u8, u8)) {
        ((self % 0x100) as u8, (self / 0x100) as u8)
    }
}

impl NumSplit<u16> for u32 {
    open spec fn split_spec(self) -> (u16, u16) {
        ((self % 0x10000) as u16, (self / 0x10000) as u16)
    }

    fn half_split(self) -> (r: (u16, u16)) {
        ((self % 0x10000) as u16, (self / 0x10000) as u16)
    }
}

impl NumSplit<u32> for u64 {
    open spec fn split_spec(self) -> (u32, u32) {
        ((self % 0x1_0000_0000) as u32, (self / 0x1_0000_0000) as u32)
    }

    fn half_split(self) -> (r: (u32, u32)) {
        ((self % 0x1_0000_0000) as u32, (self / 0x1_0000_0000) as u32)
    }
}

impl NumSplit<u8> for i16 {
    open spec fn split_spec(self) -> (u8, u8) {
        let u = as_unsigned(self as int, 0x10000);
        ((u % 0x100) as u8, (u / 0x100) as u8)
    }

    fn half_split(self) -> (r: (u8, u8)) {
        let u: u16 = if self < 0 {
            (self as i32 + 0x10000) as u16
        } else {
            self as u16
        };
        ((u % 0x100) as u8, (u / 0x100) as u8)
    }
}

impl NumSplit<u16> for i32 {
    open spec fn split_spec(self) -> (u16, u16) {
        let u = as_unsigned(self as int, 0x1_0000_0000);
        ((u % 0x10000) as u16, (u / 0x10000) as u16)
    }

    fn half_split(self) -> (r: (u16, u16)) {
        let u: u32 = if self < 0 {
            (self as i64 + 0x1_0000_0000) as u32
        } else {
            self as u32
        };
        ((u % 0x10000) as u16, (u / 0x10000) as u16)
    }
}

impl NumSplit<u32> for i64 {
    open spec fn split_spec(self) -> (u32, u32) {
        let u = as_unsigned(self as int, 0x1_0000_0000_0000_0000);
        ((u % 0x1_0000_0000) as u32, (u / 0x1_0000_0000) as u32)
    }

    fn half_split(self) -> (r: (u32, u32)) {
        let u: u64 = if self < 0 {
            (self as i128 + 0x1_0000_0000_0000_0000) as u64
        } else {
            self as u64
        };
        ((u % 0x1_0000_0000) as u32, (u / 0x1_0000_0000) as u32)
    }
}

/// Builds a double-width value from its (low, high) halves.
pub trait NumMerge<T>: Sized {
    /// The value that `merge` returns.
    spec fn merge_spec(lo: T, hi: T) -> Self;

    /// Little-endian merge: `lo` fills the low half, `hi` the high half.
    fn merge(lo: T, hi: T) -> (r: Self)
        ensures
            r == Self::merge_spec(lo, hi),
    ;
}

impl NumMerge<u8> for u16 {
    open spec fn merge_spec(lo: u8, hi: u8) -> u16 {
        (lo + hi * 0x100) as u16
    }

    fn merge(lo: u8, hi: u8) -> (r: u16) {
        lo as u16 + hi as u16 * 0x100
    }
}

impl NumMerge<u16> for u32 {
    open spec fn merge_spec(lo: u16, hi: u16) -> u32 {
        (lo + hi * 0x10000) as u32
    }

    fn merge(lo: u16, hi: u16) -> (r: u32) {
        lo as u32 + hi as u32 * 0x10000
    }
}

impl NumMerge<u32> for u64 {
    open spec fn merge_spec(lo: u32, hi: u32) -> u64 {
        (lo + hi * 0x1_0000_0000) as u64
    }

    fn merge(lo: u32, hi: u32) -> (r: u64) {
        lo as u64 + hi as u64 * 0x1_0000_0000
    }
}

impl NumMerge<u8> for i16 {
    open spec fn merge_spec(lo: u8, hi: u8) -> i16 {
        as_signed(lo + hi * 0x100, 0x10000) as i16
    }

    fn merge(lo: u8, hi: u8) -> (r: i16) {
        let u: u16 = lo as u16 + hi as u16 * 0x100;
        if u >= 0x8000 {
            (u as i32 - 0x10000) as i16
        } else {
            u as i16
        }
    }
}

impl NumMerge<u16> for i32 {
    open spec fn merge_spec(lo: u16, hi: u16) -> i32 {
        as_signed(lo + hi * 0x10000, 0x1_0000_0000) as i32
    }

    fn merge(lo: u16, hi: u16) -> (r: i32) {
        let u: u32 = lo as u32 + hi as u32 * 0x10000;
        if u >= 0x8000_0000 {
            (u as i64 - 0x1_0000_0000) as i32
        } else {
            u as i32
        }
    }
}

impl NumMerge<u32> for i64 {
    open spec fn merge_spec(lo: u32, hi: u32) -> i64 {
        as_signed(lo + hi * 0x1_0000_0000, 0x1_0000_0000_0000_0000) as i64
    }

    fn merge(lo: u32, hi: u32) -> (r: i64) {
        let u: u64 = lo as u64 + hi as u64 * 0x1_0000_0000;
        if u >= 0x8000_0000_0000_0000 {
            (u as i128 - 0x1_0000_0000_0000_0000) as i64
        } else {
            u as i64
        }
    }
}

/// Merge written from the half's point of view: `U::merge_up(lo, hi)` builds
/// the double-width `T` from two `U` halves.
pub trait MergeUp<T>: Sized {
    /// The value that `merge_up` returns.
    spec fn merge_up_spec(lo: Self, hi: Self) -> T;

    fn merge_up(lo: Self, hi: Self) -> (r: T)
        ensures
            r == Self::merge_up_spec(lo, hi),
    ;
}

impl<T: NumMerge<U>, U> MergeUp<T> for U {
    open spec fn merge_up_spec(lo: U, hi: U) -> T {
        T::merge_spec(lo, hi)
    }

    fn merge_up(lo: U, hi: U) -> (r: T) {
        T::merge(lo, hi)
    }
}

/// Widening by zero-filling the new high bits.
pub trait ZeroExtend<T>: Sized {
    /// The value that `zero_extend` returns.
    spec fn zero_extend_spec(self) -> T;

    fn zero_extend(self) -> (r: T)
        ensures
            r == self.zero_extend_spec(),
    ;
}

impl ZeroExtend<u8> for u8 {
    open spec fn zero_extend_spec(self) -> u8 {
        self
    }

    fn zero_extend(self) -> (r: u8) {
        self
    }
}

impl ZeroExtend<u16> for u8 {
    open spec fn zero_extend_spec(self) -> u16 {
        self as u16
    }

    fn zero_extend(self) -> (r: u16) {
        self as u16
    }
}

impl ZeroExtend<u32> for u8 {
    open spec fn zero_extend_spec(self) -> u32 {
        self as u32
    }

    fn zero_extend(self) -> (r: u32) {
        self as u32
    }
}

impl ZeroExtend<u16> for u16 {
    open spec fn zero_extend_spec(self) -> u16 {
        self
    }

    fn zero_extend(self) -> (r: u16) {
        self
    }
}

impl ZeroExtend<u32> for u16 {
    open spec fn zero_extend_spec(self) -> u32 {
        self as u32
    }

    fn zero_extend(self) -> (r: u32) {
        self as u32
    }
}

impl ZeroExtend<u32> for u32 {
    open spec fn zero_extend_spec(self) -> u32 {
        self
    }

    fn zero_extend(self) -> (r: u32) {
        self
    }
}

/// Widening by copying the top bit into the new high bits.
pub trait SignExtend<T>: Sized {
    /// The value that `sign_extend` returns.
    spec fn sign_extend_spec(self) -> T;

    fn sign_extend(self) -> (r: T)
        ensures
            r == self.sign_extend_spec(),
    ;
}

impl SignExtend<u8> for u8 {
    open spec fn sign_extend_spec(self) -> u8 {
        self
    }

    fn sign_extend(self) -> (r: u8) {
        self
    }
}

impl SignExtend<u16> for u8 {
    open spec fn sign_extend_spec(self) -> u16 {
        if self >= 0x80 {
            (self + 0xff00) as u16
        } else {
            self as u16
        }
    }

    fn sign_extend(self) -> (r: u16) {
        if self >= 0x80 {
            self as u16 + 0xff00
        } else {
            self as u16
        }
    }
}

impl SignExtend<u32> for u8 {
    open spec fn sign_extend_spec(self) -> u32 {
        if self >= 0x80 {
            (self + 0xffff_ff00) as u32
        } else {
            self as u32
        }
    }

    fn sign_extend(self) -> (r: u32) {
        if self >= 0x80 {
            self as u32 + 0xffff_ff00
        } else {
            self as u32
        }
    }
}

impl SignExtend<u16> for u16 {
    open spec fn sign_extend_spec(self) -> u16 {
        self
    }

    fn sign_extend(self) -> (r: u16) {
        self
    }
}

impl SignExtend<u32> for u16 {
    open spec fn sign_extend_spec(self) -> u32 {
        if self >= 0x8000 {
            (self + 0xffff_0000) as u32
        } else {
            self as u32
        }
    }

    fn sign_extend(self) -> (r: u32) {
        if self >= 0x8000 {
            self as u32 + 0xffff_0000
        } else {
            self as u32
        }
    }
}

impl SignExtend<u32> for u32 {
    open spec fn sign_extend_spec(self) -> u32 {
        self
    }

    fn sign_extend(self) -> (r: u32) {
        self
    }
}

/// Signed widening multiply: the product of two same-width signed values,
/// handed back as the little-endian (low, high) halves of its double-width
/// two's-complement bit pattern.
pub trait SignedWideMul<T>: Sized {
    /// The pair (low, high) that `widening_mul` returns.
    spec fn widening_mul_spec(self, rhs: Self) -> (T, T);

    fn widening_mul(self, rhs: Self) -> (r: (T, T))
        ensures
            r == self.widening_mul_spec(rhs),
    ;
}

impl SignedWideMul<u8> for i8 {
    open spec fn widening_mul_spec(self, rhs: i8) -> (u8, u8) {
        let m = (self * rhs) % 0x10000;
        ((m % 0x100) as u8, (m / 0x100) as u8)
    }

    fn widening_mul(self, rhs: i8) -> (r: (u8, u8)) {
        assert(-0x4000 <= self as int * rhs as int <= 0x4000) by (nonlinear_arith)
            requires
                -0x80 <= self as int <= 0x7f,
                -0x80 <= rhs as int <= 0x7f,
        ;
        let p: i16 = self as i16 * rhs as i16;
        let bits: u16 = if p < 0 {
            (p as i32 + 0x10000) as u16
        } else {
            p as u16
        };
        assert(bits == (self as int * rhs as int) % 0x10000) by {
            vstd::arithmetic::div_mod::lemma_mod_add_multiples_vanish(p as int, 0x10000);
            vstd::arithmetic::div_mod::lemma_small_mod(bits as nat, 0x10000);
        };
        ((bits % 0x100) as u8, (bits / 0x100) as u8)
    }
}

impl SignedWideMul<u16> for i16 {
    open spec fn widening_mul_spec(self, rhs: i16) -> (u16, u16) {
        let m = (self * rhs) % 0x1_0000_0000;
        ((m % 0x10000) as u16, (m / 0x10000) as u16)
    }

    fn widening_mul(self, rhs: i16) -> (r: (u16, u16)) {
        assert(-0x4000_0000 <= self as int * rhs as int <= 0x4000_0000) by (nonlinear_arith)
            requires
                -0x8000 <= self as int <= 0x7fff,
                -0x8000 <= rhs as int <= 0x7fff,
        ;
        let p: i32 = self as i32 * rhs as i32;
        let bits: u32 = if p < 0 {
            (p as i64 + 0x1_0000_0000) as u32
        } else {
            p as u32
        };
        assert(bits == (self as int * rhs as int) % 0x1_0000_0000) by {
            vstd::arithmetic::div_mod::lemma_mod_add_multiples_vanish(p as int, 0x1_0000_0000);
            vstd::arithmetic::div_mod::lemma_small_mod(bits as nat, 0x1_0000_0000);
        };
        ((bits % 0x10000) as u16, (bits / 0x10000) as u16)
    }
}

impl SignedWideMul<u32> for i32 {
    open spec fn widening_mul_spec(self, rhs: i32) -> (u32, u32) {
        let m = (self * rhs) % 0x1_0000_0000_0000_0000;
        ((m % 0x1_0000_0000) as u32, (m / 0x1_0000_0000) as u32)
    }

    fn widening_mul(self, rhs: i32) -> (r: (u32, u32)) {
        assert(-0x4000_0000_0000_0000 <= self as int * rhs as int <= 0x4000_0000_0000_0000)
            by (nonlinear_arith)
            requires
                -0x8000_0000 <= self as int <= 0x7fff_ffff,
                -0x8000_0000 <= rhs as int <= 0x7fff_ffff,
        ;
        let p: i64 = self as i64 * rhs as i64;
        let bits: u64 = if p < 0 {
            (p as i128 + 0x1_0000_0000_0000_0000) as u64
        } else {
            p as u64
        };
        assert(bits == (self as int * rhs as int) % 0x1_0000_0000_0000_0000) by {
            vstd::arithmetic::div_mod::lemma_mod_add_multiples_vanish(
                p as int,
                0x1_0000_0000_0000_0000,
            );
            vstd::arithmetic::div_mod::lemma_small_mod(bits as nat, 0x1_0000_0000_0000_0000);
        };
        ((bits % 0x1_0000_0000) as u32, (bits / 0x1_0000_0000) as u32)
    }
}

/// Tests the most significant bit, the sign bit of the two's-complement
/// reading of the value.
pub trait TopBit: Sized {
    /// Whether the top bit is set.
    spec fn top_bit_spec(self) -> bool;

    fn top_bit(self) -> (b: bool)
        ensures
            b == self.top_bit_spec(),
    ;
}

impl TopBit for u8 {
    open spec fn top_bit_spec(self) -> bool {
        self >= 0x80
    }

    fn top_bit(self) -> (b: bool) {
        self >= 0x80
    }
}

impl TopBit for u16 {
    open spec fn top_bit_spec(self) -> bool {
        self >= 0x8000
    }

    fn top_bit(self) -> (b: bool) {
        self >= 0x8000
    }
}

impl TopBit for u32 {
    open spec fn top_bit_spec(self) -> bool {
        self >= 0x8000_0000
    }

    fn top_bit(self) -> (b: bool) {
        self >= 0x8000_0000
    }
}

/// What `mix_u32` returns: the 32-bit backing value `old_val` with the byte
/// span that `sel` points at replaced by the low bytes of `in_val`.
/// Selector 0 replaces the low word, 1 the whole dword, 2 the low byte and
/// 3 the second byte (bit offset 8) only.
pub open spec fn mix_spec(old_val: u32, in_val: u32, sel: u8) -> u32
    recommends
        sel <= 3,
{
    if sel == 0 {
        ((old_val / 0x10000) * 0x10000 + in_val % 0x10000) as u32
    } else if sel == 1 {
        in_val
    } else if sel == 2 {
        ((old_val / 0x100) * 0x100 + in_val % 0x100) as u32
    } else {
        ((old_val / 0x10000) * 0x10000 + (in_val % 0x100) * 0x100 + old_val % 0x100) as u32
    }
}

/// Merges `in_val` into the backing value `old_val` so that only the byte
/// span selected by `sel` changes (sub-register alias write).
pub fn mix_u32(old_val: u32, in_val: u32, sel: u8) -> (r: u32)
    requires
        sel <= 3,
    ensures
        r == mix_spec(old_val, in_val, sel),
{
    if sel == 0 {
        (old_val / 0x10000) * 0x10000 + in_val % 0x10000
    } else if sel == 1 {
        in_val
    } else if sel == 2 {
        (old_val / 0x100) * 0x100 + in_val % 0x100
    } else {
        (old_val / 0x10000) * 0x10000 + (in_val % 0x100) * 0x100 + old_val % 0x100
    }
}

} // verus!
