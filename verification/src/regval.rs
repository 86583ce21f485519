//! Width-tagged register values and the ALU that works on them.
//!
//! A `RegVal` carries an 8-, 16- or 32-bit payload; every register read and
//! every ALU operation produces one, and an operation's result tag always
//! matches the operand width that produced it.  Arithmetic comes with the
//! exact carry / negative / overflow / zero flag semantics of the machine.

use vstd::arithmetic::div_mod::{
    lemma_fundamental_div_mod, lemma_mod_add_multiples_vanish, lemma_mod_multiples_basic,
    lemma_mod_multiples_vanish, lemma_small_mod, lemma_div_multiples_vanish,
};
use vstd::prelude::*;

use crate::utils::{
    as_signed, trunc_div, trunc_rem, NumMerge, SignExtend, SignedWideMul, TopBit, ZeroExtend,
};

verus! {

/// The two exception kinds of the register/operand layer.  `InvalidOperation`
/// covers unknown register ids, width mismatches, bad extensions and
/// divide-by-zero; `IllegalOperation` is a capability (privilege) failure.
#[derive(Debug, PartialEq, Eq, Structural, Clone, Copy)]
pub enum Exception {
    InvalidOperation,
    IllegalOperation,
}

/// One of the three operand widths of the machine.
#[derive(Debug, PartialEq, Eq, Structural, Clone, Copy)]
pub enum RegSize {
    Byte,
    Word,
    Dword,
}

/// Modulus of a width: one more than the largest value it can hold.
pub open spec fn size_modulus(s: RegSize) -> int {
    match s {
        RegSize::Byte => 0x100,
        RegSize::Word => 0x10000,
        RegSize::Dword => 0x1_0000_0000,
    }
}

/// A width-tagged value: the currency passed between operand decode, the ALU
/// and register write-back.
#[derive(Debug, PartialEq, Eq, Structural, Copy, Clone)]
pub enum RegVal {
    Byte(u8),
    Word(u16),
    Dword(u32),
}

/// The `RegVal` of width `s` whose payload is `v` (with `0 <= v < size_modulus(s)`).
pub open spec fn reg_val_of(s: RegSize, v: int) -> RegVal {
    match s {
        RegSize::Byte => RegVal::Byte(v as u8),
        RegSize::Word => RegVal::Word(v as u16),
        RegSize::Dword => RegVal::Dword(v as u32),
    }
}

impl RegVal {
    /// The width this value is tagged with.
    pub open spec fn width(self) -> RegSize {
        match self {
            RegVal::Byte(_) => RegSize::Byte,
            RegVal::Word(_) => RegSize::Word,
            RegVal::Dword(_) => RegSize::Dword,
        }
    }

    /// The payload, as a mathematical integer.
    pub open spec fn val(self) -> int {
        match self {
            RegVal::Byte(v) => v as int,
            RegVal::Word(v) => v as int,
            RegVal::Dword(v) => v as int,
        }
    }

    /// Modulus of this value's width.
    pub open spec fn modulus(self) -> int {
        size_modulus(self.width())
    }

    /// Whether the top (sign) bit of the payload is set.
    pub open spec fn top_spec(self) -> bool {
        match self {
            RegVal::Byte(v) => v.top_bit_spec(),
            RegVal::Word(v) => v.top_bit_spec(),
            RegVal::Dword(v) => v.top_bit_spec(),
        }
    }
}

/// The {carry, negative, overflow, zero} bundle produced by an ALU operation,
/// ready to be merged into the flags register.
#[derive(Debug, PartialEq, Eq, Structural, Clone, Copy)]
pub struct FlagUpdate {
    pub carry: bool,
    pub negative: bool,
    pub overflow: bool,
    pub zero: bool,
}

/// The bundle `FlagUpdate::new` builds: carry and overflow as given, negative
/// and zero derived from the result value itself.
pub open spec fn flags_for(carry: bool, overflow: bool, val: RegVal) -> FlagUpdate {
    FlagUpdate { carry, negative: val.top_spec(), overflow, zero: val.val() == 0 }
}

impl FlagUpdate {
    /// The value of the low four flag bits: carry(0), negative(1),
    /// overflow(2), zero(3).
    pub open spec fn bits(self) -> int {
        (if self.carry { 1int } else { 0 }) + (if self.negative { 2int } else { 0 }) + (
        if self.overflow { 4int } else { 0 }) + (if self.zero { 8int } else { 0 })
    }

    pub fn new(carry: bool, overflow: bool, val: RegVal) -> (r: FlagUpdate)
        ensures
            r == flags_for(carry, overflow, val),
    {
        let negative = val.is_negative();
        let zero = val.is_zero();
        FlagUpdate { carry, negative, overflow, zero }
    }

    /// Writes the four ALU flag bits into an existing flags word, leaving all
    /// higher bits untouched.
    pub fn update_reg(self, old: u32) -> (r: u32)
        ensures
            r == (old / 0x10) * 0x10 + self.bits(),
    {
        let flags: u32 = (if self.carry { 1 } else { 0 }) + (if self.negative { 2 } else { 0 })
            + (if self.overflow { 4 } else { 0 }) + (if self.zero { 8 } else { 0 });
        (old / 0x10) * 0x10 + flags
    }
}

impl RegVal {
    /// The payload if this is a `Byte`.
    pub fn unwrap_u8(self) -> (r: Option<u8>)
        ensures
            r == (match self {
                RegVal::Byte(v) => Some(v),
                _ => None::<u8>,
            }),
    {
        match self {
            Self::Byte(v) => Some(v),
            _ => None,
        }
    }

    /// The payload if this is a `Word`.
    pub fn unwrap_u16(self) -> (r: Option<u16>)
        ensures
            r == (match self {
                RegVal::Word(v) => Some(v),
                _ => None::<u16>,
            }),
    {
        match self {
            Self::Word(v) => Some(v),
            _ => None,
        }
    }

    /// The payload if this is a `Dword`.
    pub fn unwrap_u32(self) -> (r: Option<u32>)
        ensures
            r == (match self {
                RegVal::Dword(v) => Some(v),
                _ => None::<u32>,
            }),
    {
        match self {
            Self::Dword(v) => Some(v),
            _ => None,
        }
    }

    /// The payload, zero-filled up to 32 bits.
    pub fn to_u32(&self) -> (r: u32)
        ensures
            r == self.val(),
    {
        match *self {
            Self::Byte(v) => v as u32,
            Self::Word(v) => v as u32,
            Self::Dword(v) => v,
        }
    }

    pub fn is_zero(&self) -> (r: bool)
        ensures
            r == (self.val() == 0),
    {
        match *self {
            Self::Byte(v) => v == 0,
            Self::Word(v) => v == 0,
            Self::Dword(v) => v == 0,
        }
    }

    /// Whether the top (sign) bit of the payload is set.
    pub fn is_negative(&self) -> (r: bool)
        ensures
            r == self.top_spec(),
    {
        match *self {
            Self::Byte(v) => v.top_bit(),
            Self::Word(v) => v.top_bit(),
            Self::Dword(v) => v.top_bit(),
        }
    }
}

/// What `RegVal::from_u32` returns: the sub-width view of a 32-bit backing
/// value that the selector picks.  Selector 0 is the low word, 1 the whole
/// dword, 2 the low byte and 3 the byte at offset 1.
pub open spec fn from_u32_spec(val: u32, sel: u8) -> RegVal
    recommends
        sel <= 3,
{
    if sel == 0 {
        RegVal::Word((val % 0x10000) as u16)
    } else if sel == 1 {
        RegVal::Dword(val)
    } else if sel == 2 {
        RegVal::Byte((val % 0x100) as u8)
    } else {
        RegVal::Byte(((val / 0x100) % 0x100) as u8)
    }
}

impl RegVal {
    /// Reads the sub-width view of a 32-bit backing value that the selector
    /// `gpr_select` picks (see `from_u32_spec`).
    pub fn from_u32(val: u32, gpr_select: u8) -> (r: Self)
        requires
            gpr_select <= 3,
        ensures
            r == from_u32_spec(val, gpr_select),
    {
        if gpr_select == 0 {
            RegVal::Word((val % 0x10000) as u16)
        } else if gpr_select == 1 {
            RegVal::Dword(val)
        } else if gpr_select == 2 {
            RegVal::Byte((val % 0x100) as u8)
        } else {
            RegVal::Byte(((val / 0x100) % 0x100) as u8)
        }
    }
}

impl RegVal {
    /// What zero-extending to `size` yields: the same payload at the wider
    /// width, or nothing when `size` is narrower than this value.
    pub open spec fn zero_extend_spec(self, size: RegSize) -> Option<RegVal> {
        match (self, size) {
            (RegVal::Byte(v), RegSize::Byte) => Some(RegVal::Byte(v)),
            (RegVal::Byte(v), RegSize::Word) => Some(RegVal::Word(v as u16)),
            (RegVal::Byte(v), RegSize::Dword) => Some(RegVal::Dword(v as u32)),
            (RegVal::Word(v), RegSize::Word) => Some(RegVal::Word(v)),
            (RegVal::Word(v), RegSize::Dword) => Some(RegVal::Dword(v as u32)),
            (RegVal::Dword(v), RegSize::Dword) => Some(RegVal::Dword(v)),
            _ => None,
        }
    }

    /// What sign-extending to `size` yields: the payload with its top bit
    /// copied into the new high bits, or nothing when `size` is narrower.
    pub open spec fn sign_extend_spec(self, size: RegSize) -> Option<RegVal> {
        match (self, size) {
            (RegVal::Byte(v), RegSize::Byte) => Some(RegVal::Byte(v)),
            (RegVal::Byte(v), RegSize::Word) => Some(
                RegVal::Word(<u8 as SignExtend<u16>>::sign_extend_spec(v)),
            ),
            (RegVal::Byte(v), RegSize::Dword) => Some(
                RegVal::Dword(<u8 as SignExtend<u32>>::sign_extend_spec(v)),
            ),
            (RegVal::Word(v), RegSize::Word) => Some(RegVal::Word(v)),
            (RegVal::Word(v), RegSize::Dword) => Some(
                RegVal::Dword(<u16 as SignExtend<u32>>::sign_extend_spec(v)),
            ),
            (RegVal::Dword(v), RegSize::Dword) => Some(RegVal::Dword(v)),
            _ => None,
        }
    }

    fn zero_extend_u8(self) -> (r: Option<RegVal>)
        ensures
            r == self.zero_extend_spec(RegSize::Byte),
    {
        match self {
            Self::Byte(_) => Some(self),
            _ => None,
        }
    }

    fn zero_extend_u16(self) -> (r: Option<RegVal>)
        ensures
            r == self.zero_extend_spec(RegSize::Word),
    {
        match self {
            Self::Byte(v) => Some(RegVal::Word(<u8 as ZeroExtend<u16>>::zero_extend(v))),
            Self::Word(v) => Some(RegVal::Word(v)),
            _ => None,
        }
    }

    fn zero_extend_u32(self) -> (r: Option<RegVal>)
        ensures
            r == self.zero_extend_spec(RegSize::Dword),
    {
        match self {
            Self::Byte(v) => Some(RegVal::Dword(<u8 as ZeroExtend<u32>>::zero_extend(v))),
            Self::Word(v) => Some(RegVal::Dword(<u16 as ZeroExtend<u32>>::zero_extend(v))),
            Self::Dword(v) => Some(RegVal::Dword(v)),
        }
    }

    fn sign_extend_u8(self) -> (r: Option<RegVal>)
        ensures
            r == self.sign_extend_spec(RegSize::Byte),
    {
        match self {
            Self::Byte(v) => Some(RegVal::Byte(<u8 as SignExtend<u8>>::sign_extend(v))),
            _ => None,
        }
    }

    fn sign_extend_u16(self) -> (r: Option<RegVal>)
        ensures
            r == self.sign_extend_spec(RegSize::Word),
    {
        match self {
            Self::Byte(v) => Some(RegVal::Word(<u8 as SignExtend<u16>>::sign_extend(v))),
            Self::Word(v) => Some(RegVal::Word(v)),
            _ => None,
        }
    }

    fn sign_extend_u32(self) -> (r: Option<RegVal>)
        ensures
            r == self.sign_extend_spec(RegSize::Dword),
    {
        match self {
            Self::Byte(v) => Some(RegVal::Dword(<u8 as SignExtend<u32>>::sign_extend(v))),
            Self::Word(v) => Some(RegVal::Dword(<u16 as SignExtend<u32>>::sign_extend(v))),
            Self::Dword(v) => Some(RegVal::Dword(v)),
        }
    }

    /// Sign-extends to `size`; widening follows the destination width, and a
    /// narrowing request fails with `InvalidOperation`.
    pub fn sign_extend(self, size: RegSize) -> (r: Result<RegVal, Exception>)
        ensures
            r == (match self.sign_extend_spec(size) {
                Some(v) => Ok::<RegVal, Exception>(v),
                None => Err::<RegVal, Exception>(Exception::InvalidOperation),
            }),
    {
        let e = match size {
            RegSize::Byte => self.sign_extend_u8(),
            RegSize::Word => self.sign_extend_u16(),
            RegSize::Dword => self.sign_extend_u32(),
        };
        match e {
            Some(v) => Ok(v),
            None => Err(Exception::InvalidOperation),
        }
    }

    /// Zero-extends to `size`; widening follows the destination width, and a
    /// narrowing request fails with `InvalidOperation`.
    pub fn zero_extend(self, size: RegSize) -> (r: Result<RegVal, Exception>)
        ensures
            r == (match self.zero_extend_spec(size) {
                Some(v) => Ok::<RegVal, Exception>(v),
                None => Err::<RegVal, Exception>(Exception::InvalidOperation),
            }),
    {
        let e = match size {
            RegSize::Byte => self.zero_extend_u8(),
            RegSize::Word => self.zero_extend_u16(),
            RegSize::Dword => self.zero_extend_u32(),
        };
        match e {
            Some(v) => Ok(v),
            None => Err(Exception::InvalidOperation),
        }
    }
}

impl RegVal {
    /// What `add` returns: for same-width operands, the carry-propagating sum
    /// wrapped to the width, with carry-out, signed overflow (top bit of the
    /// left operand versus top bit of the result), negative and zero flags.
    pub open spec fn add_spec(self, rhs: RegVal, carry: bool) -> Option<(RegVal, FlagUpdate)> {
        if self.width() != rhs.width() {
            None
        } else {
            let m = self.modulus();
            let total = self.val() + rhs.val() + (if carry { 1int } else { 0 });
            let res = reg_val_of(self.width(), total % m);
            Some((res, flags_for(total >= m, self.top_spec() != res.top_spec(), res)))
        }
    }

    /// What `sub` returns: for same-width operands, the borrow-propagating
    /// difference wrapped to the width.  The inbound `carry` is the
    /// complement of the inbound borrow, and the carry flag out is the
    /// complement of the outbound borrow.
    pub open spec fn sub_spec(self, rhs: RegVal, carry: bool) -> Option<(RegVal, FlagUpdate)> {
        if self.width() != rhs.width() {
            None
        } else {
            let m = self.modulus();
            let diff = self.val() - rhs.val() - (if carry { 0int } else { 1 });
            let res = reg_val_of(self.width(), diff % m);
            Some((res, flags_for(diff >= 0, self.top_spec() != res.top_spec(), res)))
        }
    }

    /// Per-width addition with inbound carry; fails on mixed widths.
    pub fn add(self, rhs: RegVal, carry: bool) -> (r: Option<(RegVal, FlagUpdate)>)
        ensures
            r == self.add_spec(rhs, carry),
    {
        match (self, rhs) {
            (RegVal::Byte(a), RegVal::Byte(b)) => {
                let total: u16 = a as u16 + b as u16 + (if carry { 1 } else { 0 });
                let res: u8 = (total % 0x100) as u8;
                let val = RegVal::Byte(res);
                Some((val, FlagUpdate::new(total >= 0x100, a.top_bit() != res.top_bit(), val)))
            }
            (RegVal::Word(a), RegVal::Word(b)) => {
                let total: u32 = a as u32 + b as u32 + (if carry { 1 } else { 0 });
                let res: u16 = (total % 0x10000) as u16;
                let val = RegVal::Word(res);
                Some((val, FlagUpdate::new(total >= 0x10000, a.top_bit() != res.top_bit(), val)))
            }
            (RegVal::Dword(a), RegVal::Dword(b)) => {
                let total: u64 = a as u64 + b as u64 + (if carry { 1 } else { 0 });
                let res: u32 = (total % 0x1_0000_0000) as u32;
                let val = RegVal::Dword(res);
                Some(
                    (
                        val,
                        FlagUpdate::new(
                            total >= 0x1_0000_0000,
                            a.top_bit() != res.top_bit(),
                            val,
                        ),
                    ),
                )
            }
            _ => None,
        }
    }

    /// Per-width subtraction with inbound carry (complemented borrow); fails
    /// on mixed widths.
    pub fn sub(self, rhs: RegVal, carry: bool) -> (r: Option<(RegVal, FlagUpdate)>)
        ensures
            r == self.sub_spec(rhs, carry),
    {
        match (self, rhs) {
            (RegVal::Byte(a), RegVal::Byte(b)) => {
                let d: i16 = a as i16 - b as i16 - (if carry { 0 } else { 1 });
                let res: u8 = if d < 0 {
                    (d + 0x100) as u8
                } else {
                    d as u8
                };
                proof {
                    lemma_mod_add_multiples_vanish(d as int, 0x100);
                    lemma_small_mod(res as nat, 0x100);
                }
                let val = RegVal::Byte(res);
                Some((val, FlagUpdate::new(d >= 0, a.top_bit() != res.top_bit(), val)))
            }
            (RegVal::Word(a), RegVal::Word(b)) => {
                let d: i32 = a as i32 - b as i32 - (if carry { 0 } else { 1 });
                let res: u16 = if d < 0 {
                    (d + 0x10000) as u16
                } else {
                    d as u16
                };
                proof {
                    lemma_mod_add_multiples_vanish(d as int, 0x10000);
                    lemma_small_mod(res as nat, 0x10000);
                }
                let val = RegVal::Word(res);
                Some((val, FlagUpdate::new(d >= 0, a.top_bit() != res.top_bit(), val)))
            }
            (RegVal::Dword(a), RegVal::Dword(b)) => {
                let d: i64 = a as i64 - b as i64 - (if carry { 0 } else { 1 });
                let res: u32 = if d < 0 {
                    (d + 0x1_0000_0000) as u32
                } else {
                    d as u32
                };
                proof {
                    lemma_mod_add_multiples_vanish(d as int, 0x1_0000_0000);
                    lemma_small_mod(res as nat, 0x1_0000_0000);
                }
                let val = RegVal::Dword(res);
                Some((val, FlagUpdate::new(d >= 0, a.top_bit() != res.top_bit(), val)))
            }
            _ => None,
        }
    }
}

/// Two's-complement reading of a byte payload.
fn u8_to_i8(v: u8) -> (r: i8)
    ensures
        r as int == as_signed(v as int, 0x100),
{
    if v >= 0x80 {
        (v as i16 - 0x100) as i8
    } else {
        v as i8
    }
}

/// Two's-complement reading of a word payload.
fn u16_to_i16(v: u16) -> (r: i16)
    ensures
        r as int == as_signed(v as int, 0x10000),
{
    if v >= 0x8000 {
        (v as i32 - 0x10000) as i16
    } else {
        v as i16
    }
}

/// Two's-complement reading of a dword payload.
fn u32_to_i32(v: u32) -> (r: i32)
    ensures
        r as int == as_signed(v as int, 0x1_0000_0000),
{
    if v >= 0x8000_0000 {
        (v as i64 - 0x1_0000_0000) as i32
    } else {
        v as i32
    }
}

impl RegVal {
    /// What `mul` returns: the unsigned double-width product split into
    /// same-width (low, high) halves.  Overflow is set iff the high half is
    /// non-zero, zero iff both halves are zero, negative follows the high
    /// half's top bit, and carry is always clear.
    pub open spec fn mul_spec(self, rhs: RegVal) -> Option<((RegVal, RegVal), FlagUpdate)> {
        if self.width() != rhs.width() {
            None
        } else {
            let m = self.modulus();
            let p = self.val() * rhs.val();
            let lo = reg_val_of(self.width(), p % m);
            let hi = reg_val_of(self.width(), p / m);
            Some(
                (
                    (lo, hi),
                    FlagUpdate {
                        overflow: p / m != 0,
                        carry: false,
                        negative: hi.top_spec(),
                        zero: hi.val() == 0 && lo.val() == 0,
                    },
                ),
            )
        }
    }

    /// What `imul` returns: as `mul_spec`, but the operands are read as
    /// two's-complement values and the halves are those of the double-width
    /// two's-complement bit pattern of the product.
    pub open spec fn imul_spec(self, rhs: RegVal) -> Option<((RegVal, RegVal), FlagUpdate)> {
        if self.width() != rhs.width() {
            None
        } else {
            let m = self.modulus();
            let p = as_signed(self.val(), m) * as_signed(rhs.val(), m);
            let bits = p % (m * m);
            let lo = reg_val_of(self.width(), bits % m);
            let hi = reg_val_of(self.width(), bits / m);
            Some(
                (
                    (lo, hi),
                    FlagUpdate {
                        overflow: bits / m != 0,
                        carry: false,
                        negative: hi.top_spec(),
                        zero: hi.val() == 0 && lo.val() == 0,
                    },
                ),
            )
        }
    }

    /// Unsigned widening multiply; fails on mixed widths.
    pub fn mul(self, rhs: RegVal) -> (r: Option<((RegVal, RegVal), FlagUpdate)>)
        ensures
            r == self.mul_spec(rhs),
    {
        match (self, rhs) {
            (RegVal::Byte(a), RegVal::Byte(b)) => {
                assert(0 <= a as int * b as int <= 0xff * 0xff) by (nonlinear_arith)
                    requires
                        a as int <= 0xff,
                        b as int <= 0xff,
                ;
                let p: u16 = a as u16 * b as u16;
                let lo_wrap = RegVal::Byte((p % 0x100) as u8);
                let hi_wrap = RegVal::Byte((p / 0x100) as u8);
                let flags = FlagUpdate {
                    overflow: p / 0x100 != 0,
                    carry: false,
                    negative: hi_wrap.is_negative(),
                    zero: hi_wrap.is_zero() && lo_wrap.is_zero(),
                };
                Some(((lo_wrap, hi_wrap), flags))
            }
            (RegVal::Word(a), RegVal::Word(b)) => {
                assert(0 <= a as int * b as int <= 0xffff * 0xffff) by (nonlinear_arith)
                    requires
                        a as int <= 0xffff,
                        b as int <= 0xffff,
                ;
                let p: u32 = a as u32 * b as u32;
                let lo_wrap = RegVal::Word((p % 0x10000) as u16);
                let hi_wrap = RegVal::Word((p / 0x10000) as u16);
                let flags = FlagUpdate {
                    overflow: p / 0x10000 != 0,
                    carry: false,
                    negative: hi_wrap.is_negative(),
                    zero: hi_wrap.is_zero() && lo_wrap.is_zero(),
                };
                Some(((lo_wrap, hi_wrap), flags))
            }
            (RegVal::Dword(a), RegVal::Dword(b)) => {
                assert(0 <= a as int * b as int <= 0xffff_ffff * 0xffff_ffff) by (nonlinear_arith)
                    requires
                        a as int <= 0xffff_ffff,
                        b as int <= 0xffff_ffff,
                ;
                let p: u64 = a as u64 * b as u64;
                let lo_wrap = RegVal::Dword((p % 0x1_0000_0000) as u32);
                let hi_wrap = RegVal::Dword((p / 0x1_0000_0000) as u32);
                let flags = FlagUpdate {
                    overflow: p / 0x1_0000_0000 != 0,
                    carry: false,
                    negative: hi_wrap.is_negative(),
                    zero: hi_wrap.is_zero() && lo_wrap.is_zero(),
                };
                Some(((lo_wrap, hi_wrap), flags))
            }
            _ => None,
        }
    }

    /// Signed widening multiply; fails on mixed widths.
    pub fn imul(self, rhs: RegVal) -> (r: Option<((RegVal, RegVal), FlagUpdate)>)
        ensures
            r == self.imul_spec(rhs),
    {
        match (self, rhs) {
            (RegVal::Byte(a), RegVal::Byte(b)) => {
                let sa = u8_to_i8(a);
                let sb = u8_to_i8(b);
                let (lo, hi) = SignedWideMul::widening_mul(sa, sb);
                proof {
                    let m = self.modulus();
                    assert(m == 0x100int);
                    assert(m * m == 0x10000int) by (nonlinear_arith)
                        requires
                            m == 0x100int,
                    ;
                }
                let lo_wrap = RegVal::Byte(lo);
                let hi_wrap = RegVal::Byte(hi);
                let flags = FlagUpdate {
                    overflow: hi != 0,
                    carry: false,
                    negative: hi_wrap.is_negative(),
                    zero: hi_wrap.is_zero() && lo_wrap.is_zero(),
                };
                Some(((lo_wrap, hi_wrap), flags))
            }
            (RegVal::Word(a), RegVal::Word(b)) => {
                let sa = u16_to_i16(a);
                let sb = u16_to_i16(b);
                let (lo, hi) = SignedWideMul::widening_mul(sa, sb);
                proof {
                    let m = self.modulus();
                    assert(m == 0x10000int);
                    assert(m * m == 0x1_0000_0000int) by (nonlinear_arith)
                        requires
                            m == 0x10000int,
                    ;
                }
                let lo_wrap = RegVal::Word(lo);
                let hi_wrap = RegVal::Word(hi);
                let flags = FlagUpdate {
                    overflow: hi != 0,
                    carry: false,
                    negative: hi_wrap.is_negative(),
                    zero: hi_wrap.is_zero() && lo_wrap.is_zero(),
                };
                Some(((lo_wrap, hi_wrap), flags))
            }
            (RegVal::Dword(a), RegVal::Dword(b)) => {
                let sa = u32_to_i32(a);
                let sb = u32_to_i32(b);
                let (lo, hi) = SignedWideMul::widening_mul(sa, sb);
                proof {
                    let m = self.modulus();
                    assert(m == 0x1_0000_0000int);
                    assert(m * m == 0x1_0000_0000_0000_0000int) by (nonlinear_arith)
                        requires
                            m == 0x1_0000_0000int,
                    ;
                }
                let lo_wrap = RegVal::Dword(lo);
                let hi_wrap = RegVal::Dword(hi);
                let flags = FlagUpdate {
                    overflow: hi != 0,
                    carry: false,
                    negative: hi_wrap.is_negative(),
                    zero: hi_wrap.is_zero() && lo_wrap.is_zero(),
                };
                Some(((lo_wrap, hi_wrap), flags))
            }
            _ => None,
        }
    }

    /// What `div` returns: the double-width unsigned dividend `hi:self`
    /// divided by `rhs`, with the quotient truncated back to the operand
    /// width and the remainder alongside it.  Zero follows the remainder,
    /// negative the truncated quotient's top bit; carry and overflow are
    /// always clear.  Fails on mixed widths and on a zero divisor.
    pub open spec fn div_spec(self, hi: RegVal, rhs: RegVal) -> Option<
        ((RegVal, RegVal), FlagUpdate),
    > {
        if self.width() != hi.width() || self.width() != rhs.width() {
            None
        } else if rhs.val() == 0 {
            None
        } else {
            let m = self.modulus();
            let n = self.val() + m * hi.val();
            let q = n / rhs.val();
            let r = n % rhs.val();
            let quot = reg_val_of(self.width(), q % m);
            let rem = reg_val_of(self.width(), r);
            Some(
                (
                    (quot, rem),
                    FlagUpdate {
                        zero: rem.val() == 0,
                        negative: quot.top_spec(),
                        overflow: false,
                        carry: false,
                    },
                ),
            )
        }
    }

    /// What `idiv` returns: as `div_spec`, but dividend and divisor are read
    /// as two's-complement values and the division truncates toward zero.
    /// Also fails when the quotient cannot be represented in the
    /// double-width signed range (most negative dividend divided by -1).
    pub open spec fn idiv_spec(self, hi: RegVal, rhs: RegVal) -> Option<
        ((RegVal, RegVal), FlagUpdate),
    > {
        if self.width() != hi.width() || self.width() != rhs.width() {
            None
        } else {
            let m = self.modulus();
            let mm = m * m;
            let n = as_signed(self.val() + m * hi.val(), mm);
            let d = as_signed(rhs.val(), m);
            if d == 0 {
                None
            } else {
                let q = trunc_div(n, d);
                let r = trunc_rem(n, d);
                if q > mm / 2 - 1 {
                    None
                } else {
                    let quot = reg_val_of(self.width(), q % m);
                    let rem = reg_val_of(self.width(), r % m);
                    Some(
                        (
                            (quot, rem),
                            FlagUpdate {
                                zero: rem.val() == 0,
                                negative: quot.top_spec(),
                                overflow: false,
                                carry: false,
                            },
                        ),
                    )
                }
            }
        }
    }

    /// Unsigned double-width division: `hi:self` divided by `rhs`.
    pub fn div(self, hi: RegVal, rhs: RegVal) -> (res: Option<((RegVal, RegVal), FlagUpdate)>)
        ensures
            res == self.div_spec(hi, rhs),
    {
        match (self, hi, rhs) {
            (RegVal::Byte(lo), RegVal::Byte(h), RegVal::Byte(d)) => {
                if d == 0 {
                    return None;
                }
                let n: u16 = u16::merge(lo, h);
                let dd: u16 = d as u16;
                let q: u16 = n / dd;
                let rr: u16 = n % dd;
                proof {
                    vstd::arithmetic::div_mod::lemma_mod_division_less_than_divisor(
                        n as int,
                        dd as int,
                    );
                }
                let quot = RegVal::Byte((q % 0x100) as u8);
                let rem = RegVal::Byte(rr as u8);
                let zero = rem.is_zero();
                let negative = quot.is_negative();
                let out = Some(
                    ((quot, rem), FlagUpdate { zero, negative, overflow: false, carry: false }),
                );
                proof {
                    let m = 0x100int;
                    assert(hi == RegVal::Byte(h));
                    assert(n as int == lo + 0x100 * (h as int));
                    let n_s = self.val() + m * hi.val();
                    assert(n as int == n_s);
                    let q_s = n_s / rhs.val();
                    let r_s = n_s % rhs.val();
                    assert(q as int == q_s);
                    assert(rr as int == r_s);
                    assert(quot == reg_val_of(self.width(), q_s % m));
                    assert(rem == reg_val_of(self.width(), r_s));
                    assert(out =~= self.div_spec(hi, rhs));
                }
                out
            }
            (RegVal::Word(lo), RegVal::Word(h), RegVal::Word(d)) => {
                if d == 0 {
                    return None;
                }
                let n: u32 = u32::merge(lo, h);
                let dd: u32 = d as u32;
                let q: u32 = n / dd;
                let rr: u32 = n % dd;
                proof {
                    vstd::arithmetic::div_mod::lemma_mod_division_less_than_divisor(
                        n as int,
                        dd as int,
                    );
                }
                let quot = RegVal::Word((q % 0x10000) as u16);
                let rem = RegVal::Word(rr as u16);
                let zero = rem.is_zero();
                let negative = quot.is_negative();
                let out = Some(
                    ((quot, rem), FlagUpdate { zero, negative, overflow: false, carry: false }),
                );
                proof {
                    let m = 0x10000int;
                    assert(hi == RegVal::Word(h));
                    assert(n as int == lo + 0x10000 * (h as int));
                    let n_s = self.val() + m * hi.val();
                    assert(n as int == n_s);
                    let q_s = n_s / rhs.val();
                    let r_s = n_s % rhs.val();
                    assert(q as int == q_s);
                    assert(rr as int == r_s);
                    assert(quot == reg_val_of(self.width(), q_s % m));
                    assert(rem == reg_val_of(self.width(), r_s));
                    assert(out =~= self.div_spec(hi, rhs));
                }
                out
            }
            (RegVal::Dword(lo), RegVal::Dword(h), RegVal::Dword(d)) => {
                if d == 0 {
                    return None;
                }
                let n: u64 = u64::merge(lo, h);
                let dd: u64 = d as u64;
                let q: u64 = n / dd;
                let rr: u64 = n % dd;
                proof {
                    vstd::arithmetic::div_mod::lemma_mod_division_less_than_divisor(
                        n as int,
                        dd as int,
                    );
                }
                let quot = RegVal::Dword((q % 0x1_0000_0000) as u32);
                let rem = RegVal::Dword(rr as u32);
                let zero = rem.is_zero();
                let negative = quot.is_negative();
                let out = Some(
                    ((quot, rem), FlagUpdate { zero, negative, overflow: false, carry: false }),
                );
                proof {
                    let m = 0x1_0000_0000int;
                    assert(hi == RegVal::Dword(h));
                    assert(n as int == lo + 0x1_0000_0000 * (h as int));
                    let n_s = self.val() + m * hi.val();
                    assert(n as int == n_s);
                    let q_s = n_s / rhs.val();
                    let r_s = n_s % rhs.val();
                    assert(q as int == q_s);
                    assert(rr as int == r_s);
                    assert(quot == reg_val_of(self.width(), q_s % m));
                    assert(rem == reg_val_of(self.width(), r_s));
                    assert(out =~= self.div_spec(hi, rhs));
                }
                out
            }
            _ => None,
        }
    }

    /// Signed double-width division: `hi:self` divided by `rhs`, truncating
    /// toward zero.
    pub fn idiv(self, hi: RegVal, rhs: RegVal) -> (res: Option<((RegVal, RegVal), FlagUpdate)>)
        ensures
            res == self.idiv_spec(hi, rhs),
    {
        match (self, hi, rhs) {
            (RegVal::Byte(lo), RegVal::Byte(h), RegVal::Byte(d)) => {
                if d == 0 {
                    return None;
                }
                let nu: u16 = u16::merge(lo, h);
                proof {
                    let m = self.modulus();
                    assert(m == 0x100int);
                    assert(m * m == 0x10000int) by (nonlinear_arith)
                        requires
                            m == 0x100int,
                    ;
                }
                let nneg = nu >= 0x8000;
                let mag_n: u32 = if nneg {
                    0x10000 - nu as u32
                } else {
                    nu as u32
                };
                let dneg = d >= 0x80;
                let mag_d: u32 = if dneg {
                    0x100 - d as u32
                } else {
                    d as u32
                };
                let qneg = nneg != dneg;
                proof {
                    vstd::arithmetic::div_mod::lemma_div_nonincreasing(mag_n as int, mag_d as int);
                    vstd::arithmetic::div_mod::lemma_mod_division_less_than_divisor(
                        mag_n as int,
                        mag_d as int,
                    );
                }
                let q_mag: u32 = mag_n / mag_d;
                let r_mag: u32 = mag_n % mag_d;
                if !qneg && q_mag > 0x7fff {
                    return None;
                }
                let q_bits: u16 = if qneg && q_mag > 0 {
                    proof {
                        lemma_mod_multiples_vanish(0x100, -(q_mag as int), 0x100);
                    }
                    (0x10000 - q_mag) as u16
                } else {
                    q_mag as u16
                };
                let r_bits: u16 = if nneg && r_mag > 0 {
                    proof {
                        lemma_mod_multiples_vanish(0x100, -(r_mag as int), 0x100);
                    }
                    (0x10000 - r_mag) as u16
                } else {
                    r_mag as u16
                };
                let quot = RegVal::Byte((q_bits % 0x100) as u8);
                let rem = RegVal::Byte((r_bits % 0x100) as u8);
                let zero = rem.is_zero();
                let negative = quot.is_negative();
                Some(((quot, rem), FlagUpdate { zero, negative, overflow: false, carry: false }))
            }
            (RegVal::Word(lo), RegVal::Word(h), RegVal::Word(d)) => {
                if d == 0 {
                    return None;
                }
                let nu: u32 = u32::merge(lo, h);
                proof {
                    let m = self.modulus();
                    assert(m == 0x10000int);
                    assert(m * m == 0x1_0000_0000int) by (nonlinear_arith)
                        requires
                            m == 0x10000int,
                    ;
                }
                let nneg = nu >= 0x8000_0000;
                let mag_n: u64 = if nneg {
                    0x1_0000_0000 - nu as u64
                } else {
                    nu as u64
                };
                let dneg = d >= 0x8000;
                let mag_d: u64 = if dneg {
                    0x10000 - d as u64
                } else {
                    d as u64
                };
                let qneg = nneg != dneg;
                proof {
                    vstd::arithmetic::div_mod::lemma_div_nonincreasing(mag_n as int, mag_d as int);
                    vstd::arithmetic::div_mod::lemma_mod_division_less_than_divisor(
                        mag_n as int,
                        mag_d as int,
                    );
                }
                let q_mag: u64 = mag_n / mag_d;
                let r_mag: u64 = mag_n % mag_d;
                if !qneg && q_mag > 0x7fff_ffff {
                    return None;
                }
                let q_bits: u32 = if qneg && q_mag > 0 {
                    proof {
                        lemma_mod_multiples_vanish(0x10000, -(q_mag as int), 0x10000);
                    }
                    (0x1_0000_0000 - q_mag) as u32
                } else {
                    q_mag as u32
                };
                let r_bits: u32 = if nneg && r_mag > 0 {
                    proof {
                        lemma_mod_multiples_vanish(0x10000, -(r_mag as int), 0x10000);
                    }
                    (0x1_0000_0000 - r_mag) as u32
                } else {
                    r_mag as u32
                };
                let quot = RegVal::Word((q_bits % 0x10000) as u16);
                let rem = RegVal::Word((r_bits % 0x10000) as u16);
                let zero = rem.is_zero();
                let negative = quot.is_negative();
                Some(((quot, rem), FlagUpdate { zero, negative, overflow: false, carry: false }))
            }
            (RegVal::Dword(lo), RegVal::Dword(h), RegVal::Dword(d)) => {
                if d == 0 {
                    return None;
                }
                let nu: u64 = u64::merge(lo, h);
                proof {
                    let m = self.modulus();
                    assert(m == 0x1_0000_0000int);
                    assert(m * m == 0x1_0000_0000_0000_0000int) by (nonlinear_arith)
                        requires
                            m == 0x1_0000_0000int,
                    ;
                }
                let nneg = nu >= 0x8000_0000_0000_0000;
                let mag_n: u128 = if nneg {
                    0x1_0000_0000_0000_0000 - nu as u128
                } else {
                    nu as u128
                };
                let dneg = d >= 0x8000_0000;
                let mag_d: u128 = if dneg {
                    0x1_0000_0000 - d as u128
                } else {
                    d as u128
                };
                let qneg = nneg != dneg;
                proof {
                    vstd::arithmetic::div_mod::lemma_div_nonincreasing(mag_n as int, mag_d as int);
                    vstd::arithmetic::div_mod::lemma_mod_division_less_than_divisor(
                        mag_n as int,
                        mag_d as int,
                    );
                }
                let q_mag: u128 = mag_n / mag_d;
                let r_mag: u128 = mag_n % mag_d;
                if !qneg && q_mag > 0x7fff_ffff_ffff_ffff {
                    return None;
                }
                let q_bits: u64 = if qneg && q_mag > 0 {
                    proof {
                        lemma_mod_multiples_vanish(
                            0x1_0000_0000,
                            -(q_mag as int),
                            0x1_0000_0000,
                        );
                    }
                    (0x1_0000_0000_0000_0000 - q_mag) as u64
                } else {
                    q_mag as u64
                };
                let r_bits: u64 = if nneg && r_mag > 0 {
                    proof {
                        lemma_mod_multiples_vanish(
                            0x1_0000_0000,
                            -(r_mag as int),
                            0x1_0000_0000,
                        );
                    }
                    (0x1_0000_0000_0000_0000 - r_mag) as u64
                } else {
                    r_mag as u64
                };
                let quot = RegVal::Dword((q_bits % 0x1_0000_0000) as u32);
                let rem = RegVal::Dword((r_bits % 0x1_0000_0000) as u32);
                let zero = rem.is_zero();
                let negative = quot.is_negative();
                Some(((quot, rem), FlagUpdate { zero, negative, overflow: false, carry: false }))
            }
            _ => None,
        }
    }
}

impl From<u8> for RegVal {
    fn from(v: u8) -> (r: RegVal) {
        RegVal::Byte(v)
    }
}

impl vstd::std_specs::convert::FromSpecImpl<u8> for RegVal {
    open spec fn obeys_from_spec() -> bool {
        true
    }

    open spec fn from_spec(v: u8) -> RegVal {
        RegVal::Byte(v)
    }
}

impl From<u16> for RegVal {
    fn from(v: u16) -> (r: RegVal) {
        RegVal::Word(v)
    }
}

impl vstd::std_specs::convert::FromSpecImpl<u16> for RegVal {
    open spec fn obeys_from_spec() -> bool {
        true
    }

    open spec fn from_spec(v: u16) -> RegVal {
        RegVal::Word(v)
    }
}

impl From<u32> for RegVal {
    fn from(v: u32) -> (r: RegVal) {
        RegVal::Dword(v)
    }
}

impl vstd::std_specs::convert::FromSpecImpl<u32> for RegVal {
    open spec fn obeys_from_spec() -> bool {
        true
    }

    open spec fn from_spec(v: u32) -> RegVal {
        RegVal::Dword(v)
    }
}

/// Flag law for addition.  For every pair of same-width operands and inbound
/// carry, the result is the carry-propagating sum wrapped to the width, the
/// zero flag holds exactly when the result is zero, the negative flag exactly
/// when the result's top bit is set, the carry flag exactly when unsigned
/// wraparound occurred, and the overflow flag exactly when the result's top
/// bit differs from the left operand's.
pub proof fn lemma_add_flags(a: RegVal, b: RegVal, carry: bool)
    requires
        a.width() == b.width(),
    ensures
        a.add_spec(b, carry) is Some,
        ({
            let (res, fl) = a.add_spec(b, carry)->Some_0;
            let total = a.val() + b.val() + (if carry { 1int } else { 0 });
            &&& res.width() == a.width()
            &&& res.val() == total % a.modulus()
            &&& fl.zero <==> res.val() == 0
        }),
        ({
            let (res, fl) = a.add_spec(b, carry)->Some_0;
            let total = a.val() + b.val() + (if carry { 1int } else { 0 });
            &&& (fl.negative <==> res.top_spec())
            &&& (fl.carry <==> total >= a.modulus())
            &&& (fl.overflow <==> a.top_spec() != res.top_spec())
        }),
{
    let m = a.modulus();
    let total = a.val() + b.val() + (if carry { 1int } else { 0 });
    assert(m == 0x100 || m == 0x10000 || m == 0x1_0000_0000);
    assert(0 <= total % m < m) by {
        vstd::arithmetic::div_mod::lemma_mod_division_less_than_divisor(total, m);
    };
}

/// Round-trip law for sign extension: extending a value to any width at least
/// as wide and then truncating back to the original width (keeping the low
/// bits) is the identity.
pub proof fn lemma_sign_extend_round_trip(v: RegVal, size: RegSize)
    requires
        size_modulus(v.width()) <= size_modulus(size),
    ensures
        v.sign_extend_spec(size) is Some,
        v.sign_extend_spec(size)->Some_0.width() == size,
        v.sign_extend_spec(size)->Some_0.val() % v.modulus() == v.val(),
{
    let e = v.sign_extend_spec(size)->Some_0;
    match (v, size) {
        (RegVal::Byte(x), RegSize::Word) => {
            if x >= 0x80 {
                lemma_mod_multiples_vanish(0xff, x as int, 0x100);
            }
            lemma_small_mod(x as nat, 0x100);
        }
        (RegVal::Byte(x), RegSize::Dword) => {
            if x >= 0x80 {
                lemma_mod_multiples_vanish(0xffff_ff, x as int, 0x100);
            }
            lemma_small_mod(x as nat, 0x100);
        }
        (RegVal::Word(x), RegSize::Dword) => {
            if x >= 0x8000 {
                lemma_mod_multiples_vanish(0xffff, x as int, 0x10000);
            }
            lemma_small_mod(x as nat, 0x10000);
        }
        (RegVal::Byte(x), RegSize::Byte) => {
            lemma_small_mod(x as nat, 0x100);
        }
        (RegVal::Word(x), RegSize::Word) => {
            lemma_small_mod(x as nat, 0x10000);
        }
        (RegVal::Dword(x), RegSize::Dword) => {
            lemma_small_mod(x as nat, 0x1_0000_0000);
        }
        _ => {}
    }
}

/// Multiply/divide inverse law: for same-width operands with a non-zero
/// divisor, multiplying and then dividing the double-width product by the
/// same value returns the original left operand as quotient, with a zero
/// remainder.
pub proof fn lemma_mul_div_round_trip(a: RegVal, b: RegVal)
    requires
        a.width() == b.width(),
        b.val() != 0,
    ensures
        a.mul_spec(b) is Some,
        ({
            let ((lo, hi), _fl) = a.mul_spec(b)->Some_0;
            lo.div_spec(hi, b) is Some
        }),
        ({
            let ((lo, hi), _fl) = a.mul_spec(b)->Some_0;
            let ((quot, rem), _dfl) = lo.div_spec(hi, b)->Some_0;
            quot == a && rem.val() == 0
        }),
{
    let m = a.modulus();
    let p = a.val() * b.val();
    assert(m == 0x100 || m == 0x10000 || m == 0x1_0000_0000);
    assert(0 <= p < m * m && p == b.val() * a.val()) by (nonlinear_arith)
        requires
            0 <= a.val() < m,
            0 <= b.val() < m,
            p == a.val() * b.val(),
    ;
    assert(0 <= p % m < m) by {
        vstd::arithmetic::div_mod::lemma_mod_division_less_than_divisor(p, m);
    };
    assert(p / m < m) by {
        vstd::arithmetic::div_mod::lemma_multiply_divide_lt(p, m, m);
    };
    assert(0 <= p / m) by {
        vstd::arithmetic::div_mod::lemma_div_pos_is_pos(p, m);
    };
    let ((lo, hi), _fl) = a.mul_spec(b)->Some_0;
    // the double-width dividend recomposed from the halves is the product
    assert(lo.val() + m * hi.val() == p) by {
        lemma_fundamental_div_mod(p, m);
    };
    // dividing the product by the multiplier gives the multiplicand back
    assert(p / b.val() == a.val()) by {
        lemma_div_multiples_vanish(a.val(), b.val());
    };
    assert(p % b.val() == 0) by {
        lemma_mod_multiples_basic(a.val(), b.val());
    };
    assert(a.val() % m == a.val()) by {
        lemma_small_mod(a.val() as nat, m as nat);
    };
    assert(reg_val_of(a.width(), a.val()) == a);
}

} // verus!
