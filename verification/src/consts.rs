//! Register-id encoding constants and the named register ids.
//!
//! A register id is a single byte: the high nibble selects the class
//! (general-purpose, pointer, segment-offset, special) and the low bits select
//! both the backing register within the class and the sub-width view of it.

use vstd::prelude::*;

verus! {

/// General-purpose class: bits 2-3 select the backing register.
pub const GPR_MASK: u8 = 0b1100;

/// General-purpose class: bits 0-1 select the sub-width view.
pub const GPR_SEL_MASK: u8 = 0b11;

/// Pointer class: bits 1-3 select the backing register.
pub const PTR_MASK: u8 = 0b1110;

/// Pointer class: bit 0 selects word (0) or dword (1) view.
pub const PTR_SEL_MASK: u8 = 0b1;

/// Special class: bits 1-2 select the backing register.
pub const SPEC_MASK: u8 = 0b110;

/// Special class: bit 0 selects word (0) or dword (1) view.
pub const SPEC_SEL_MASK: u8 = 0b1;

pub const CARRY_MASK: u32 = 0b0000_0000_0000_0001;

pub const NEGATIVE_MASK: u32 = 0b0000_0000_0000_0010;

pub const OVERFLOW_MASK: u32 = 0b0000_0000_0000_0100;

pub const ZERO_MASK: u32 = 0b0000_0000_0000_1000;

pub const TEST_MASK: u32 = 0b0000_0000_0001_0000;

pub const DSEG_MASK: u32 = 0b0000_0000_0010_0000;

pub const PRIV_MASK: u32 = 0b0000_0000_1100_0000;

pub const MODE32_MASK: u32 = 0b0000_0001_0000_0000;

/// What the register-id masks cut out of a byte, written as the plain
/// quotients and remainders the register-file contracts are stated with.
pub proof fn lemma_regid_fields(regid: u8)
    ensures
        regid & GPR_SEL_MASK == regid % 4,
        regid & PTR_SEL_MASK == regid % 2,
        regid & SPEC_SEL_MASK == regid % 2,
        regid & GPR_MASK == ((regid / 4) % 4) * 4,
        regid & PTR_MASK == ((regid / 2) % 8) * 2,
        regid & SPEC_MASK == ((regid / 2) % 4) * 2,
{
    assert((regid & 0b11) == regid % 4 && (regid & 0b1) == regid % 2 && (regid & 0b1100) == ((regid
        / 4) % 4) * 4 && (regid & 0b1110) == ((regid / 2) % 8) * 2 && (regid & 0b110) == ((regid
        / 2) % 4) * 2) by (bit_vector);
}

/// The test-mode bit of the flags word, read as a quotient-and-remainder
/// formula.
pub proof fn lemma_test_bit(flags: u32)
    ensures
        (flags & TEST_MASK != 0) == ((flags / 0x10) % 2 == 1),
{
    assert((flags & 0x10u32 != 0) == ((flags / 0x10) % 2 == 1)) by (bit_vector);
}

/// The general-purpose register names.  The plain name is the low word view,
/// the `X`-prefixed name the full dword view, the `L`-suffixed name the low
/// byte and the `H`-suffixed name the byte at offset 1.
#[derive(Debug, Clone, Copy)]
pub enum GPRs {
    A,
    XA,
    AL,
    AH,
    B,
    XB,
    BL,
    BH,
    C,
    XC,
    CL,
    D,
    XD,
    DL,
}

impl GPRs {
    /// The one-byte register id this name encodes.
    pub fn id(self) -> (r: u8)
        ensures
            r == self.id_spec(),
    {
        match self {
            GPRs::A => 0x00,
            GPRs::XA => 0x01,
            GPRs::AL => 0x02,
            GPRs::AH => 0x03,
            GPRs::B => 0x04,
            GPRs::XB => 0x05,
            GPRs::BL => 0x06,
            GPRs::BH => 0x07,
            GPRs::C => 0x08,
            GPRs::XC => 0x09,
            GPRs::CL => 0x0a,
            GPRs::D => 0x0c,
            GPRs::XD => 0x0d,
            GPRs::DL => 0x0e,
        }
    }

    /// The one-byte register id this name encodes.
    pub open spec fn id_spec(self) -> u8 {
        match self {
            GPRs::A => 0x00,
            GPRs::XA => 0x01,
            GPRs::AL => 0x02,
            GPRs::AH => 0x03,
            GPRs::B => 0x04,
            GPRs::XB => 0x05,
            GPRs::BL => 0x06,
            GPRs::BH => 0x07,
            GPRs::C => 0x08,
            GPRs::XC => 0x09,
            GPRs::CL => 0x0a,
            GPRs::D => 0x0c,
            GPRs::XD => 0x0d,
            GPRs::DL => 0x0e,
        }
    }
}

/// The pointer-class register names.  The plain name is the low word view,
/// the `X`-prefixed name the full dword view; `ROP` is the 8-bit auxiliary
/// return-offset register.
#[derive(Debug, Clone, Copy)]
pub enum Ptrs {
    SP,
    XSP,
    BP,
    XBP,
    SI,
    XSI,
    DI,
    XDI,
    RP,
    XRP,
    ROP,
}

impl Ptrs {
    /// The one-byte register id this name encodes.
    pub fn id(self) -> (r: u8)
        ensures
            r == self.id_spec(),
    {
        match self {
            Ptrs::SP => 0x10,
            Ptrs::XSP => 0x11,
            Ptrs::BP => 0x12,
            Ptrs::XBP => 0x13,
            Ptrs::SI => 0x14,
            Ptrs::XSI => 0x15,
            Ptrs::DI => 0x16,
            Ptrs::XDI => 0x17,
            Ptrs::RP => 0x18,
            Ptrs::XRP => 0x19,
            Ptrs::ROP => 0x1a,
        }
    }

    /// The one-byte register id this name encodes.
    pub open spec fn id_spec(self) -> u8 {
        match self {
            Ptrs::SP => 0x10,
            Ptrs::XSP => 0x11,
            Ptrs::BP => 0x12,
            Ptrs::XBP => 0x13,
            Ptrs::SI => 0x14,
            Ptrs::XSI => 0x15,
            Ptrs::DI => 0x16,
            Ptrs::XDI => 0x17,
            Ptrs::RP => 0x18,
            Ptrs::XRP => 0x19,
            Ptrs::ROP => 0x1a,
        }
    }
}

/// The segment-offset register names: code, data, extra and stack offset.
#[derive(Debug, Clone, Copy)]
pub enum Offs {
    CO,
    DO,
    EO,
    SO,
}

impl Offs {
    /// The one-byte register id this name encodes.
    pub fn id(self) -> (r: u8)
        ensures
            r == self.id_spec(),
    {
        match self {
            Offs::CO => 0x20,
            Offs::DO => 0x21,
            Offs::EO => 0x22,
            Offs::SO => 0x23,
        }
    }

    /// The one-byte register id this name encodes.
    pub open spec fn id_spec(self) -> u8 {
        match self {
            Offs::CO => 0x20,
            Offs::DO => 0x21,
            Offs::EO => 0x22,
            Offs::SO => 0x23,
        }
    }
}

/// The special register names: interrupt-descriptor-table pointer and limit,
/// program counter and flags, each named at its dword id.
#[derive(Debug, Clone, Copy)]
pub enum Spec {
    IDTP,
    IDTL,
    PC,
    FLAGS,
}

impl Spec {
    /// The one-byte register id this name encodes.
    pub fn id(self) -> (r: u8)
        ensures
            r == self.id_spec(),
    {
        match self {
            Spec::IDTP => 0x28,
            Spec::IDTL => 0x2a,
            Spec::PC => 0x2c,
            Spec::FLAGS => 0x2e,
        }
    }

    /// The one-byte register id this name encodes.
    pub open spec fn id_spec(self) -> u8 {
        match self {
            Spec::IDTP => 0x28,
            Spec::IDTL => 0x2a,
            Spec::PC => 0x2c,
            Spec::FLAGS => 0x2e,
        }
    }
}

} // verus!
