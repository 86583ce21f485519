//! The register file and the instruction engine around it.
//!
//! Backing storage is a flat set of named 32-bit and 16-bit registers; a
//! one-byte register id selects a backing register together with a sub-width
//! view of it (see `crate::consts`).  Sub-width writes preserve the untouched
//! bytes of the parent register.

use vstd::arithmetic::div_mod::{
    lemma_fundamental_div_mod_converse, lemma_mod_division_less_than_divisor,
    lemma_mod_multiples_vanish, lemma_small_mod,
};
use vstd::prelude::*;

use crate::consts::{
    lemma_regid_fields, lemma_test_bit, GPR_MASK, GPR_SEL_MASK, PRIV_MASK, PTR_MASK, PTR_SEL_MASK, SPEC_MASK,
    SPEC_SEL_MASK, TEST_MASK,
};
use crate::memory::{Device, MemoryMap};
use crate::regval::{from_u32_spec, Exception, RegSize, RegVal};
use crate::utils::{mix_spec, mix_u32, NumMerge, NumSplit};

verus! {

/// The register file: four general-purpose dwords, five pointer dwords plus
/// the 8-bit-addressed auxiliary return-offset word, four segment-offset
/// words, and four special dwords (interrupt-descriptor-table pointer and
/// limit, program counter, flags).
pub struct Processor {
    pub xa: u32,
    pub xb: u32,
    pub xc: u32,
    pub xd: u32,
    pub xsp: u32,
    pub xbp: u32,
    pub xsi: u32,
    pub xdi: u32,
    pub xrp: u32,
    pub ro: u16,
    pub co: u16,
    pub do_: u16,
    pub eo: u16,
    pub so: u16,
    pub xidtp: u32,
    pub xidtl: u32,
    pub xpc: u32,
    pub xflags: u32,
}

/// The all-zero register file a machine starts from.
pub open spec fn zeroed_processor() -> Processor {
    Processor {
        xa: 0,
        xb: 0,
        xc: 0,
        xd: 0,
        xsp: 0,
        xbp: 0,
        xsi: 0,
        xdi: 0,
        xrp: 0,
        ro: 0,
        co: 0,
        do_: 0,
        eo: 0,
        so: 0,
        xidtp: 0,
        xidtl: 0,
        xpc: 0,
        xflags: 0,
    }
}

impl Default for Processor {
    fn default() -> (r: Processor)
        ensures
            r == zeroed_processor(),
    {
        Processor {
            xa: 0,
            xb: 0,
            xc: 0,
            xd: 0,
            xsp: 0,
            xbp: 0,
            xsi: 0,
            xdi: 0,
            xrp: 0,
            ro: 0,
            co: 0,
            do_: 0,
            eo: 0,
            so: 0,
            xidtp: 0,
            xidtl: 0,
            xpc: 0,
            xflags: 0,
        }
    }
}

impl Processor {
    /// The general-purpose backing register that `regid` selects (bits 2-3).
    pub open spec fn gpr_backing(self, regid: u8) -> u32 {
        let idx = (regid / 4) % 4;
        if idx == 0 {
            self.xa
        } else if idx == 1 {
            self.xb
        } else if idx == 2 {
            self.xc
        } else {
            self.xd
        }
    }

    /// The pointer-class backing register that `regid` selects (bits 1-3).
    pub open spec fn ptr_backing(self, regid: u8) -> u32 {
        let idx = (regid / 2) % 8;
        if idx == 0 {
            self.xsp
        } else if idx == 1 {
            self.xbp
        } else if idx == 2 {
            self.xsi
        } else if idx == 3 {
            self.xdi
        } else {
            self.xrp
        }
    }

    /// The segment-offset register that `regid` selects.
    pub open spec fn off_backing(self, regid: u8) -> u16 {
        if regid == 0x20 {
            self.co
        } else if regid == 0x21 {
            self.do_
        } else if regid == 0x22 {
            self.eo
        } else {
            self.so
        }
    }

    /// The special backing register that `regid` selects (bits 1-2).
    pub open spec fn spec_backing(self, regid: u8) -> u32 {
        let idx = (regid / 2) % 4;
        if idx == 0 {
            self.xidtp
        } else if idx == 1 {
            self.xidtl
        } else if idx == 2 {
            self.xpc
        } else {
            self.xflags
        }
    }

    /// The capability gate every register access passes through.  The current
    /// policy admits every access whatever the privilege level in the flags
    /// word says; it is kept as a single choke point so a privilege scheme
    /// can be added without touching the read/write call sites.
    pub open spec fn can_access_spec(self, regid: u8) -> bool {
        true
    }

    /// Capability check for one register access (see `can_access_spec`).
    pub fn can_access(&self, regid: u8) -> (r: bool)
        ensures
            r == self.can_access_spec(regid),
    {
        let _privilege = (self.xflags & PRIV_MASK) / 0x40;
        if 0x28 <= regid && regid < 0x30 {
            // special registers: provisionally open to every privilege level
            true
        } else {
            true
        }
    }

    /// What `read` returns: the sub-width view of the backing register that
    /// `regid` decodes to, `IllegalOperation` when the capability gate
    /// refuses, `InvalidOperation` on an unknown register id.
    pub open spec fn read_spec(self, regid: u8) -> Result<RegVal, Exception> {
        if !self.can_access_spec(regid) {
            Err(Exception::IllegalOperation)
        } else if regid < 0x10 {
            Ok(from_u32_spec(self.gpr_backing(regid), regid % 4))
        } else if regid < 0x1a {
            Ok(from_u32_spec(self.ptr_backing(regid), regid % 2))
        } else if regid == 0x1a {
            Ok(RegVal::Word(self.ro))
        } else if 0x20 <= regid && regid < 0x24 {
            Ok(RegVal::Word(self.off_backing(regid)))
        } else if 0x28 <= regid && regid < 0x30 {
            Ok(from_u32_spec(self.spec_backing(regid), regid % 2))
        } else {
            Err(Exception::InvalidOperation)
        }
    }

    /// Reads the register view that `regid` selects.
    pub fn read(&self, regid: u8) -> (r: Result<RegVal, Exception>)
        ensures
            r == self.read_spec(regid),
    {
        proof {
            lemma_regid_fields(regid);
        }
        if !self.can_access(regid) {
            Err(Exception::IllegalOperation)
        } else if regid < 0x10 {
            let idx = regid & GPR_MASK;
            let v = if idx == 0 {
                self.xa
            } else if idx == 4 {
                self.xb
            } else if idx == 8 {
                self.xc
            } else {
                self.xd
            };
            Ok(RegVal::from_u32(v, regid & GPR_SEL_MASK))
        } else if regid < 0x1a {
            let idx = regid & PTR_MASK;
            let v = if idx == 0 {
                self.xsp
            } else if idx == 2 {
                self.xbp
            } else if idx == 4 {
                self.xsi
            } else if idx == 6 {
                self.xdi
            } else {
                self.xrp
            };
            Ok(RegVal::from_u32(v, regid & PTR_SEL_MASK))
        } else if regid == 0x1a {
            Ok(RegVal::Word(self.ro))
        } else if 0x20 <= regid && regid < 0x24 {
            let v = if regid == 0x20 {
                self.co
            } else if regid == 0x21 {
                self.do_
            } else if regid == 0x22 {
                self.eo
            } else {
                self.so
            };
            Ok(RegVal::Word(v))
        } else if 0x28 <= regid && regid < 0x30 {
            let idx = regid & SPEC_MASK;
            let v = if idx == 0 {
                self.xidtp
            } else if idx == 2 {
                self.xidtl
            } else if idx == 4 {
                self.xpc
            } else {
                self.xflags
            };
            Ok(RegVal::from_u32(v, regid & SPEC_SEL_MASK))
        } else {
            Err(Exception::InvalidOperation)
        }
    }

    /// What `read_16` returns: the register view when it is a word,
    /// `InvalidOperation` when the view has another width.
    pub open spec fn read_16_spec(self, regid: u8) -> Result<u16, Exception> {
        match self.read_spec(regid) {
            Ok(RegVal::Word(v)) => Ok(v),
            Ok(_) => Err(Exception::InvalidOperation),
            Err(e) => Err(e),
        }
    }

    /// Reads a register view that must be word-sized.
    pub fn read_16(&self, regid: u8) -> (r: Result<u16, Exception>)
        ensures
            r == self.read_16_spec(regid),
    {
        match self.read(regid) {
            Ok(v) => match v.unwrap_u16() {
                Some(w) => Ok(w),
                None => Err(Exception::InvalidOperation),
            },
            Err(e) => Err(e),
        }
    }

    /// What `write` does to the register file: the value's payload is merged
    /// into the backing register so that only the byte span of the selected
    /// view changes; 16-bit backing registers take the payload's low word.
    /// Fails like `read_spec` on gate refusal or an unknown id.
    pub open spec fn write_spec(self, regid: u8, val: RegVal) -> Result<Processor, Exception> {
        let in_val = val.val() as u32;
        if !self.can_access_spec(regid) {
            Err(Exception::IllegalOperation)
        } else if regid < 0x10 {
            let sel = regid % 4;
            let idx = (regid / 4) % 4;
            let nv = mix_spec(self.gpr_backing(regid), in_val, sel);
            if idx == 0 {
                Ok(Processor { xa: nv, ..self })
            } else if idx == 1 {
                Ok(Processor { xb: nv, ..self })
            } else if idx == 2 {
                Ok(Processor { xc: nv, ..self })
            } else {
                Ok(Processor { xd: nv, ..self })
            }
        } else if regid < 0x1a {
            let sel = regid % 2;
            let idx = (regid / 2) % 8;
            let nv = mix_spec(self.ptr_backing(regid), in_val, sel);
            if idx == 0 {
                Ok(Processor { xsp: nv, ..self })
            } else if idx == 1 {
                Ok(Processor { xbp: nv, ..self })
            } else if idx == 2 {
                Ok(Processor { xsi: nv, ..self })
            } else if idx == 3 {
                Ok(Processor { xdi: nv, ..self })
            } else {
                Ok(Processor { xrp: nv, ..self })
            }
        } else if regid == 0x1a {
            Ok(Processor { ro: (in_val % 0x10000) as u16, ..self })
        } else if regid == 0x20 {
            Ok(Processor { co: (in_val % 0x10000) as u16, ..self })
        } else if regid == 0x21 {
            Ok(Processor { do_: (in_val % 0x10000) as u16, ..self })
        } else if regid == 0x22 {
            Ok(Processor { eo: (in_val % 0x10000) as u16, ..self })
        } else if regid == 0x23 {
            Ok(Processor { so: (in_val % 0x10000) as u16, ..self })
        } else if 0x28 <= regid && regid < 0x30 {
            let sel = regid % 2;
            let idx = (regid / 2) % 4;
            let nv = mix_spec(self.spec_backing(regid), in_val, sel);
            if idx == 0 {
                Ok(Processor { xidtp: nv, ..self })
            } else if idx == 1 {
                Ok(Processor { xidtl: nv, ..self })
            } else if idx == 2 {
                Ok(Processor { xpc: nv, ..self })
            } else {
                Ok(Processor { xflags: nv, ..self })
            }
        } else {
            Err(Exception::InvalidOperation)
        }
    }

    /// Writes `val` into the register view that `regid` selects, preserving
    /// the untouched bytes of the backing register.
    pub fn write(&mut self, regid: u8, val: RegVal) -> (r: Result<(), Exception>)
        ensures
            (match old(self).write_spec(regid, val) {
                Ok(p) => r == Ok::<(), Exception>(()) && *final(self) == p,
                Err(e) => r == Err::<(), Exception>(e) && *final(self) == *old(self),
            }),
    {
        proof {
            lemma_regid_fields(regid);
        }
        if !self.can_access(regid) {
            return Err(Exception::IllegalOperation);
        }
        let in_val = val.to_u32();
        if regid < 0x10 {
            let sel = regid & GPR_SEL_MASK;
            let idx = regid & GPR_MASK;
            if idx == 0 {
                self.xa = mix_u32(self.xa, in_val, sel);
            } else if idx == 4 {
                self.xb = mix_u32(self.xb, in_val, sel);
            } else if idx == 8 {
                self.xc = mix_u32(self.xc, in_val, sel);
            } else {
                self.xd = mix_u32(self.xd, in_val, sel);
            }
            Ok(())
        } else if regid < 0x1a {
            let sel = regid & PTR_SEL_MASK;
            let idx = regid & PTR_MASK;
            if idx == 0 {
                self.xsp = mix_u32(self.xsp, in_val, sel);
            } else if idx == 2 {
                self.xbp = mix_u32(self.xbp, in_val, sel);
            } else if idx == 4 {
                self.xsi = mix_u32(self.xsi, in_val, sel);
            } else if idx == 6 {
                self.xdi = mix_u32(self.xdi, in_val, sel);
            } else {
                self.xrp = mix_u32(self.xrp, in_val, sel);
            }
            Ok(())
        } else if regid == 0x1a {
            self.ro = (in_val % 0x10000) as u16;
            Ok(())
        } else if regid == 0x20 {
            self.co = (in_val % 0x10000) as u16;
            Ok(())
        } else if regid == 0x21 {
            self.do_ = (in_val % 0x10000) as u16;
            Ok(())
        } else if regid == 0x22 {
            self.eo = (in_val % 0x10000) as u16;
            Ok(())
        } else if regid == 0x23 {
            self.so = (in_val % 0x10000) as u16;
            Ok(())
        } else if 0x28 <= regid && regid < 0x30 {
            let sel = regid & SPEC_SEL_MASK;
            let idx = regid & SPEC_MASK;
            if idx == 0 {
                self.xidtp = mix_u32(self.xidtp, in_val, sel);
            } else if idx == 2 {
                self.xidtl = mix_u32(self.xidtl, in_val, sel);
            } else if idx == 4 {
                self.xpc = mix_u32(self.xpc, in_val, sel);
            } else {
                self.xflags = mix_u32(self.xflags, in_val, sel);
            }
            Ok(())
        } else {
            Err(Exception::InvalidOperation)
        }
    }

    /// What `size` returns: the width of the view that `regid` selects, or
    /// `InvalidOperation` on an unknown id.
    pub open spec fn size_spec(regid: u8) -> Result<RegSize, Exception> {
        if regid < 0x10 {
            let sel = regid % 4;
            if sel == 0 {
                Ok(RegSize::Word)
            } else if sel == 1 {
                Ok(RegSize::Dword)
            } else {
                Ok(RegSize::Byte)
            }
        } else if regid < 0x1a || (0x28 <= regid && regid < 0x30) {
            if regid % 2 == 0 {
                Ok(RegSize::Word)
            } else {
                Ok(RegSize::Dword)
            }
        } else if regid == 0x1a {
            Ok(RegSize::Word)
        } else if 0x20 <= regid && regid < 0x24 {
            Ok(RegSize::Word)
        } else {
            Err(Exception::InvalidOperation)
        }
    }

    /// The width of the register view that `regid` selects.
    pub fn size(&self, regid: u8) -> (r: Result<RegSize, Exception>)
        ensures
            r == Self::size_spec(regid),
    {
        proof {
            lemma_regid_fields(regid);
        }
        if regid < 0x10 {
            let sel = regid & GPR_SEL_MASK;
            if sel == 0 {
                Ok(RegSize::Word)
            } else if sel == 1 {
                Ok(RegSize::Dword)
            } else {
                Ok(RegSize::Byte)
            }
        } else if regid < 0x1a || (0x28 <= regid && regid < 0x30) {
            if regid & 1 == 0 {
                Ok(RegSize::Word)
            } else {
                Ok(RegSize::Dword)
            }
        } else if regid == 0x1a {
            Ok(RegSize::Word)
        } else if 0x20 <= regid && regid < 0x24 {
            Ok(RegSize::Word)
        } else {
            Err(Exception::InvalidOperation)
        }
    }
}

/// The flat code address formed from a 16-bit base address and a segment
/// offset.  The convention of this core is an 8-bit segment granularity: the
/// offset is shifted left by 8 bits and added to the base.
pub open spec fn address_spec(addr: u16, offset: u16) -> u32 {
    (addr + offset * 0x100) as u32
}

/// Combines a 16-bit base address with a segment offset (shifted up 8 bits)
/// into a flat bus address.
pub fn address(addr: u16, offset: u16) -> (r: u32)
    ensures
        r == address_spec(addr, offset),
{
    addr as u32 + offset as u32 * 0x100
}

impl Processor {
    /// The register file with only the program counter exchanged.
    pub open spec fn with_pc(self, pc: u32) -> Processor {
        Processor { xpc: pc, ..self }
    }

    /// The flat program counter: the low word of the PC register plus the
    /// code-offset register shifted into the high bits.
    pub open spec fn flat_pc_spec(self) -> u32 {
        address_spec((self.xpc % 0x10000) as u16, self.co)
    }

    /// The flat address the next instruction byte is fetched from.
    pub fn get_flat_pc(&self) -> (r: u32)
        ensures
            r == self.flat_pc_spec(),
    {
        let (lo, _) = self.xpc.half_split();
        address(lo, self.co)
    }

    /// Advances the program counter by one byte, wrapping at the top.
    pub fn increment_pc(&mut self)
        ensures
            *final(self) == old(self).with_pc(old(self).xpc.wrapping_add(1)),
    {
        self.xpc = self.xpc.wrapping_add(1)
    }

    /// Rolls the program counter back by one byte (the un-consume step of the
    /// operand loop), wrapping at the bottom.
    pub fn decrement_pc(&mut self)
        ensures
            *final(self) == old(self).with_pc(old(self).xpc.wrapping_sub(1)),
    {
        self.xpc = self.xpc.wrapping_sub(1)
    }

    /// Whether the test-mode bit of the flags word is set, in which case
    /// instruction execution computes results without committing writes.
    pub open spec fn is_testing_spec(self) -> bool {
        (self.xflags / 0x10) % 2 == 1
    }

    /// Whether the processor is in test (dry-run) mode.
    pub fn is_testing(&self) -> (r: bool)
        ensures
            r == self.is_testing_spec(),
    {
        proof {
            lemma_test_bit(self.xflags);
        }
        self.xflags & TEST_MASK != 0
    }
}

/// One instruction-byte fetch: the bus serves the byte at the flat program
/// counter and the program counter advances by one.
pub open spec fn fetch_rel<D: Device>(
    p0: Processor,
    m0: MemoryMap<D>,
    p1: Processor,
    m1: MemoryMap<D>,
    b: u8,
) -> bool {
    &&& MemoryMap::<D>::byte_read_rel(m0, m1, p0.flat_pc_spec(), b)
    &&& p1 == p0.with_pc(p0.xpc.wrapping_add(1))
}

/// How one operand-decode step relates the machine before and after it.
/// `None` un-consumes an opcode byte (top bit set), leaving the program
/// counter where it was; `0x70` pulls one more byte as an 8-bit immediate;
/// `0x71` pulls two more (little-endian) as a 16-bit immediate; any other
/// byte without its top bit set is a register-id operand.  Decode itself
/// raises no exception: a bad register id surfaces when the operand is used.
pub open spec fn operand_decode_rel<D: Device>(
    p0: Processor,
    m0: MemoryMap<D>,
    p1: Processor,
    m1: MemoryMap<D>,
    r: Option<Result<Operand, Exception>>,
) -> bool {
    match r {
        None => p1 == p0 && exists|b: u8|
            #![trigger MemoryMap::<D>::byte_read_rel(m0, m1, p0.flat_pc_spec(), b)]
            MemoryMap::<D>::byte_read_rel(m0, m1, p0.flat_pc_spec(), b) && b >= 0x80,
        Some(Err(_)) => false,
        Some(Ok(Operand::Register(rid))) => {
            &&& rid < 0x80 && rid != 0x70 && rid != 0x71
            &&& MemoryMap::<D>::byte_read_rel(m0, m1, p0.flat_pc_spec(), rid)
            &&& p1 == p0.with_pc(p0.xpc.wrapping_add(1))
        },
        Some(Ok(Operand::Const(RegVal::Byte(v)))) => exists|ma: MemoryMap<D>|
            {
                &&& #[trigger] MemoryMap::<D>::byte_read_rel(m0, ma, p0.flat_pc_spec(), 0x70)
                &&& MemoryMap::<D>::byte_read_rel(
                    ma,
                    m1,
                    p0.with_pc(p0.xpc.wrapping_add(1)).flat_pc_spec(),
                    v,
                )
                &&& p1 == p0.with_pc(p0.xpc.wrapping_add(1).wrapping_add(1))
            },
        Some(Ok(Operand::Const(RegVal::Word(v)))) => {
            &&& p1 == p0.with_pc(p0.xpc.wrapping_add(1).wrapping_add(1).wrapping_add(1))
            &&& exists|ma: MemoryMap<D>, mb: MemoryMap<D>, lo: u8, hi: u8|
                {
                    &&& #[trigger] MemoryMap::<D>::byte_read_rel(
                        ma,
                        mb,
                        p0.with_pc(p0.xpc.wrapping_add(1)).flat_pc_spec(),
                        lo,
                    )
                    &&& #[trigger] MemoryMap::<D>::byte_read_rel(
                        mb,
                        m1,
                        p0.with_pc(p0.xpc.wrapping_add(1).wrapping_add(1)).flat_pc_spec(),
                        hi,
                    )
                    &&& MemoryMap::<D>::byte_read_rel(m0, ma, p0.flat_pc_spec(), 0x71)
                    &&& v == lo + hi * 0x100
                }
        },
        Some(Ok(Operand::Const(RegVal::Dword(_)))) => false,
    }
}

impl Processor {
    /// Fetches one byte at the flat program counter and advances the counter.
    pub fn get_instruction_byte<D: Device>(&mut self, mem: &mut MemoryMap<D>) -> (b: u8)
        requires
            old(mem).wf(),
        ensures
            fetch_rel(*old(self), *old(mem), *final(self), *final(mem), b),
            final(mem).wf(),
    {
        let b = mem.read(self.get_flat_pc());
        self.increment_pc();
        b
    }

    /// Decodes zero or one operand at the program counter (see
    /// `operand_decode_rel`): `None` means the byte belongs to the following
    /// instruction-decode stage and was un-consumed.
    pub fn read_operand<D: Device>(&mut self, mem: &mut MemoryMap<D>) -> (r: Option<
        Result<Operand, Exception>,
    >)
        requires
            old(mem).wf(),
        ensures
            operand_decode_rel(*old(self), *old(mem), *final(self), *final(mem), r),
            final(mem).wf(),
    {
        let operand = self.get_instruction_byte(mem);
        if operand >= 0x80 {
            // not an operand: un-consume it for the instruction decode stage
            self.decrement_pc();
            proof {
                assert(MemoryMap::<D>::byte_read_rel(
                    *old(mem),
                    *mem,
                    old(self).flat_pc_spec(),
                    operand,
                ));
                assert(old(self).xpc.wrapping_add(1).wrapping_sub(1) == old(self).xpc);
                assert(*self == *old(self));
            }
            return None;
        }
        if operand == 0x70 {
            let ghost ma = *mem;
            let b = self.get_instruction_byte(mem);
            proof {
                assert(MemoryMap::<D>::byte_read_rel(*old(mem), ma, old(self).flat_pc_spec(), 0x70));
            }
            Some(Ok(Operand::Const(RegVal::Byte(b))))
        } else if operand == 0x71 {
            let ghost ma = *mem;
            let lo = self.get_instruction_byte(mem);
            let ghost mb = *mem;
            let hi = self.get_instruction_byte(mem);
            let v = u16::merge(lo, hi);
            proof {
                assert(MemoryMap::<D>::byte_read_rel(
                    ma,
                    mb,
                    old(self).with_pc(old(self).xpc.wrapping_add(1)).flat_pc_spec(),
                    lo,
                ));
                assert(MemoryMap::<D>::byte_read_rel(
                    mb,
                    *mem,
                    old(self).with_pc(
                        old(self).xpc.wrapping_add(1).wrapping_add(1),
                    ).flat_pc_spec(),
                    hi,
                ));
                assert(MemoryMap::<D>::byte_read_rel(*old(mem), ma, old(self).flat_pc_spec(), 0x71));
            }
            Some(Ok(Operand::Const(RegVal::Word(v))))
        } else {
            Some(Ok(Operand::Register(operand)))
        }
    }

    /// One machine cycle's fetch and operand-decode step.  The instruction
    /// byte is fetched, then operand bytes are decoded until a byte with its
    /// top bit set hands control to the (out of scope) instruction-decode
    /// stage; should a decode step fail, the trap path snapshots the return
    /// linkage: the PC register into the return pointer and the code offset
    /// into the return offset.  All other registers are untouched.  Operand
    /// decode also stops if the program counter wraps around, so that one
    /// cycle consumes the code window at most once.
    pub fn clock<D: Device>(&mut self, mem: &mut MemoryMap<D>)
        requires
            old(mem).wf(),
        ensures
            final(mem).wf(),
            *final(self) == (Processor {
                xpc: final(self).xpc,
                xrp: final(self).xrp,
                ro: final(self).ro,
                ..*old(self)
            }),
            (final(self).xrp == old(self).xrp && final(self).ro == old(self).ro) || (final(
                self).xrp == final(self).xpc && final(self).ro == final(self).co),
    {
        let _instruction = self.get_instruction_byte(mem);
        let mut operands: Vec<Operand> = Vec::new();
        let mut decode_ok = true;

        loop
            invariant
                mem.wf(),
                *self == (Processor { xpc: self.xpc, ..*old(self) }),
            ensures
                mem.wf(),
                *self == (Processor { xpc: self.xpc, ..*old(self) }),
            decreases 0xffff_ffff - self.xpc,
        {
            let pc_before = self.xpc;
            match self.read_operand(mem) {
                None => { break ; }
                Some(Ok(o)) => {
                    operands.push(o);
                    if self.xpc <= pc_before {
                        break ;
                    }
                }
                Some(Err(_)) => {
                    decode_ok = false;
                    break ;
                }
            }
        }

        if !decode_ok {
            // trap path: save the return linkage for the interrupt dispatcher
            self.xrp = self.xpc;
            self.ro = self.co;
        }
    }
}

/// Either a decoded immediate constant or a register reference.  Immediates
/// are read-only: using one as a write destination is an error.
#[derive(Debug, PartialEq, Eq, Structural, Clone, Copy)]
pub enum Operand {
    Const(RegVal),
    Register(u8),
}

impl Operand {
    /// What reading the operand yields: an immediate is its own value, a
    /// register reference reads the register file.
    pub open spec fn value_spec(self, registers: Processor) -> Result<RegVal, Exception> {
        match self {
            Operand::Const(c) => Ok(c),
            Operand::Register(r) => registers.read_spec(r),
        }
    }

    /// What the operand's declared width is: an immediate has none (it is not
    /// a write destination), a register reference has its view's width.
    pub open spec fn size_spec(self, registers: Processor) -> Result<RegSize, Exception> {
        match self {
            Operand::Register(r) => Processor::size_spec(r),
            Operand::Const(_) => Err(Exception::InvalidOperation),
        }
    }

    /// Whether this operand is an immediate constant.
    pub fn is_const(&self) -> (r: bool)
        ensures
            r == (self is Const),
    {
        match self {
            Operand::Const(_) => true,
            _ => false,
        }
    }

    /// Reads the operand's value.
    pub fn value(&self, registers: &Processor) -> (r: Result<RegVal, Exception>)
        ensures
            r == self.value_spec(*registers),
    {
        match self {
            Operand::Const(c) => Ok(*c),
            Operand::Register(r) => registers.read(*r),
        }
    }

    /// Writes `val` back through the operand: a register reference writes the
    /// register file, an immediate is left alone.
    pub fn write_back(&self, registers: &mut Processor, val: RegVal) -> (r: Result<(), Exception>)
        ensures
            (match *self {
                Operand::Register(rid) => (match old(registers).write_spec(rid, val) {
                    Ok(p) => r == Ok::<(), Exception>(()) && *final(registers) == p,
                    Err(e) => r == Err::<(), Exception>(e) && *final(registers) == *old(registers),
                }),
                Operand::Const(_) => r == Ok::<(), Exception>(()) && *final(registers) == *old(
                    registers,
                ),
            }),
    {
        match self {
            Operand::Register(r) => registers.write(*r, val),
            _ => Ok(()),
        }
    }

    /// The operand's declared width (see `size_spec`).
    pub fn size(&self, registers: &Processor) -> (r: Result<RegSize, Exception>)
        ensures
            r == self.size_spec(*registers),
    {
        match self {
            Self::Register(r) => registers.size(*r),
            Self::Const(_) => Err(Exception::InvalidOperation),
        }
    }
}

/// What `mov` does: the result it returns and the register file it leaves
/// behind.  An immediate destination is refused; otherwise the source value
/// is read, extended (sign- or zero-) to the destination's declared width,
/// and written back -- unless the test-mode flag is set, in which case the
/// write is suppressed but success is still reported.
pub open spec fn mov_spec(p: Processor, src: Operand, dest: Operand, sign_ext: bool) -> (
    Result<(), Exception>,
    Processor,
) {
    if dest is Const {
        (Err(Exception::InvalidOperation), p)
    } else {
        match src.value_spec(p) {
            Err(e) => (Err(e), p),
            Ok(src_v) => match dest.size_spec(p) {
                Err(e) => (Err(e), p),
                Ok(size) => {
                    let ext = if sign_ext {
                        src_v.sign_extend_spec(size)
                    } else {
                        src_v.zero_extend_spec(size)
                    };
                    match ext {
                        None => (Err(Exception::InvalidOperation), p),
                        Some(v) => {
                            if p.is_testing_spec() {
                                (Ok(()), p)
                            } else {
                                match dest {
                                    Operand::Register(rid) => match p.write_spec(rid, v) {
                                        Ok(p2) => (Ok(()), p2),
                                        Err(e) => (Err(e), p),
                                    },
                                    Operand::Const(_) => (Ok(()), p),
                                }
                            }
                        },
                    }
                },
            },
        }
    }
}

impl Processor {
    /// The `mov` execution primitive (see `mov_spec`).
    pub fn mov(&mut self, src: Operand, dest: Operand, sign_ext: bool) -> (r: Result<
        (),
        Exception,
    >)
        ensures
            r == mov_spec(*old(self), src, dest, sign_ext).0,
            *final(self) == mov_spec(*old(self), src, dest, sign_ext).1,
    {
        if dest.is_const() {
            return Err(Exception::InvalidOperation);
        }
        let src_v = match src.value(self) {
            Ok(v) => v,
            Err(e) => return Err(e),
        };
        let size = match dest.size(self) {
            Ok(s) => s,
            Err(e) => return Err(e),
        };
        let ext = if sign_ext {
            src_v.sign_extend(size)
        } else {
            src_v.zero_extend(size)
        };
        let src_final = match ext {
            Ok(v) => v,
            Err(e) => return Err(e),
        };
        if !self.is_testing() {
            match dest.write_back(self, src_final) {
                Ok(()) => (),
                Err(e) => return Err(e),
            }
        }
        Ok(())
    }
}

/// Alias law for the general-purpose class: writing any sub-width view and
/// then reading the full-width (dword) view of the same backing register
/// yields the old backing value with only the targeted byte span replaced by
/// the low bytes of the written value.
/// Byte-level reading of a sub-register merge: each selector replaces its
/// byte span of the backing value with the low bytes of the incoming value
/// and keeps every other byte.
pub proof fn lemma_mix_bytes(old_v: u32, in_v: u32, sel: u8)
    requires
        sel <= 3,
    ensures
        ({
            let nv = mix_spec(old_v, in_v, sel);
            &&& (sel == 0 ==> nv % 0x10000 == in_v % 0x10000 && nv / 0x10000 == old_v / 0x10000)
            &&& (sel == 1 ==> nv == in_v)
            &&& (sel == 2 ==> nv % 0x100 == in_v % 0x100 && nv / 0x100 == old_v / 0x100)
            &&& (sel == 3 ==> (nv / 0x100) % 0x100 == in_v % 0x100 && nv % 0x100 == old_v % 0x100
                && nv / 0x10000 == old_v / 0x10000)
        }),
{
    let nv = mix_spec(old_v, in_v, sel);
    if sel == 0 {
        // low word replaced, high word kept
        lemma_mod_division_less_than_divisor(in_v as int, 0x10000);
        lemma_fundamental_div_mod_converse(
            nv as int,
            0x10000,
            old_v as int / 0x10000,
            in_v as int % 0x10000,
        );
        lemma_small_mod((in_v as int % 0x10000) as nat, 0x10000);
    } else if sel == 2 {
        // low byte replaced, upper three bytes kept
        lemma_mod_division_less_than_divisor(in_v as int, 0x100);
        lemma_fundamental_div_mod_converse(
            nv as int,
            0x100,
            old_v as int / 0x100,
            in_v as int % 0x100,
        );
        lemma_small_mod((in_v as int % 0x100) as nat, 0x100);
    } else if sel == 3 {
        // byte at offset 1 replaced, bytes 0, 2 and 3 kept
        lemma_mod_division_less_than_divisor(in_v as int, 0x100);
        lemma_mod_division_less_than_divisor(old_v as int, 0x100);
        let q1 = (old_v as int / 0x10000) * 0x100 + in_v as int % 0x100;
        lemma_fundamental_div_mod_converse(nv as int, 0x100, q1, old_v as int % 0x100);
        lemma_fundamental_div_mod_converse(
            q1,
            0x100,
            old_v as int / 0x10000,
            in_v as int % 0x100,
        );
        let r2 = (in_v as int % 0x100) * 0x100 + old_v as int % 0x100;
        assert(0 <= r2 < 0x10000);
        lemma_fundamental_div_mod_converse(nv as int, 0x10000, old_v as int / 0x10000, r2);
    }
}

/// Alias law for the general-purpose class: writing any sub-width view and
/// then reading the full-width (dword) view of the same backing register
/// yields the old backing value with only the targeted byte span replaced by
/// the low bytes of the written value (see `lemma_mix_bytes` for the byte
/// equations).
pub proof fn lemma_gpr_alias(p: Processor, regid: u8, val: RegVal)
    requires
        regid < 0x10,
    ensures
        p.write_spec(regid, val) is Ok,
        ({
            let p2 = p.write_spec(regid, val)->Ok_0;
            let full_id = ((regid / 4) * 4 + 1) as u8;
            let sel = regid % 4;
            let old_v = p.gpr_backing(regid);
            let in_v = val.val() as u32;
            let nv = mix_spec(old_v, in_v, sel);
            &&& p2.read_spec(full_id) == Ok::<RegVal, Exception>(RegVal::Dword(nv))
            &&& (sel == 0 ==> nv % 0x10000 == in_v % 0x10000 && nv / 0x10000 == old_v / 0x10000)
            &&& (sel == 1 ==> nv == in_v)
            &&& (sel == 2 ==> nv % 0x100 == in_v % 0x100 && nv / 0x100 == old_v / 0x100)
            &&& (sel == 3 ==> (nv / 0x100) % 0x100 == in_v % 0x100 && nv % 0x100 == old_v % 0x100
                && nv / 0x10000 == old_v / 0x10000)
        }),
{
    let full_id = ((regid / 4) * 4 + 1) as u8;
    let sel = regid % 4;
    let old_v = p.gpr_backing(regid);
    let in_v = val.val() as u32;
    let nv = mix_spec(old_v, in_v, sel);
    let p2 = p.write_spec(regid, val)->Ok_0;
    lemma_mix_bytes(old_v, in_v, sel);
    assert(full_id < 0x10 && full_id % 4 == 1 && full_id / 4 == regid / 4);
    assert(p2.gpr_backing(full_id) == nv);
    assert(p2.read_spec(full_id) == Ok::<RegVal, Exception>(RegVal::Dword(nv)));
}

} // verus!
