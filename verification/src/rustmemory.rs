//! A flat RAM bank: one 64 KiB byte array, allocated lazily on the first
//! write and owned as a growable, bounds-checked buffer.  Reads outside the
//! allocated bank (or beyond the bank size) return 0; writes beyond the bank
//! size are dropped.

use vstd::prelude::*;

use crate::memory::{DevMsg, Device};

verus! {

/// Number of bytes in one RAM bank.
pub const BANK_SIZE: usize = 0x10000;

/// The lazily allocated RAM bank device.
pub struct RustMemory {
    mem: Vec<u8>,
}

impl RustMemory {
    /// The bank is either still unallocated or exactly one bank long.
    #[verifier::type_invariant]
    spec fn inv(self) -> bool {
        self.mem@.len() == 0 || self.mem@.len() == BANK_SIZE
    }

    /// The byte visible at `offset`: zero until the bank is allocated and for
    /// offsets beyond the bank.
    pub closed spec fn byte_at(self, offset: u32) -> u8 {
        if offset < self.mem@.len() {
            self.mem@[offset as int]
        } else {
            0
        }
    }

    /// A fresh, unallocated bank; every offset reads as zero.
    pub fn new() -> (r: RustMemory)
        ensures
            forall|o: u32| r.byte_at(o) == 0,
    {
        RustMemory { mem: Vec::new() }
    }

    /// Allocates the bank, zero-filled, so no visible byte changes.
    fn init(&mut self)
        requires
            old(self).mem@.len() == 0,
        ensures
            final(self).mem@.len() == BANK_SIZE,
            forall|o: u32| final(self).byte_at(o) == old(self).byte_at(o),
    {
        self.mem = vec![0u8; BANK_SIZE];
    }
}

impl Device for RustMemory {
    /// RAM reads have no side effect and return the stored byte.
    open spec fn read_rel(pre: Self, post: Self, offset: u32, range: u32, r: u8) -> bool {
        post == pre && r == pre.byte_at(offset)
    }

    /// RAM 16-bit reads return the two stored bytes, little-endian.
    open spec fn read16_rel(pre: Self, post: Self, offset: u32, range: u32, r: [u8; 2]) -> bool {
        &&& post == pre
        &&& r[0] == pre.byte_at(offset)
        &&& r[1] == pre.byte_at((offset + 1) as u32)
    }

    /// RAM byte writes update exactly the addressed byte, when it lies within
    /// the bank.
    open spec fn write_rel(pre: Self, post: Self, val: u8, offset: u32, range: u32) -> bool {
        forall|o: u32|
            #[trigger] post.byte_at(o) == (if o == offset && offset < BANK_SIZE {
                val
            } else {
                pre.byte_at(o)
            })
    }

    /// RAM 16-bit writes update exactly the two addressed bytes within the
    /// bank, little-endian.
    open spec fn write16_rel(pre: Self, post: Self, val: [u8; 2], offset: u32, range: u32) -> bool {
        forall|o: u32|
            #[trigger] post.byte_at(o) == (if o == offset && offset < BANK_SIZE {
                val[0]
            } else if o == offset + 1 && offset + 1 < BANK_SIZE {
                val[1]
            } else {
                pre.byte_at(o)
            })
    }

    fn write(&mut self, val: u8, offset: u32, _range: u32) {
        proof {
            use_type_invariant(&*self);
        }
        if offset >= 0x10000 {
            return ;
        }
        if self.mem.len() == 0 {
            self.init();
        }
        self.mem[offset as usize] = val;
    }

    fn write16(&mut self, val: [u8; 2], offset: u32, _range: u32) {
        proof {
            use_type_invariant(&*self);
        }
        if offset >= 0x10000 {
            return ;
        }
        if self.mem.len() == 0 {
            self.init();
        }
        self.mem[offset as usize] = val[0];
        self.mem[offset as usize + 1] = val[1];
    }

    fn read(&mut self, offset: u32, _range: u32) -> (r: u8) {
        proof {
            use_type_invariant(&*self);
        }
        if (offset as usize) < self.mem.len() {
            self.mem[offset as usize]
        } else {
            0
        }
    }

    fn read16(&mut self, offset: u32, _range: u32) -> (r: [u8; 2]) {
        proof {
            use_type_invariant(&*self);
        }
        let b0 = if (offset as usize) < self.mem.len() {
            self.mem[offset as usize]
        } else {
            0
        };
        let b1 = if (offset as usize + 1) < self.mem.len() {
            self.mem[offset as usize + 1]
        } else {
            0
        };
        [b0, b1]
    }

    /// RAM raises no peripheral events.
    fn clock(&mut self) -> DevMsg {
        DevMsg::Idle
    }
}

} // verus!
