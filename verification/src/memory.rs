//! The address bus: an ordered device table, range lookup, and byte/word
//! dispatch with misalignment handling.
//!
//! Each mapped device owns a list of half-open address ranges.  A lookup scans
//! the table in order and takes the first device, and within it the first
//! range, that contains the address; reads of unmapped addresses return 0 and
//! writes to them are silently dropped.  A misaligned 16-bit access is split
//! into two independent byte accesses, which may land on different devices or
//! on no device at all; an aligned one is forwarded to the owning device as a
//! single 16-bit call, whose offset is then always even.

use vstd::prelude::*;

verus! {

/// A message a device can surface when it is clocked, feeding asynchronous
/// peripheral events into the execution engine's interrupt path.
#[derive(Debug, PartialEq, Eq, Structural, Clone, Copy)]
pub enum DevMsg {
    Idle,
    Irq,
    Nmi,
}

/// A half-open address range `[start, end)` owned by a device.
#[derive(Debug, PartialEq, Eq, Structural, Clone, Copy)]
pub struct MemRange {
    pub start: u32,
    pub end: u32,
}

impl MemRange {
    /// Whether `addr` lies inside the range.
    pub open spec fn contains_spec(self, addr: u32) -> bool {
        self.start <= addr && addr < self.end
    }

    pub fn contains(self, addr: u32) -> (r: bool)
        ensures
            r == self.contains_spec(addr),
    {
        self.start <= addr && addr < self.end
    }
}

/// The capability interface every mapped device implements.
///
/// Each implementation chooses a relation per access kind that ties the
/// device state before and after the access to the transferred bytes; the
/// bus promises nothing about a device's behaviour beyond its own relation,
/// so a peripheral is free to have side effects on reads or to answer
/// nondeterministically.  The 16-bit entry points are only ever handed even
/// offsets.
pub trait Device: Sized {
    /// How a byte read at `offset` within range `range` steps the device
    /// state and what byte it may hand back.  The default promises nothing:
    /// an implementation overrides it to say more.
    open spec fn read_rel(pre: Self, post: Self, offset: u32, range: u32, r: u8) -> bool {
        true
    }

    /// How a 16-bit read (little-endian pair, even offset) steps the device.
    open spec fn read16_rel(pre: Self, post: Self, offset: u32, range: u32, r: [u8; 2]) -> bool {
        true
    }

    /// How a byte write steps the device.
    open spec fn write_rel(pre: Self, post: Self, val: u8, offset: u32, range: u32) -> bool {
        true
    }

    /// How a 16-bit write (little-endian pair, even offset) steps the device.
    open spec fn write16_rel(pre: Self, post: Self, val: [u8; 2], offset: u32, range: u32) -> bool {
        true
    }

    fn write(&mut self, val: u8, offset: u32, range: u32)
        ensures
            Self::write_rel(*old(self), *final(self), val, offset, range),
    ;

    /// `offset` is always a multiple of 2.
    fn write16(&mut self, val: [u8; 2], offset: u32, range: u32)
        requires
            offset % 2 == 0,
        ensures
            Self::write16_rel(*old(self), *final(self), val, offset, range),
    ;

    fn read(&mut self, offset: u32, range: u32) -> (r: u8)
        ensures
            Self::read_rel(*old(self), *final(self), offset, range, r),
    ;

    /// `offset` is always a multiple of 2.
    fn read16(&mut self, offset: u32, range: u32) -> (r: [u8; 2])
        requires
            offset % 2 == 0,
        ensures
            Self::read16_rel(*old(self), *final(self), offset, range, r),
    ;

    /// Polled once per machine cycle.
    fn clock(&mut self) -> DevMsg;
}

/// One entry of the device table: a device and the address ranges it owns.
pub struct MMapDevice<D: Device> {
    pub dev: D,
    pub mem_ranges: Vec<MemRange>,
}

impl<D: Device> MMapDevice<D> {
    /// Whether some range of this entry contains `addr`.
    pub open spec fn hits(self, addr: u32) -> bool {
        exists|ri: int|
            0 <= ri < self.mem_ranges@.len() && (#[trigger] self.mem_ranges@[ri]).contains_spec(
                addr,
            )
    }
}

/// The address bus: an ordered table of mapped devices.
pub struct MemoryMap<D: Device> {
    pub devices: Vec<MMapDevice<D>>,
}

impl<D: Device> MemoryMap<D> {
    /// No mapped range contains `addr`.
    pub open spec fn unmapped(self, addr: u32) -> bool {
        forall|di: int|
            0 <= di < self.devices@.len() ==> !(#[trigger] self.devices@[di]).hits(addr)
    }

    /// `(di, ri)` is the entry a lookup of `addr` lands on: the first device
    /// of the table, and the first of its ranges, containing `addr`.
    pub open spec fn resolves_to(self, addr: u32, di: int, ri: int) -> bool {
        &&& 0 <= di < self.devices@.len()
        &&& 0 <= ri < self.devices@[di].mem_ranges@.len()
        &&& self.devices@[di].mem_ranges@[ri].contains_spec(addr)
        &&& forall|dj: int| 0 <= dj < di ==> !(#[trigger] self.devices@[dj]).hits(addr)
        &&& forall|rj: int|
            0 <= rj < ri ==> !(#[trigger] self.devices@[di].mem_ranges@[rj]).contains_spec(addr)
    }

    /// Shape of a well-formed device table, established at
    /// machine-construction time and kept by `add_device`: each device owns
    /// few enough ranges to index them with the 32-bit range index of the
    /// device interface, and every range starts on an even address, so that
    /// an aligned bus address always turns into an even device offset.
    pub open spec fn wf(self) -> bool {
        &&& forall|di: int|
            0 <= di < self.devices@.len() ==> (#[trigger] self.devices@[di]).mem_ranges@.len()
                <= u32::MAX
        &&& forall|di: int, ri: int|
            0 <= di < self.devices@.len() && 0 <= ri < self.devices@[di].mem_ranges@.len() ==> (
            #[trigger] self.devices@[di].mem_ranges@[ri]).start % 2 == 0
    }

    /// The device table keeps its length and all entries but `di`, whose
    /// ranges also stay; only that device's state may step.
    pub open spec fn frame_except(pre: Self, post: Self, di: int) -> bool {
        &&& post.devices@.len() == pre.devices@.len()
        &&& forall|j: int|
            0 <= j < pre.devices@.len() && j != di ==> post.devices@[j] == #[trigger] pre.devices@[j]
        &&& post.devices@[di].mem_ranges == pre.devices@[di].mem_ranges
    }

    /// How one byte read at `addr` steps the bus: unmapped addresses leave it
    /// unchanged and read as 0; a mapped address steps exactly the owning
    /// device through its own read relation, at the offset of `addr` in the
    /// owning range.
    pub open spec fn byte_read_rel(pre: Self, post: Self, addr: u32, r: u8) -> bool {
        if pre.unmapped(addr) {
            post == pre && r == 0
        } else {
            exists|di: int, ri: int|
                {
                    &&& #[trigger] pre.resolves_to(addr, di, ri)
                    &&& Self::frame_except(pre, post, di)
                    &&& D::read_rel(
                        pre.devices@[di].dev,
                        post.devices@[di].dev,
                        (addr - pre.devices@[di].mem_ranges@[ri].start) as u32,
                        ri as u32,
                        r,
                    )
                }
        }
    }

    /// How one byte write steps the bus: a no-op when unmapped, otherwise one
    /// step of the owning device's write relation.
    pub open spec fn byte_write_rel(pre: Self, post: Self, val: u8, addr: u32) -> bool {
        if pre.unmapped(addr) {
            post == pre
        } else {
            exists|di: int, ri: int|
                {
                    &&& #[trigger] pre.resolves_to(addr, di, ri)
                    &&& Self::frame_except(pre, post, di)
                    &&& D::write_rel(
                        pre.devices@[di].dev,
                        post.devices@[di].dev,
                        val,
                        (addr - pre.devices@[di].mem_ranges@[ri].start) as u32,
                        ri as u32,
                    )
                }
        }
    }

    /// How an aligned 16-bit read steps the bus, as one call of the owning
    /// device's 16-bit entry point.
    pub open spec fn word_read_rel(pre: Self, post: Self, addr: u32, r: [u8; 2]) -> bool {
        if pre.unmapped(addr) {
            post == pre && r[0] == 0 && r[1] == 0
        } else {
            exists|di: int, ri: int|
                {
                    &&& #[trigger] pre.resolves_to(addr, di, ri)
                    &&& Self::frame_except(pre, post, di)
                    &&& D::read16_rel(
                        pre.devices@[di].dev,
                        post.devices@[di].dev,
                        (addr - pre.devices@[di].mem_ranges@[ri].start) as u32,
                        ri as u32,
                        r,
                    )
                }
        }
    }

    /// How an aligned 16-bit write steps the bus.
    pub open spec fn word_write_rel(pre: Self, post: Self, val: [u8; 2], addr: u32) -> bool {
        if pre.unmapped(addr) {
            post == pre
        } else {
            exists|di: int, ri: int|
                {
                    &&& #[trigger] pre.resolves_to(addr, di, ri)
                    &&& Self::frame_except(pre, post, di)
                    &&& D::write16_rel(
                        pre.devices@[di].dev,
                        post.devices@[di].dev,
                        val,
                        (addr - pre.devices@[di].mem_ranges@[ri].start) as u32,
                        ri as u32,
                    )
                }
        }
    }

    /// An empty bus: nothing is mapped.
    pub fn new() -> (r: MemoryMap<D>)
        ensures
            r.devices@.len() == 0,
            r.wf(),
    {
        MemoryMap { devices: Vec::new() }
    }

    /// Appends a device owning `mem_ranges` to the device table.  The table
    /// stays well formed when every added range starts on an even address.
    pub fn add_device(&mut self, dev: D, mem_ranges: Vec<MemRange>)
        ensures
            final(self).devices@ == old(self).devices@.push(
                MMapDevice { dev, mem_ranges: mem_ranges },
            ),
            old(self).wf() && mem_ranges@.len() <= u32::MAX && (forall|ri: int|
                0 <= ri < mem_ranges@.len() ==> (#[trigger] mem_ranges@[ri]).start % 2 == 0)
                ==> final(self).wf(),
    {
        self.devices.push(MMapDevice { dev, mem_ranges });
    }

    /// Looks `addr` up in the device table: the index of the first device
    /// whose ranges contain it, the offset of `addr` within the first such
    /// range, and that range's index.  `None` when `addr` is unmapped.
    pub fn find_device_get_offset(&self, addr: u32) -> (r: Option<(usize, u32, u32)>)
        requires
            self.wf(),
        ensures
            (match r {
                Some((di, offset, ri)) => {
                    &&& self.resolves_to(addr, di as int, ri as int)
                    &&& offset == addr - self.devices@[di as int].mem_ranges@[ri as int].start
                },
                None => self.unmapped(addr),
            }),
    {
        let n = self.devices.len();
        let mut di: usize = 0;
        while di < n
            invariant
                self.wf(),
                di <= n,
                n == self.devices@.len(),
                forall|dj: int| 0 <= dj < di ==> !(#[trigger] self.devices@[dj]).hits(addr),
            decreases n - di,
        {
            let ranges = &self.devices[di].mem_ranges;
            let rn = ranges.len();
            let mut ri: usize = 0;
            while ri < rn
                invariant
                    self.wf(),
                    ri <= rn,
                    rn == ranges@.len(),
                    forall|dj: int| 0 <= dj < di ==> !(#[trigger] self.devices@[dj]).hits(addr),
                    ranges == self.devices@[di as int].mem_ranges,
                    di < self.devices@.len(),
                    forall|rj: int| 0 <= rj < ri ==> !(#[trigger] ranges@[rj]).contains_spec(addr),
                decreases rn - ri,
            {
                let range = ranges[ri];
                if range.contains(addr) {
                    proof {
                        assert(self.devices@[di as int].mem_ranges@.len() <= u32::MAX);
                    }
                    return Some((di, addr - range.start, ri as u32));
                }
                ri = ri + 1;
            }
            assert(!self.devices@[di as int].hits(addr));
            di = di + 1;
        }
        None
    }
}

impl<D: Device> MemoryMap<D> {
    /// Taking an entry out of the table and putting one back at the same
    /// index leaves every other entry where it was.
    proof fn lemma_remove_insert(s0: Seq<MMapDevice<D>>, di: int, e: MMapDevice<D>)
        requires
            0 <= di < s0.len(),
        ensures
            s0.remove(di).insert(di, e).len() == s0.len(),
            s0.remove(di).insert(di, e)[di] == e,
            forall|j: int|
                0 <= j < s0.len() && j != di ==> #[trigger] s0.remove(di).insert(di, e)[j] == s0[j],
    {
        s0.remove_ensures(di);
        s0.remove(di).insert_ensures(di, e);
    }

    /// A step that only touches the device at `di` keeps the table well
    /// formed.
    proof fn lemma_frame_preserves_wf(pre: Self, post: Self, di: int)
        requires
            pre.wf(),
            Self::frame_except(pre, post, di),
            0 <= di < pre.devices@.len(),
        ensures
            post.wf(),
    {
        assert forall|dj: int|
            0 <= dj < post.devices@.len() implies (#[trigger] post.devices@[dj]).mem_ranges@.len()
            <= u32::MAX by {
            if dj != di {
                assert(post.devices@[dj] == pre.devices@[dj]);
            }
            assert(post.devices@[dj].mem_ranges == pre.devices@[dj].mem_ranges);
        }
        assert forall|dj: int, rj: int|
            0 <= dj < post.devices@.len() && 0 <= rj
                < post.devices@[dj].mem_ranges@.len() implies (#[trigger] post.devices@[dj].mem_ranges@[rj]).start
            % 2 == 0 by {
            if dj != di {
                assert(post.devices@[dj] == pre.devices@[dj]);
            }
            assert(post.devices@[dj].mem_ranges == pre.devices@[dj].mem_ranges);
        }
    }

    /// Single-byte bus read.  An unmapped address reads as 0; a mapped one is
    /// dispatched to the first device whose ranges contain it.
    pub fn read(&mut self, addr: u32) -> (r: u8)
        requires
            old(self).wf(),
        ensures
            Self::byte_read_rel(*old(self), *final(self), addr, r),
            final(self).wf(),
    {
        match self.find_device_get_offset(addr) {
            Some((di, offset, ri)) => {
                let ghost s0 = self.devices@;
                let mut entry = self.devices.remove(di);
                let b = entry.dev.read(offset, ri);
                let ghost e_after = entry;
                self.devices.insert(di, entry);
                proof {
                    Self::lemma_remove_insert(s0, di as int, e_after);
                    assert(Self::frame_except(*old(self), *self, di as int));
                    assert(old(self).resolves_to(addr, di as int, ri as int));
                    Self::lemma_frame_preserves_wf(*old(self), *self, di as int);
                }
                b
            }
            None => 0,
        }
    }

    /// Single-byte bus write.  Writes to unmapped addresses are silent
    /// no-ops.
    pub fn write(&mut self, val: u8, addr: u32)
        requires
            old(self).wf(),
        ensures
            Self::byte_write_rel(*old(self), *final(self), val, addr),
            final(self).wf(),
    {
        match self.find_device_get_offset(addr) {
            Some((di, offset, ri)) => {
                let ghost s0 = self.devices@;
                let mut entry = self.devices.remove(di);
                entry.dev.write(val, offset, ri);
                let ghost e_after = entry;
                self.devices.insert(di, entry);
                proof {
                    Self::lemma_remove_insert(s0, di as int, e_after);
                    assert(Self::frame_except(*old(self), *self, di as int));
                    assert(old(self).resolves_to(addr, di as int, ri as int));
                    Self::lemma_frame_preserves_wf(*old(self), *self, di as int);
                }
            }
            None => (),
        }
    }

    /// 16-bit bus read.  A misaligned access is split into two independent
    /// single-byte reads, at `addr` and at the numerically next address
    /// (wrapping at the top of the address space), composed little-endian;
    /// the two halves may come from different devices, or from none.  An
    /// aligned access is forwarded as one 16-bit call to the owning device,
    /// whose offset is then even.
    pub fn read16(&mut self, addr: u32) -> (r: [u8; 2])
        requires
            old(self).wf(),
        ensures
            final(self).wf(),
            addr % 2 == 1 ==> exists|mid: MemoryMap<D>|
                #[trigger] Self::byte_read_rel(*old(self), mid, addr, r[0])
                    && Self::byte_read_rel(mid, *final(self), addr.wrapping_add(1), r[1]),
            addr % 2 == 0 ==> Self::word_read_rel(*old(self), *final(self), addr, r),
    {
        if addr % 2 == 1 {
            let b0 = self.read(addr);
            let ghost mid = *self;
            let b1 = self.read(addr.wrapping_add(1));
            let r = [b0, b1];
            proof {
                assert(r[0] == b0 && r[1] == b1);
                assert(Self::byte_read_rel(*old(self), mid, addr, r[0]) && Self::byte_read_rel(
                    mid,
                    *self,
                    addr.wrapping_add(1),
                    r[1],
                ));
            }
            r
        } else {
            match self.find_device_get_offset(addr) {
                Some((di, offset, ri)) => {
                    proof {
                        assert(offset % 2 == 0);
                    }
                    let ghost s0 = self.devices@;
                    let mut entry = self.devices.remove(di);
                    let pair = entry.dev.read16(offset, ri);
                    let ghost e_after = entry;
                    self.devices.insert(di, entry);
                    proof {
                        Self::lemma_remove_insert(s0, di as int, e_after);
                        assert(Self::frame_except(*old(self), *self, di as int));
                        assert(old(self).resolves_to(addr, di as int, ri as int));
                        Self::lemma_frame_preserves_wf(*old(self), *self, di as int);
                    }
                    pair
                }
                None => {
                    let r = [0u8, 0u8];
                    proof {
                        assert(r[0] == 0 && r[1] == 0);
                    }
                    r
                }
            }
        }
    }

    /// 16-bit bus write.  Misaligned accesses split into two independent
    /// byte writes exactly as `read16` splits reads; aligned accesses are
    /// forwarded as one 16-bit call with an even offset.
    pub fn write16(&mut self, val: [u8; 2], addr: u32)
        requires
            old(self).wf(),
        ensures
            final(self).wf(),
            addr % 2 == 1 ==> exists|mid: MemoryMap<D>|
                #[trigger] Self::byte_write_rel(*old(self), mid, val[0], addr)
                    && Self::byte_write_rel(mid, *final(self), val[1], addr.wrapping_add(1)),
            addr % 2 == 0 ==> Self::word_write_rel(*old(self), *final(self), val, addr),
    {
        if addr % 2 == 1 {
            let b0 = val[0];
            let b1 = val[1];
            self.write(b0, addr);
            let ghost mid = *self;
            self.write(b1, addr.wrapping_add(1));
            proof {
                assert(Self::byte_write_rel(*old(self), mid, val[0], addr)
                    && Self::byte_write_rel(mid, *self, val[1], addr.wrapping_add(1)));
            }
        } else {
            match self.find_device_get_offset(addr) {
                Some((di, offset, ri)) => {
                    proof {
                        assert(offset % 2 == 0);
                    }
                    let ghost s0 = self.devices@;
                    let mut entry = self.devices.remove(di);
                    entry.dev.write16(val, offset, ri);
                    let ghost e_after = entry;
                    self.devices.insert(di, entry);
                    proof {
                        Self::lemma_remove_insert(s0, di as int, e_after);
                        assert(Self::frame_except(*old(self), *self, di as int));
                        assert(old(self).resolves_to(addr, di as int, ri as int));
                        Self::lemma_frame_preserves_wf(*old(self), *self, di as int);
                    }
                }
                None => (),
            }
        }
    }
}

} // verus!
