use segcpu::memory::{DevMsg, Device, MemRange, MemoryMap};
use segcpu::rustmemory::RustMemory;

#[test]
fn alloc_de() {
    let mut m = RustMemory::new();
    for i in 0..256 {
        m.write(i as u8, i, 0)
    }
    for i in 0..256 {
        assert_eq!(m.read(i, 0), i as u8)
    }
}

#[test]
fn ram_word_access() {
    let mut m = RustMemory::new();
    m.write16([0x34, 0x12], 0x10, 0);
    assert_eq!(m.read16(0x10, 0), [0x34, 0x12]);
    assert_eq!(m.read(0x10, 0), 0x34);
    assert_eq!(m.read(0x11, 0), 0x12);
    // beyond the bank: writes are dropped, reads are zero
    m.write(0xff, 0x10000, 0);
    assert_eq!(m.read(0x10000, 0), 0);
    assert_eq!(m.clock(), DevMsg::Idle);
}

#[test]
fn unmapped_addresses_read_zero_and_drop_writes() {
    let mut bus: MemoryMap<RustMemory> = MemoryMap::new();
    bus.add_device(RustMemory::new(), vec![MemRange { start: 0x100, end: 0x200 }]);
    bus.write(0xaa, 0x50);
    assert_eq!(bus.read(0x50), 0);
    assert_eq!(bus.read16(0x250), [0, 0]);
    bus.write(0xbb, 0x100);
    assert_eq!(bus.read(0x100), 0xbb);
}

#[test]
fn lookup_offsets_are_range_relative() {
    let mut bus: MemoryMap<RustMemory> = MemoryMap::new();
    bus.add_device(RustMemory::new(), vec![MemRange { start: 0x100, end: 0x200 }]);
    bus.add_device(RustMemory::new(), vec![MemRange { start: 0x200, end: 0x300 }]);
    assert_eq!(bus.find_device_get_offset(0x150), Some((0, 0x50, 0)));
    assert_eq!(bus.find_device_get_offset(0x2fe), Some((1, 0xfe, 0)));
    assert_eq!(bus.find_device_get_offset(0x300), None);
    // first match wins, device by device and range by range
    let mut overlapping: MemoryMap<RustMemory> = MemoryMap::new();
    overlapping.add_device(
        RustMemory::new(),
        vec![MemRange { start: 0x10, end: 0x20 }, MemRange { start: 0x00, end: 0x40 }],
    );
    assert_eq!(overlapping.find_device_get_offset(0x18), Some((0, 0x8, 0)));
    assert_eq!(overlapping.find_device_get_offset(0x30), Some((0, 0x30, 1)));
}

#[test]
fn misaligned_word_read_splits_across_devices() {
    let mut bus: MemoryMap<RustMemory> = MemoryMap::new();
    bus.add_device(RustMemory::new(), vec![MemRange { start: 0x0, end: 0x2 }]);
    bus.add_device(RustMemory::new(), vec![MemRange { start: 0x2, end: 0x4 }]);
    bus.write(0x11, 0x1);
    bus.write(0x22, 0x2);
    // the two halves come from two different devices
    assert_eq!(bus.read16(0x1), [0x11, 0x22]);
    assert_eq!(bus.read(0x1), 0x11);
    assert_eq!(bus.read(0x2), 0x22);
}

#[test]
fn misaligned_word_access_with_an_unmapped_half() {
    let mut bus: MemoryMap<RustMemory> = MemoryMap::new();
    bus.add_device(RustMemory::new(), vec![MemRange { start: 0x0, end: 0x2 }]);
    bus.write(0x11, 0x1);
    // the second byte is unmapped and reads zero
    assert_eq!(bus.read16(0x1), [0x11, 0x00]);
    // the mapped half of a split write lands, the unmapped half vanishes
    bus.write16([0x33, 0x44], 0x1);
    assert_eq!(bus.read(0x1), 0x33);
    assert_eq!(bus.read(0x2), 0x00);
}

#[test]
fn aligned_word_access_goes_through_in_one_piece() {
    let mut bus: MemoryMap<RustMemory> = MemoryMap::new();
    bus.add_device(RustMemory::new(), vec![MemRange { start: 0x100, end: 0x200 }]);
    bus.write16([0xcd, 0xab], 0x180);
    assert_eq!(bus.read16(0x180), [0xcd, 0xab]);
    assert_eq!(bus.read(0x180), 0xcd);
    assert_eq!(bus.read(0x181), 0xab);
}
