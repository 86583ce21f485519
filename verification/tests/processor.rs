use segcpu::consts::{GPRs, Offs, Ptrs, Spec};
use segcpu::memory::MemoryMap;
use segcpu::processor::{address, Operand, Processor};
use segcpu::regval::{Exception, RegSize, RegVal};
use segcpu::rustmemory::RustMemory;

#[test]
fn gpr_mov() {
    let mut p = Processor::default();

    let mov_res = p.mov(Operand::Const(0xffu8.into()), Operand::Register(GPRs::BH.id()), false);
    assert!(mov_res.is_ok());
    assert_eq!(p.xb, 0x0000_ff00);

    p.xa = 0x1234_5678;
    let mov_res = p.mov(Operand::Register(GPRs::A.id()), Operand::Register(GPRs::XC.id()), false);
    assert!(mov_res.is_ok());
    assert_eq!(p.xc, 0x0000_5678);

    let mov_res =
        p.mov(Operand::Const((-10i16 as u16).into()), Operand::Register(GPRs::XC.id()), true);
    assert!(mov_res.is_ok());
    assert_eq!(p.xc, -10i32 as u32);
}

#[test]
fn ptr_mov() {
    let mut p = Processor::default();

    p.xsp = 0x1234_5678;
    let mov_res = p.mov(Operand::Register(Ptrs::SP.id()), Operand::Register(Ptrs::BP.id()), false);
    assert!(mov_res.is_ok());
    assert_eq!(p.xbp, 0x0000_5678)
}

#[test]
fn sub_register_writes_preserve_neighbour_bytes() {
    let mut p = Processor::default();
    p.xd = 0xaabb_ccdd;
    assert!(p.write(GPRs::DL.id(), RegVal::Byte(0x11)).is_ok());
    assert_eq!(p.xd, 0xaabb_cc11);
    assert!(p.write(GPRs::D.id(), RegVal::Word(0x2233)).is_ok());
    assert_eq!(p.xd, 0xaabb_2233);
    assert!(p.write(GPRs::XD.id(), RegVal::Dword(0x4455_6677)).is_ok());
    assert_eq!(p.xd, 0x4455_6677);
}

#[test]
fn register_views_read_back() {
    let mut p = Processor::default();
    p.xb = 0x1234_5678;
    assert_eq!(p.read(GPRs::B.id()), Ok(RegVal::Word(0x5678)));
    assert_eq!(p.read(GPRs::XB.id()), Ok(RegVal::Dword(0x1234_5678)));
    assert_eq!(p.read(GPRs::BL.id()), Ok(RegVal::Byte(0x78)));
    assert_eq!(p.read(GPRs::BH.id()), Ok(RegVal::Byte(0x56)));
    p.xsp = 0xcafe_f00d;
    assert_eq!(p.read(Ptrs::SP.id()), Ok(RegVal::Word(0xf00d)));
    assert_eq!(p.read(Ptrs::XSP.id()), Ok(RegVal::Dword(0xcafe_f00d)));
    p.ro = 0xbeef;
    assert_eq!(p.read(Ptrs::ROP.id()), Ok(RegVal::Word(0xbeef)));
    p.co = 0x0123;
    assert_eq!(p.read(Offs::CO.id()), Ok(RegVal::Word(0x0123)));
    assert_eq!(p.read_16(Offs::CO.id()), Ok(0x0123));
    assert_eq!(p.read_16(GPRs::XB.id()), Err(Exception::InvalidOperation));
    p.xflags = 0x0000_0013;
    assert_eq!(p.read(Spec::FLAGS.id() | 1), Ok(RegVal::Dword(0x13)));
}

#[test]
fn unknown_register_ids_are_invalid() {
    let mut p = Processor::default();
    assert_eq!(p.read(0x1b), Err(Exception::InvalidOperation));
    assert_eq!(p.read(0x27), Err(Exception::InvalidOperation));
    assert_eq!(p.read(0x30), Err(Exception::InvalidOperation));
    assert_eq!(p.read(0xff), Err(Exception::InvalidOperation));
    assert_eq!(p.write(0x24, RegVal::Byte(0)), Err(Exception::InvalidOperation));
    assert_eq!(p.size(0x1f), Err(Exception::InvalidOperation));
}

#[test]
fn register_sizes() {
    let p = Processor::default();
    assert_eq!(p.size(GPRs::A.id()), Ok(RegSize::Word));
    assert_eq!(p.size(GPRs::XA.id()), Ok(RegSize::Dword));
    assert_eq!(p.size(GPRs::AL.id()), Ok(RegSize::Byte));
    assert_eq!(p.size(GPRs::AH.id()), Ok(RegSize::Byte));
    assert_eq!(p.size(Ptrs::SP.id()), Ok(RegSize::Word));
    assert_eq!(p.size(Ptrs::XSP.id()), Ok(RegSize::Dword));
    assert_eq!(p.size(Ptrs::ROP.id()), Ok(RegSize::Word));
    assert_eq!(p.size(Offs::DO.id()), Ok(RegSize::Word));
    assert_eq!(p.size(Spec::PC.id()), Ok(RegSize::Word));
    assert_eq!(p.size(Spec::PC.id() | 1), Ok(RegSize::Dword));
}

#[test]
fn mov_refuses_an_immediate_destination() {
    let mut p = Processor::default();
    let res = p.mov(Operand::Register(GPRs::A.id()), Operand::Const(RegVal::Byte(1)), false);
    assert_eq!(res, Err(Exception::InvalidOperation));
}

#[test]
fn test_mode_suppresses_the_write_back() {
    let mut p = Processor::default();
    p.xflags = 0x10;
    let res = p.mov(Operand::Const(0xffu8.into()), Operand::Register(GPRs::BH.id()), false);
    assert!(res.is_ok());
    assert_eq!(p.xb, 0);
}

#[test]
fn flat_pc_uses_an_8_bit_segment_shift() {
    assert_eq!(address(0x1234, 0x0056), 0x1234 + 0x5600);
    let mut p = Processor::default();
    p.xpc = 0xffff_0003;
    p.co = 0x0100;
    assert_eq!(p.get_flat_pc(), 0x0001_0003);
    p.increment_pc();
    assert_eq!(p.xpc, 0xffff_0004);
    p.decrement_pc();
    assert_eq!(p.xpc, 0xffff_0003);
}

#[test]
fn operand_decode_reads_immediates_and_register_ids() {
    let mut p = Processor::default();
    let mut mem: MemoryMap<RustMemory> = MemoryMap::new();
    mem.add_device(RustMemory::new(), vec![segcpu::memory::MemRange { start: 0, end: 0x100 }]);
    mem.write(0x70, 0);
    mem.write(0xff, 1);
    mem.write(0x71, 2);
    mem.write(0x34, 3);
    mem.write(0x12, 4);
    mem.write(0x05, 5);
    mem.write(0x80, 6);

    assert_eq!(p.read_operand(&mut mem), Some(Ok(Operand::Const(RegVal::Byte(0xff)))));
    assert_eq!(p.xpc, 2);
    assert_eq!(p.read_operand(&mut mem), Some(Ok(Operand::Const(RegVal::Word(0x1234)))));
    assert_eq!(p.xpc, 5);
    assert_eq!(p.read_operand(&mut mem), Some(Ok(Operand::Register(0x05))));
    assert_eq!(p.xpc, 6);
    // a byte with its top bit set is un-consumed for the instruction decoder
    assert_eq!(p.read_operand(&mut mem), None);
    assert_eq!(p.xpc, 6);
}

#[test]
fn clock_advances_past_the_operands() {
    let mut p = Processor::default();
    let mut mem: MemoryMap<RustMemory> = MemoryMap::new();
    mem.add_device(RustMemory::new(), vec![segcpu::memory::MemRange { start: 0, end: 0x100 }]);
    // opcode, 8-bit immediate operand, then an opcode byte that stops decode
    mem.write(0x01, 0);
    mem.write(0x70, 1);
    mem.write(0xff, 2);
    mem.write(0x80, 3);
    p.xa = 7;
    p.xrp = 0xdead;
    p.ro = 0xbeef;
    p.clock(&mut mem);
    assert_eq!(p.xpc, 3);
    assert_eq!(p.xa, 7);
    // no decode failure, so the return linkage is untouched
    assert_eq!(p.xrp, 0xdead);
    assert_eq!(p.ro, 0xbeef);
}

#[test]
fn operand_helpers() {
    let mut p = Processor::default();
    p.xa = 0x1234_5678;
    let reg = Operand::Register(GPRs::A.id());
    let imm = Operand::Const(RegVal::Byte(9));
    assert!(imm.is_const());
    assert!(!reg.is_const());
    assert_eq!(reg.value(&p), Ok(RegVal::Word(0x5678)));
    assert_eq!(imm.value(&p), Ok(RegVal::Byte(9)));
    assert_eq!(reg.size(&p), Ok(RegSize::Word));
    assert_eq!(imm.size(&p), Err(Exception::InvalidOperation));
    assert!(imm.write_back(&mut p, RegVal::Byte(1)).is_ok());
    assert_eq!(p.xa, 0x1234_5678);
    assert!(reg.write_back(&mut p, RegVal::Word(0x9abc)).is_ok());
    assert_eq!(p.xa, 0x1234_9abc);
}
