use segcpu::utils::{
    mix_u32, MergeUp, NumMerge, NumSplit, SignExtend, SignedWideMul, TopBit, ZeroExtend,
};

#[test]
fn num_splits() {
    assert_eq!(0x12_34u16.half_split(), (0x34, 0x12));
    assert_eq!(0x12_34_56_78u32.half_split(), (0x56_78, 0x12_34));
}

#[test]
fn signed_merge() {
    let res = i16::merge(0x34, 0x12);
    assert_eq!(res, 0x1234);

    let (lo, hi) = (-0x1234i16 as u16).half_split();
    let res = i16::merge(lo, hi);
    assert_eq!(res, -0x1234)
}

#[test]
fn merge_up_builds_the_wider_value() {
    let v: u16 = MergeUp::merge_up(0x34u8, 0x12u8);
    assert_eq!(v, 0x1234);
    let w: u32 = MergeUp::merge_up(0x5678u16, 0x1234u16);
    assert_eq!(w, 0x1234_5678);
}

#[test]
fn wide_splits_and_merges() {
    assert_eq!(0x1122_3344_5566_7788u64.half_split(), (0x5566_7788, 0x1122_3344));
    assert_eq!(u64::merge(0x5566_7788, 0x1122_3344), 0x1122_3344_5566_7788);
    assert_eq!((-0x11223344i64 as i64).half_split(), (0xeeddccbc, 0xffffffff));
    assert_eq!(i64::merge(0xeeddccbc, 0xffffffff), -0x11223344);
    assert_eq!(i32::merge(0xccbc, 0xeedd), -0x11223344i32);
    assert_eq!((-0x11223344i32).half_split(), (0xccbc, 0xeedd));
}

#[test]
fn extensions() {
    let z: u32 = 0xf0u8.zero_extend();
    assert_eq!(z, 0x0000_00f0);
    let s: u32 = 0xf0u8.sign_extend();
    assert_eq!(s, 0xffff_fff0);
    let s16: u16 = 0x7fu8.sign_extend();
    assert_eq!(s16, 0x007f);
    let s32: u32 = 0x8000u16.sign_extend();
    assert_eq!(s32, 0xffff_8000);
    let z16: u16 = 0x80u8.zero_extend();
    assert_eq!(z16, 0x0080);
}

#[test]
fn widening_muls() {
    assert_eq!((-0x12i8).widening_mul(0x34), (0x58, 0xfc));
    assert_eq!(2i8.widening_mul(3), (6, 0));
    assert_eq!((-1i16).widening_mul(-1), (1, 0));
    assert_eq!(0x100i16.widening_mul(0x100), (0, 1));
    assert_eq!((-2i32).widening_mul(1), (0xffff_fffe, 0xffff_ffff));
}

#[test]
fn top_bits() {
    assert!(0x80u8.top_bit());
    assert!(!0x7fu8.top_bit());
    assert!(0x8000u16.top_bit());
    assert!(!0x7fffu16.top_bit());
    assert!(0x8000_0000u32.top_bit());
    assert!(!0x7fff_ffffu32.top_bit());
}

#[test]
fn mix_replaces_only_the_selected_span() {
    let old = 0xaabb_ccdd;
    assert_eq!(mix_u32(old, 0x1122, 0), 0xaabb_1122);
    assert_eq!(mix_u32(old, 0x1122_3344, 1), 0x1122_3344);
    assert_eq!(mix_u32(old, 0x11, 2), 0xaabb_cc11);
    assert_eq!(mix_u32(old, 0x11, 3), 0xaabb_11dd);
}
