use segcpu::regval::{Exception, FlagUpdate, RegSize, RegVal};
use segcpu::utils::NumSplit;

#[test]
fn add_sub() {
    let lhs = RegVal::Byte(20);
    let rhs = RegVal::Byte(30);
    let res = RegVal::Byte(50);
    assert_eq!(lhs.add(rhs, false), Some((res, FlagUpdate::new(false, false, res))));

    let lhs = RegVal::Byte(20);
    let rhs = RegVal::Byte(30);
    let res = RegVal::Byte(51);
    assert_eq!(lhs.add(rhs, true), Some((res, FlagUpdate::new(false, false, res))));

    let lhs = RegVal::Byte(30);
    let rhs = RegVal::Byte(-20i8 as u8);
    let res = RegVal::Byte(10);
    assert_eq!(lhs.add(rhs, false), Some((RegVal::Byte(10), FlagUpdate::new(true, false, res))));
    let lhs = RegVal::Byte(20);
    let rhs = RegVal::Byte(-30i8 as u8);
    let res = RegVal::Byte(-10i8 as u8);
    assert_eq!(
        lhs.add(rhs, false),
        Some((RegVal::Byte(-10i8 as u8), FlagUpdate::new(false, true, res)))
    );

    let lhs = RegVal::Byte(30);
    let rhs = RegVal::Byte(20);
    let res = RegVal::Byte(10);
    assert_eq!(lhs.sub(rhs, true), Some((RegVal::Byte(10), FlagUpdate::new(true, false, res))));
}

#[test]
fn mul() {
    let lhs = RegVal::Byte(-0x12i8 as u8);
    let rhs = RegVal::Byte(0x34);
    assert_eq!(
        lhs.imul(rhs),
        Some((
            (RegVal::Byte(0x58), RegVal::Byte(0xfc)),
            FlagUpdate { carry: false, zero: false, negative: true, overflow: true }
        ))
    );
}

#[test]
fn div() {
    let lhs_lo = RegVal::Byte(0x34);
    let lhs_hi = RegVal::Byte(0x12);
    let rhs = RegVal::Byte(0x56);
    let div_res = lhs_lo.div(lhs_hi, rhs);
    let correct = Some((
        (RegVal::Byte(0x36), RegVal::Byte(0x10)),
        FlagUpdate { carry: false, overflow: false, zero: false, negative: false },
    ));
    assert_eq!(div_res, correct);

    let (lo, hi) = (-0x1234i16 as u16).half_split();
    let lhs_lo: RegVal = lo.into();
    let lhs_hi = hi.into();
    let rhs = RegVal::Byte(0x56);
    let div_res = lhs_lo.idiv(lhs_hi, rhs);
    let correct = Some((
        (RegVal::Byte(0xca), RegVal::Byte(0xf0)),
        FlagUpdate { carry: false, overflow: false, zero: false, negative: true },
    ));
    assert_eq!(div_res, correct)
}

#[test]
fn extend() {
    let v = RegVal::Word(-10i16 as u16);
    assert_eq!(v.sign_extend(RegSize::Dword), Ok(RegVal::Dword(-10i32 as u32)));
}

#[test]
fn extend_rejects_narrowing() {
    let v = RegVal::Word(0x1234);
    assert_eq!(v.sign_extend(RegSize::Byte), Err(Exception::InvalidOperation));
    assert_eq!(v.zero_extend(RegSize::Byte), Err(Exception::InvalidOperation));
    let d = RegVal::Dword(5);
    assert_eq!(d.zero_extend(RegSize::Word), Err(Exception::InvalidOperation));
}

#[test]
fn zero_extension_follows_destination_width() {
    assert_eq!(RegVal::Byte(0xff).zero_extend(RegSize::Dword), Ok(RegVal::Dword(0xff)));
    assert_eq!(RegVal::Byte(0xff).zero_extend(RegSize::Word), Ok(RegVal::Word(0xff)));
    assert_eq!(RegVal::Word(0x8000).zero_extend(RegSize::Dword), Ok(RegVal::Dword(0x8000)));
    assert_eq!(RegVal::Byte(0x80).sign_extend(RegSize::Word), Ok(RegVal::Word(0xff80)));
}

#[test]
fn mixed_width_operands_are_refused() {
    assert_eq!(RegVal::Byte(1).add(RegVal::Word(2), false), None);
    assert_eq!(RegVal::Word(1).sub(RegVal::Dword(2), true), None);
    assert_eq!(RegVal::Dword(1).mul(RegVal::Byte(2)), None);
    assert_eq!(RegVal::Byte(1).imul(RegVal::Word(2)), None);
    assert_eq!(RegVal::Byte(1).div(RegVal::Byte(0), RegVal::Word(2)), None);
}

#[test]
fn divide_by_zero_is_absent() {
    assert_eq!(RegVal::Byte(5).div(RegVal::Byte(0), RegVal::Byte(0)), None);
    assert_eq!(RegVal::Word(5).idiv(RegVal::Word(0), RegVal::Word(0)), None);
}

#[test]
fn idiv_most_negative_by_minus_one_is_absent() {
    // the only quotient that cannot be represented in the double width
    let res = RegVal::Byte(0x00).idiv(RegVal::Byte(0x80), RegVal::Byte(0xff));
    assert_eq!(res, None);
}

#[test]
fn add_wraps_and_sets_carry_and_zero() {
    let lhs = RegVal::Word(0xffff);
    let rhs = RegVal::Word(0x0001);
    let res = RegVal::Word(0x0000);
    let (val, fl) = lhs.add(rhs, false).unwrap();
    assert_eq!(val, res);
    assert!(fl.carry);
    assert!(fl.zero);
    assert!(!fl.negative);
}

#[test]
fn sub_borrow_clears_carry() {
    // 5 - 10 borrows: the carry flag out is the complemented borrow
    let (val, fl) = RegVal::Byte(5).sub(RegVal::Byte(10), true).unwrap();
    assert_eq!(val, RegVal::Byte(0xfb));
    assert!(!fl.carry);
    assert!(fl.negative);
}

#[test]
fn mul_flags_follow_the_high_half() {
    let ((lo, hi), fl) = RegVal::Word(0x0100).mul(RegVal::Word(0x0100)).unwrap();
    assert_eq!((lo, hi), (RegVal::Word(0x0000), RegVal::Word(0x0001)));
    assert!(fl.overflow);
    assert!(!fl.zero);
    assert!(!fl.negative);
    assert!(!fl.carry);

    let ((lo, hi), fl) = RegVal::Byte(7).mul(RegVal::Byte(11)).unwrap();
    assert_eq!((lo, hi), (RegVal::Byte(77), RegVal::Byte(0)));
    assert!(!fl.overflow);
    assert!(!fl.zero);
}

#[test]
fn flag_update_rewrites_only_the_low_bits() {
    let fl = FlagUpdate { carry: true, negative: false, overflow: true, zero: false };
    assert_eq!(fl.update_reg(0xffff_ff30), 0xffff_ff35);
    let fl = FlagUpdate { carry: false, negative: true, overflow: false, zero: true };
    assert_eq!(fl.update_reg(0x0000_000f), 0x0000_000a);
}

#[test]
fn payload_views() {
    assert_eq!(RegVal::from_u32(0x1234_5678, 0), RegVal::Word(0x5678));
    assert_eq!(RegVal::from_u32(0x1234_5678, 1), RegVal::Dword(0x1234_5678));
    assert_eq!(RegVal::from_u32(0x1234_5678, 2), RegVal::Byte(0x78));
    assert_eq!(RegVal::from_u32(0x1234_5678, 3), RegVal::Byte(0x56));
    assert_eq!(RegVal::Word(0x8000).to_u32(), 0x8000);
    assert!(RegVal::Word(0x8000).is_negative());
    assert!(!RegVal::Word(0x7fff).is_negative());
    assert!(RegVal::Dword(0).is_zero());
    assert_eq!(RegVal::Byte(7).unwrap_u8(), Some(7));
    assert_eq!(RegVal::Byte(7).unwrap_u16(), None);
    assert_eq!(RegVal::Dword(7).unwrap_u32(), Some(7));
}

#[test]
fn sign_extension_round_trips_through_truncation() {
    // widen, then keep only the low byte again: the original value comes back
    let v = RegVal::Byte(0xf6);
    let wide = v.sign_extend(RegSize::Dword).unwrap();
    assert_eq!(wide, RegVal::Dword(0xffff_fff6));
    assert_eq!(wide.to_u32() % 0x100, 0xf6);
    let w = RegVal::Word(0x8001);
    let wide = w.sign_extend(RegSize::Dword).unwrap();
    assert_eq!(wide.to_u32() % 0x10000, 0x8001);
}

#[test]
fn multiply_then_divide_returns_the_multiplicand() {
    let a = RegVal::Word(0xbeef);
    let b = RegVal::Word(0x0123);
    let ((lo, hi), _) = a.mul(b).unwrap();
    let ((quot, rem), _) = lo.div(hi, b).unwrap();
    assert_eq!(quot, a);
    assert_eq!(rem, RegVal::Word(0));

    let a = RegVal::Byte(0xff);
    let b = RegVal::Byte(0xff);
    let ((lo, hi), _) = a.mul(b).unwrap();
    let ((quot, rem), _) = lo.div(hi, b).unwrap();
    assert_eq!(quot, a);
    assert_eq!(rem, RegVal::Byte(0));
}
