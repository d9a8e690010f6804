use lib::{Choice, ConstantTimeEq};

#[test]
fn choice_unwrap_u8_gives_stored_byte() {
    assert_eq!(Choice::from(0u8).unwrap_u8(), 0);
    assert_eq!(Choice::from(1u8).unwrap_u8(), 1);
}

#[test]
fn choice_into_bool() {
    assert!(bool::from(Choice::from(1u8)));
    assert!(!bool::from(Choice::from(0u8)));
    let c: Choice = 1u8.into();
    let b: bool = c.into();
    assert!(b);
}

#[test]
fn choice_and_or_xor_not_tables() {
    for a in 0u8..2 {
        for b in 0u8..2 {
            let ca = Choice::from(a);
            let cb = Choice::from(b);
            assert_eq!((ca & cb).unwrap_u8(), a & b);
            assert_eq!((ca | cb).unwrap_u8(), a | b);
            assert_eq!((ca ^ cb).unwrap_u8(), a ^ b);
        }
        assert_eq!((!Choice::from(a)).unwrap_u8(), 1 - a);
    }
}

#[test]
fn choice_assign_operators() {
    let mut c = Choice::from(1u8);
    c &= Choice::from(1u8);
    assert_eq!(c.unwrap_u8(), 1);
    c &= Choice::from(0u8);
    assert_eq!(c.unwrap_u8(), 0);
    c |= Choice::from(1u8);
    assert_eq!(c.unwrap_u8(), 1);
    c ^= Choice::from(1u8);
    assert_eq!(c.unwrap_u8(), 0);
    c ^= Choice::from(1u8);
    assert_eq!(c.unwrap_u8(), 1);
}

#[test]
fn choice_de_morgan_on_all_values() {
    for a in 0u8..2 {
        for b in 0u8..2 {
            let ca = Choice::from(a);
            let cb = Choice::from(b);
            assert_eq!((!(ca & cb)).unwrap_u8(), (!ca | !cb).unwrap_u8());
            assert_eq!((!!ca).unwrap_u8(), a);
        }
    }
}

#[test]
fn choice_roundtrip_through_bool() {
    for x in 0u8..2 {
        assert_eq!(bool::from(Choice::from(x)), x == 1);
        assert_eq!(Choice::from(x).unwrap_u8(), x);
    }
}

#[test]
fn ct_eq_u8_doc_example() {
    let x: u8 = 5;
    let y: u8 = 13;
    assert_eq!(x.ct_eq(&y).unwrap_u8(), 0);
    assert_eq!(x.ct_eq(&x).unwrap_u8(), 1);
}

#[test]
fn ct_eq_slices_doc_example() {
    let a: [u8; 8] = [0, 1, 2, 3, 4, 5, 6, 7];
    let b: [u8; 8] = [0, 1, 2, 3, 0, 1, 2, 3];
    let a_eq_a = a[..].ct_eq(&a[..]);
    let a_eq_b = a[..].ct_eq(&b[..]);
    assert_eq!(a_eq_a.unwrap_u8(), 1);
    assert_eq!(a_eq_b.unwrap_u8(), 0);
}

#[test]
fn ct_eq_slices_of_different_length() {
    let a: [u16; 3] = [1, 2, 3];
    let b: [u16; 2] = [1, 2];
    assert_eq!(a[..].ct_eq(&b[..]).unwrap_u8(), 0);
    let e: [u16; 0] = [];
    assert_eq!(e[..].ct_eq(&e[..]).unwrap_u8(), 1);
}

#[test]
fn ct_eq_all_integer_widths() {
    assert_eq!(0xffffu16.ct_eq(&0xffff).unwrap_u8(), 1);
    assert_eq!(0xffffu16.ct_eq(&0xfffe).unwrap_u8(), 0);
    assert_eq!(7u32.ct_eq(&7).unwrap_u8(), 1);
    assert_eq!(u32::MAX.ct_eq(&0).unwrap_u8(), 0);
    assert_eq!(u64::MAX.ct_eq(&u64::MAX).unwrap_u8(), 1);
    assert_eq!((1u64 << 63).ct_eq(&0).unwrap_u8(), 0);
    assert_eq!(u128::MAX.ct_eq(&u128::MAX).unwrap_u8(), 1);
    assert_eq!(u128::MAX.ct_eq(&(u128::MAX - 1)).unwrap_u8(), 0);
    assert_eq!(usize::MAX.ct_eq(&usize::MAX).unwrap_u8(), 1);
    assert_eq!(0usize.ct_eq(&1).unwrap_u8(), 0);
    assert_eq!((-1i8).ct_eq(&-1).unwrap_u8(), 1);
    assert_eq!((-1i8).ct_eq(&127).unwrap_u8(), 0);
    assert_eq!(i16::MIN.ct_eq(&i16::MIN).unwrap_u8(), 1);
    assert_eq!((-5i32).ct_eq(&5).unwrap_u8(), 0);
    assert_eq!(i64::MIN.ct_eq(&i64::MAX).unwrap_u8(), 0);
    assert_eq!((-3i128).ct_eq(&-3).unwrap_u8(), 1);
    assert_eq!((-3isize).ct_eq(&3).unwrap_u8(), 0);
}

#[test]
fn ct_eq_is_symmetric_on_examples() {
    let values: [i32; 4] = [0, -1, 1, i32::MIN];
    for a in values.iter() {
        for b in values.iter() {
            assert_eq!(a.ct_eq(b).unwrap_u8(), b.ct_eq(a).unwrap_u8());
            assert_eq!(a.ct_eq(b).unwrap_u8() == 1, a == b);
        }
    }
}
