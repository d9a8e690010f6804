use lib::{Choice, ConditionallyNegatable, ConditionallySelectable};

#[test]
fn conditional_select_doc_example() {
    let x: u8 = 13;
    let y: u8 = 42;
    let z = u8::conditional_select(&x, &y, 0.into());
    assert_eq!(z, x);
    let z = u8::conditional_select(&x, &y, 1.into());
    assert_eq!(z, y);
}

#[test]
fn conditional_assign_doc_example() {
    let mut x: u8 = 13;
    let y: u8 = 42;
    x.conditional_assign(&y, 0.into());
    assert_eq!(x, 13);
    x.conditional_assign(&y, 1.into());
    assert_eq!(x, 42);
}

#[test]
fn conditional_swap_doc_example() {
    let mut x: u8 = 13;
    let mut y: u8 = 42;
    u8::conditional_swap(&mut x, &mut y, 0.into());
    assert_eq!(x, 13);
    assert_eq!(y, 42);
    u8::conditional_swap(&mut x, &mut y, 1.into());
    assert_eq!(x, 42);
    assert_eq!(y, 13);
}

#[test]
fn conditional_select_all_widths() {
    assert_eq!(i8::conditional_select(&-3, &100, Choice::from(1)), 100);
    assert_eq!(i8::conditional_select(&-3, &100, Choice::from(0)), -3);
    assert_eq!(u16::conditional_select(&0xffff, &1, Choice::from(1)), 1);
    assert_eq!(i16::conditional_select(&i16::MIN, &1, Choice::from(0)), i16::MIN);
    assert_eq!(u32::conditional_select(&7, &u32::MAX, Choice::from(1)), u32::MAX);
    assert_eq!(i32::conditional_select(&-7, &7, Choice::from(0)), -7);
    assert_eq!(u64::conditional_select(&1, &u64::MAX, Choice::from(1)), u64::MAX);
    assert_eq!(i64::conditional_select(&i64::MIN, &i64::MAX, Choice::from(1)), i64::MAX);
    assert_eq!(u128::conditional_select(&u128::MAX, &3, Choice::from(0)), u128::MAX);
    assert_eq!(i128::conditional_select(&-1, &i128::MIN, Choice::from(1)), i128::MIN);
}

#[test]
fn conditional_select_of_choices() {
    let t = Choice::from(1u8);
    let f = Choice::from(0u8);
    assert_eq!(Choice::conditional_select(&f, &t, t).unwrap_u8(), 1);
    assert_eq!(Choice::conditional_select(&f, &t, f).unwrap_u8(), 0);
    let mut c = f;
    c.conditional_assign(&t, t);
    assert_eq!(c.unwrap_u8(), 1);
}

#[test]
fn conditional_swap_of_choices_uses_default_methods() {
    let mut a = Choice::from(0u8);
    let mut b = Choice::from(1u8);
    Choice::conditional_swap(&mut a, &mut b, Choice::from(1u8));
    assert_eq!((a.unwrap_u8(), b.unwrap_u8()), (1, 0));
    Choice::conditional_swap(&mut a, &mut b, Choice::from(0u8));
    assert_eq!((a.unwrap_u8(), b.unwrap_u8()), (1, 0));
}

#[test]
fn swap_twice_restores_values() {
    for c in 0u8..2 {
        let mut a: i64 = -9;
        let mut b: i64 = 1234;
        i64::conditional_swap(&mut a, &mut b, c.into());
        i64::conditional_swap(&mut a, &mut b, c.into());
        assert_eq!((a, b), (-9, 1234));
    }
}

#[test]
fn select_with_negated_choice_swaps_arguments() {
    for c in 0u8..2 {
        let choice = Choice::from(c);
        assert_eq!(
            u32::conditional_select(&5, &6, choice),
            u32::conditional_select(&6, &5, !choice)
        );
    }
}

#[test]
fn conditional_negate_signed() {
    let mut x: i8 = 5;
    x.conditional_negate(Choice::from(0));
    assert_eq!(x, 5);
    x.conditional_negate(Choice::from(1));
    assert_eq!(x, -5);
    let mut y: i64 = -77;
    y.conditional_negate(Choice::from(1));
    assert_eq!(y, 77);
    let mut z: i128 = 0;
    z.conditional_negate(Choice::from(1));
    assert_eq!(z, 0);
}


#[test]
fn conditional_negate_minimum_wraps_or_stays() {
    let mut m: i8 = i8::MIN;
    m.conditional_negate(Choice::from(0));
    assert_eq!(m, i8::MIN);
    m.conditional_negate(Choice::from(1));
    assert_eq!(m, i8::MIN);
    let mut n: i16 = 300;
    n.conditional_negate(Choice::from(1));
    n.conditional_negate(Choice::from(1));
    assert_eq!(n, 300);
    let mut k: i32 = 5;
    k.conditional_negate(Choice::from(1u8));
    assert_eq!(k, -5);
}
