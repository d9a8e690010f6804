use lib::{Choice, ConditionallySelectable, ConstantTimeEq, CtOption};

fn some<T>(v: T) -> CtOption<T> {
    CtOption::new(v, Choice::from(1u8))
}

fn none<T>(v: T) -> CtOption<T> {
    CtOption::new(v, Choice::from(0u8))
}

#[test]
fn ct_option_is_some_is_none() {
    assert_eq!(some(3u8).is_some().unwrap_u8(), 1);
    assert_eq!(some(3u8).is_none().unwrap_u8(), 0);
    assert_eq!(none(3u8).is_some().unwrap_u8(), 0);
    assert_eq!(none(3u8).is_none().unwrap_u8(), 1);
}

#[test]
fn ct_option_unwrap_some() {
    assert_eq!(some(42u32).unwrap(), 42);
}

#[test]
fn ct_option_unwrap_or() {
    assert_eq!(some(42u32).unwrap_or(7), 42);
    assert_eq!(none(42u32).unwrap_or(7), 7);
}

#[test]
fn ct_option_unwrap_or_else() {
    assert_eq!(some(42u32).unwrap_or_else(|| 9), 42);
    assert_eq!(none(42u32).unwrap_or_else(|| 9), 9);
}

#[test]
fn ct_option_map() {
    let m = some(10u8).map(|v| v / 2);
    assert_eq!(m.is_some().unwrap_u8(), 1);
    assert_eq!(m.unwrap(), 5);
    let n = none(10u8).map(|v| v / 2);
    assert_eq!(n.is_some().unwrap_u8(), 0);
    assert_eq!(n.unwrap_or(99), 99);
}

#[test]
fn ct_option_map_gets_default_when_none() {
    let n = none(200u8).map(|v| u16::from(v) + 1);
    assert_eq!(n.is_none().unwrap_u8(), 1);
    let s = some(200u8).map(|v| u16::from(v) + 1);
    assert_eq!(s.unwrap(), 201);
}

#[test]
fn ct_option_and_then() {
    let halve = |v: u8| CtOption::new(v / 2, Choice::from((v % 2 == 0) as u8));
    let a = some(10u8).and_then(halve);
    assert_eq!(a.is_some().unwrap_u8(), 1);
    assert_eq!(a.unwrap(), 5);
    let b = some(11u8).and_then(halve);
    assert_eq!(b.is_some().unwrap_u8(), 0);
    let c = none(10u8).and_then(halve);
    assert_eq!(c.is_some().unwrap_u8(), 0);
}

#[test]
fn ct_option_conditional_select() {
    let a = some(1u64);
    let b = none(2u64);
    let r = CtOption::conditional_select(&a, &b, Choice::from(0u8));
    assert_eq!(r.is_some().unwrap_u8(), 1);
    assert_eq!(r.unwrap(), 1);
    let r = CtOption::conditional_select(&a, &b, Choice::from(1u8));
    assert_eq!(r.is_some().unwrap_u8(), 0);
    assert_eq!(r.unwrap_or(5), 5);
}

#[test]
fn ct_option_ct_eq() {
    assert_eq!(some(1u8).ct_eq(&some(1u8)).unwrap_u8(), 1);
    assert_eq!(some(1u8).ct_eq(&some(2u8)).unwrap_u8(), 0);
    assert_eq!(some(1u8).ct_eq(&none(1u8)).unwrap_u8(), 0);
    assert_eq!(none(1u8).ct_eq(&some(1u8)).unwrap_u8(), 0);
    // Two `None`s are equal whatever values they hide.
    assert_eq!(none(1u8).ct_eq(&none(2u8)).unwrap_u8(), 1);
}

#[test]
fn ct_option_clone_keeps_presence_and_value() {
    let a = some(vec![1u8, 2]);
    let b = a.clone();
    assert_eq!(b.is_some().unwrap_u8(), 1);
    assert_eq!(b.unwrap(), vec![1u8, 2]);
}

#[test]
fn ct_option_map_none_hands_closure_the_default() {
    let r = none(255u8).map(|x| x + 1);
    assert_eq!(r.is_some().unwrap_u8(), 0);
    assert_eq!(r.unwrap_or(100u8), 100);
}

#[test]
fn ct_option_and_then_none_hands_closure_the_default() {
    let r = none(255u8).and_then(|x| CtOption::new(x + 1, Choice::from(1u8)));
    assert_eq!(r.is_some().unwrap_u8(), 0);
    assert_eq!(r.unwrap_or(9u8), 9);
}

#[test]
fn ct_option_map_composes() {
    let f = |x: u8| u16::from(x) * 3;
    let g = |y: u16| u32::from(y) + 7;
    for c in 0u8..2 {
        let o = CtOption::new(11u8, Choice::from(c));
        let twice = o.map(f).map(g);
        let once = o.map(|x| g(f(x)));
        assert_eq!(twice.is_some().unwrap_u8(), c);
        assert_eq!(once.is_some().unwrap_u8(), c);
        assert_eq!(twice.unwrap_or(0), once.unwrap_or(0));
        if c == 1 {
            assert_eq!(twice.unwrap(), 40);
        }
    }
}
