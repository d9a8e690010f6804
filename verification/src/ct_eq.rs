use vstd::prelude::*;

use crate::choice::{bit_of, Choice};

verus! {

/// An `Eq`-like trait that produces a `Choice` instead of a `bool`.
pub trait ConstantTimeEq {
    /// When two values count as equal for `ct_eq`.
    spec fn ct_eq_spec(&self, other: &Self) -> bool;

    /// Determine if two items are equal: `1` if they are, `0` if not.
    ///
    /// The `ct_eq` function should execute in constant time.
    fn ct_eq(&self, other: &Self) -> (r: Choice)
        ensures
            r@ == bit_of(self.ct_eq_spec(other)),
    ;
}

impl<T: ConstantTimeEq> ConstantTimeEq for [T] {
    /// Two slices are equal when they have the same length and equal items
    /// at every position.
    open spec fn ct_eq_spec(&self, other: &[T]) -> bool {
        &&& self@.len() == other@.len()
        &&& forall|i: int| 0 <= i < self@.len() ==> (#[trigger] self@[i]).ct_eq_spec(&other@[i])
    }

    /// Check whether two slices of `ConstantTimeEq` types are equal.
    ///
    /// This function short-circuits if the lengths of the input slices are
    /// different.  Otherwise, it should execute in time independent of the
    /// slice contents.
    fn ct_eq(&self, _rhs: &[T]) -> (r: Choice)
        ensures
            r@ == 1 <==> (self@.len() == _rhs@.len() && forall|i: int|
                0 <= i < self@.len() ==> (#[trigger] self@[i]).ct_eq_spec(&_rhs@[i])),
            r@ == 0 || r@ == 1,
    {
        let len = self.len();

        // Short-circuit on the *lengths* of the slices, not their contents.
        if len != _rhs.len() {
            return Choice::from(0);
        }

        // This loop shouldn't be shortcircuitable, since the compiler
        // shouldn't be able to reason about the value of the `u8`
        // unwrapped from the `ct_eq` result.
        let mut x = 1u8;
        let mut i: usize = 0;
        while i < len
            invariant
                len == self@.len(),
                len == _rhs@.len(),
                i <= len,
                x == bit_of(forall|j: int| 0 <= j < i ==> (#[trigger] self@[j]).ct_eq_spec(&_rhs@[j])),
            decreases len - i,
        {
            let e = self[i].ct_eq(&_rhs[i]).unwrap_u8();
            proof {
                crate::choice::lemma_bit_ops(x, e);
                assert((forall|j: int| 0 <= j < i + 1 ==> (#[trigger] self@[j]).ct_eq_spec(&_rhs@[j]))
                    <==> ((forall|j: int| 0 <= j < i ==> (#[trigger] self@[j]).ct_eq_spec(&_rhs@[j]))
                        && self@[i as int].ct_eq_spec(&_rhs@[i as int])));
            }
            x &= e;
            i += 1;
        }

        x.into()
    }
}

/// Trusted: std's `u8::wrapping_neg`, which its documentation describes as
/// wrapping (modular) negation: the result is `-x` taken modulo `2^BITS`.
/// Nothing here proves this of std's code.
pub assume_specification[<u8>::wrapping_neg](x: u8) -> (r: u8)
    ensures
        r == (0 - x) as u8,
;

/// `x | -x` has its high bit set exactly when `x` is not zero.
proof fn lemma_ct_eq_u8(a: u8, b: u8, x: u8, neg: u8, y: u8)
    by (bit_vector)
    requires
        x == a ^ b,
        neg == (0 - x) as u8,
        y == (x | neg) >> (u8::BITS - 1),
    ensures
        (y ^ 1) == (if a == b { 1u8 } else { 0u8 }),
{
}

/// Casting between the signed and the unsigned type of one width is one-to-one.
proof fn lemma_cast_injective_i8(a: i8, b: i8)
    by (bit_vector)
    ensures
        (a as u8 == b as u8) == (a == b),
{
}

impl ConstantTimeEq for u8 {
    open spec fn ct_eq_spec(&self, other: &u8) -> bool {
        *self == *other
    }

    fn ct_eq(&self, other: &u8) -> (r: Choice) {
        // x == 0 if and only if self == other
        let x: u8 = *self ^ *other;

        // If x == 0, then x and -x are both equal to zero;
        // otherwise, one or both will have its high bit set.
        let neg: u8 = x.wrapping_neg();
        let y: u8 = (x | neg) >> (8 - 1);
        proof {
            lemma_ct_eq_u8(*self, *other, x, neg, y);
        }

        // Result is the opposite of the high bit (now shifted to low).
        ((y ^ (1 as u8)) as u8).into()
    }
}

impl ConstantTimeEq for i8 {
    open spec fn ct_eq_spec(&self, other: &i8) -> bool {
        *self == *other
    }

    fn ct_eq(&self, other: &i8) -> (r: Choice) {
        proof {
            lemma_cast_injective_i8(*self, *other);
        }
        // Bitcast to unsigned and call that implementation.
        (*self as u8).ct_eq(&(*other as u8))
    }
}

/// Trusted: std's `u16::wrapping_neg`, which its documentation describes as
/// wrapping (modular) negation: the result is `-x` taken modulo `2^BITS`.
/// Nothing here proves this of std's code.
pub assume_specification[<u16>::wrapping_neg](x: u16) -> (r: u16)
    ensures
        r == (0 - x) as u16,
;

/// `x | -x` has its high bit set exactly when `x` is not zero.
proof fn lemma_ct_eq_u16(a: u16, b: u16, x: u16, neg: u16, y: u16)
    by (bit_vector)
    requires
        x == a ^ b,
        neg == (0 - x) as u16,
        y == (x | neg) >> (u16::BITS - 1),
    ensures
        (y ^ 1) == (if a == b { 1u16 } else { 0u16 }),
{
}

/// Casting between the signed and the unsigned type of one width is one-to-one.
proof fn lemma_cast_injective_i16(a: i16, b: i16)
    by (bit_vector)
    ensures
        (a as u16 == b as u16) == (a == b),
{
}

impl ConstantTimeEq for u16 {
    open spec fn ct_eq_spec(&self, other: &u16) -> bool {
        *self == *other
    }

    fn ct_eq(&self, other: &u16) -> (r: Choice) {
        // x == 0 if and only if self == other
        let x: u16 = *self ^ *other;

        // If x == 0, then x and -x are both equal to zero;
        // otherwise, one or both will have its high bit set.
        let neg: u16 = x.wrapping_neg();
        let y: u16 = (x | neg) >> (16 - 1);
        proof {
            lemma_ct_eq_u16(*self, *other, x, neg, y);
        }

        // Result is the opposite of the high bit (now shifted to low).
        ((y ^ (1 as u16)) as u8).into()
    }
}

impl ConstantTimeEq for i16 {
    open spec fn ct_eq_spec(&self, other: &i16) -> bool {
        *self == *other
    }

    fn ct_eq(&self, other: &i16) -> (r: Choice) {
        proof {
            lemma_cast_injective_i16(*self, *other);
        }
        // Bitcast to unsigned and call that implementation.
        (*self as u16).ct_eq(&(*other as u16))
    }
}

/// Trusted: std's `u32::wrapping_neg`, which its documentation describes as
/// wrapping (modular) negation: the result is `-x` taken modulo `2^BITS`.
/// Nothing here proves this of std's code.
pub assume_specification[<u32>::wrapping_neg](x: u32) -> (r: u32)
    ensures
        r == (0 - x) as u32,
;

/// `x | -x` has its high bit set exactly when `x` is not zero.
proof fn lemma_ct_eq_u32(a: u32, b: u32, x: u32, neg: u32, y: u32)
    by (bit_vector)
    requires
        x == a ^ b,
        neg == (0 - x) as u32,
        y == (x | neg) >> (u32::BITS - 1),
    ensures
        (y ^ 1) == (if a == b { 1u32 } else { 0u32 }),
{
}

/// Casting between the signed and the unsigned type of one width is one-to-one.
proof fn lemma_cast_injective_i32(a: i32, b: i32)
    by (bit_vector)
    ensures
        (a as u32 == b as u32) == (a == b),
{
}

impl ConstantTimeEq for u32 {
    open spec fn ct_eq_spec(&self, other: &u32) -> bool {
        *self == *other
    }

    fn ct_eq(&self, other: &u32) -> (r: Choice) {
        // x == 0 if and only if self == other
        let x: u32 = *self ^ *other;

        // If x == 0, then x and -x are both equal to zero;
        // otherwise, one or both will have its high bit set.
        let neg: u32 = x.wrapping_neg();
        let y: u32 = (x | neg) >> (32 - 1);
        proof {
            lemma_ct_eq_u32(*self, *other, x, neg, y);
        }

        // Result is the opposite of the high bit (now shifted to low).
        ((y ^ (1 as u32)) as u8).into()
    }
}

impl ConstantTimeEq for i32 {
    open spec fn ct_eq_spec(&self, other: &i32) -> bool {
        *self == *other
    }

    fn ct_eq(&self, other: &i32) -> (r: Choice) {
        proof {
            lemma_cast_injective_i32(*self, *other);
        }
        // Bitcast to unsigned and call that implementation.
        (*self as u32).ct_eq(&(*other as u32))
    }
}

/// Trusted: std's `u64::wrapping_neg`, which its documentation describes as
/// wrapping (modular) negation: the result is `-x` taken modulo `2^BITS`.
/// Nothing here proves this of std's code.
pub assume_specification[<u64>::wrapping_neg](x: u64) -> (r: u64)
    ensures
        r == (0 - x) as u64,
;

/// `x | -x` has its high bit set exactly when `x` is not zero.
proof fn lemma_ct_eq_u64(a: u64, b: u64, x: u64, neg: u64, y: u64)
    by (bit_vector)
    requires
        x == a ^ b,
        neg == (0 - x) as u64,
        y == (x | neg) >> (u64::BITS - 1),
    ensures
        (y ^ 1) == (if a == b { 1u64 } else { 0u64 }),
{
}

/// Casting between the signed and the unsigned type of one width is one-to-one.
proof fn lemma_cast_injective_i64(a: i64, b: i64)
    by (bit_vector)
    ensures
        (a as u64 == b as u64) == (a == b),
{
}

impl ConstantTimeEq for u64 {
    open spec fn ct_eq_spec(&self, other: &u64) -> bool {
        *self == *other
    }

    fn ct_eq(&self, other: &u64) -> (r: Choice) {
        // x == 0 if and only if self == other
        let x: u64 = *self ^ *other;

        // If x == 0, then x and -x are both equal to zero;
        // otherwise, one or both will have its high bit set.
        let neg: u64 = x.wrapping_neg();
        let y: u64 = (x | neg) >> (64 - 1);
        proof {
            lemma_ct_eq_u64(*self, *other, x, neg, y);
        }

        // Result is the opposite of the high bit (now shifted to low).
        ((y ^ (1 as u64)) as u8).into()
    }
}

impl ConstantTimeEq for i64 {
    open spec fn ct_eq_spec(&self, other: &i64) -> bool {
        *self == *other
    }

    fn ct_eq(&self, other: &i64) -> (r: Choice) {
        proof {
            lemma_cast_injective_i64(*self, *other);
        }
        // Bitcast to unsigned and call that implementation.
        (*self as u64).ct_eq(&(*other as u64))
    }
}

/// Trusted: std's `u128::wrapping_neg`, which its documentation describes as
/// wrapping (modular) negation: the result is `-x` taken modulo `2^BITS`.
/// Nothing here proves this of std's code.
pub assume_specification[<u128>::wrapping_neg](x: u128) -> (r: u128)
    ensures
        r == (0 - x) as u128,
;

/// `x | -x` has its high bit set exactly when `x` is not zero.
proof fn lemma_ct_eq_u128(a: u128, b: u128, x: u128, neg: u128, y: u128)
    by (bit_vector)
    requires
        x == a ^ b,
        neg == (0 - x) as u128,
        y == (x | neg) >> (u128::BITS - 1),
    ensures
        (y ^ 1) == (if a == b { 1u128 } else { 0u128 }),
{
}

/// Casting between the signed and the unsigned type of one width is one-to-one.
proof fn lemma_cast_injective_i128(a: i128, b: i128)
    by (bit_vector)
    ensures
        (a as u128 == b as u128) == (a == b),
{
}

impl ConstantTimeEq for u128 {
    open spec fn ct_eq_spec(&self, other: &u128) -> bool {
        *self == *other
    }

    fn ct_eq(&self, other: &u128) -> (r: Choice) {
        // x == 0 if and only if self == other
        let x: u128 = *self ^ *other;

        // If x == 0, then x and -x are both equal to zero;
        // otherwise, one or both will have its high bit set.
        let neg: u128 = x.wrapping_neg();
        let y: u128 = (x | neg) >> (128 - 1);
        proof {
            lemma_ct_eq_u128(*self, *other, x, neg, y);
        }

        // Result is the opposite of the high bit (now shifted to low).
        ((y ^ (1 as u128)) as u8).into()
    }
}

impl ConstantTimeEq for i128 {
    open spec fn ct_eq_spec(&self, other: &i128) -> bool {
        *self == *other
    }

    fn ct_eq(&self, other: &i128) -> (r: Choice) {
        proof {
            lemma_cast_injective_i128(*self, *other);
        }
        // Bitcast to unsigned and call that implementation.
        (*self as u128).ct_eq(&(*other as u128))
    }
}

/// Trusted: std's `usize::wrapping_neg`, which its documentation describes as
/// wrapping (modular) negation: the result is `-x` taken modulo `2^BITS`.
/// Nothing here proves this of std's code.
pub assume_specification[<usize>::wrapping_neg](x: usize) -> (r: usize)
    ensures
        r == (0 - x) as usize,
;

/// `x | -x` has its high bit set exactly when `x` is not zero.
proof fn lemma_ct_eq_usize(a: usize, b: usize, x: usize, neg: usize, y: usize)
    by (bit_vector)
    requires
        x == a ^ b,
        neg == (0 - x) as usize,
        y == (x | neg) >> ((usize::BITS - 1) as u32),
    ensures
        (y ^ 1) == (if a == b { 1usize } else { 0usize }),
{
}

/// Casting between the signed and the unsigned type of one width is one-to-one.
proof fn lemma_cast_injective_isize(a: isize, b: isize)
    by (bit_vector)
    ensures
        (a as usize == b as usize) == (a == b),
{
}

impl ConstantTimeEq for usize {
    open spec fn ct_eq_spec(&self, other: &usize) -> bool {
        *self == *other
    }

    fn ct_eq(&self, other: &usize) -> (r: Choice) {
        // x == 0 if and only if self == other
        let x: usize = *self ^ *other;

        // If x == 0, then x and -x are both equal to zero;
        // otherwise, one or both will have its high bit set.
        let neg: usize = x.wrapping_neg();
        let y: usize = (x | neg) >> (core::mem::size_of::<usize>() * 8 - 1);
        proof {
            lemma_ct_eq_usize(*self, *other, x, neg, y);
        }

        // Result is the opposite of the high bit (now shifted to low).
        ((y ^ (1 as usize)) as u8).into()
    }
}

impl ConstantTimeEq for isize {
    open spec fn ct_eq_spec(&self, other: &isize) -> bool {
        *self == *other
    }

    fn ct_eq(&self, other: &isize) -> (r: Choice) {
        proof {
            lemma_cast_injective_isize(*self, *other);
        }
        // Bitcast to unsigned and call that implementation.
        (*self as usize).ct_eq(&(*other as usize))
    }
}

/// `bit_of` is `1` for true and `0` for false.
pub proof fn law_bit_of()
    ensures
        bit_of(true) == 1,
        bit_of(false) == 0,
{
}

/// Two slices count as equal exactly when they have the same length and the
/// items at every index count as equal.
pub proof fn law_slice_ct_eq_itemwise<T: ConstantTimeEq>(a: &[T], b: &[T])
    ensures
        a.ct_eq_spec(b) <==> (a@.len() == b@.len() && forall|i: int|
            0 <= i < a@.len() ==> (#[trigger] a@[i]).ct_eq_spec(&b@[i])),
        a@.len() != b@.len() ==> !a.ct_eq_spec(b),
        forall|i: int| 0 <= i < a@.len() && i < b@.len() && !(#[trigger] a@[i]).ct_eq_spec(&b@[i])
            ==> !a.ct_eq_spec(b),
{
}

/// Byte slices count as equal exactly when they hold the same bytes.
pub proof fn law_byte_slice_ct_eq(a: &[u8], b: &[u8])
    ensures
        a.ct_eq_spec(b) == (a@ == b@),
{
    if a.ct_eq_spec(b) {
        assert(a@ =~= b@);
    }
}

/// Two `u8` values count as equal exactly when they are equal.
pub proof fn law_ct_eq_u8(a: u8, b: u8)
    ensures
        a.ct_eq_spec(&b) == (a == b),
{
}

/// Two `u16` values count as equal exactly when they are equal.
pub proof fn law_ct_eq_u16(a: u16, b: u16)
    ensures
        a.ct_eq_spec(&b) == (a == b),
{
}

/// Two `u32` values count as equal exactly when they are equal.
pub proof fn law_ct_eq_u32(a: u32, b: u32)
    ensures
        a.ct_eq_spec(&b) == (a == b),
{
}

/// Two `u64` values count as equal exactly when they are equal.
pub proof fn law_ct_eq_u64(a: u64, b: u64)
    ensures
        a.ct_eq_spec(&b) == (a == b),
{
}

/// Two `u128` values count as equal exactly when they are equal.
pub proof fn law_ct_eq_u128(a: u128, b: u128)
    ensures
        a.ct_eq_spec(&b) == (a == b),
{
}

/// Two `usize` values count as equal exactly when they are equal.
pub proof fn law_ct_eq_usize(a: usize, b: usize)
    ensures
        a.ct_eq_spec(&b) == (a == b),
{
}

/// Two `i8` values count as equal exactly when they are equal.
pub proof fn law_ct_eq_i8(a: i8, b: i8)
    ensures
        a.ct_eq_spec(&b) == (a == b),
{
}

/// Two `i16` values count as equal exactly when they are equal.
pub proof fn law_ct_eq_i16(a: i16, b: i16)
    ensures
        a.ct_eq_spec(&b) == (a == b),
{
}

/// Two `i32` values count as equal exactly when they are equal.
pub proof fn law_ct_eq_i32(a: i32, b: i32)
    ensures
        a.ct_eq_spec(&b) == (a == b),
{
}

/// Two `i64` values count as equal exactly when they are equal.
pub proof fn law_ct_eq_i64(a: i64, b: i64)
    ensures
        a.ct_eq_spec(&b) == (a == b),
{
}

/// Two `i128` values count as equal exactly when they are equal.
pub proof fn law_ct_eq_i128(a: i128, b: i128)
    ensures
        a.ct_eq_spec(&b) == (a == b),
{
}

/// Two `isize` values count as equal exactly when they are equal.
pub proof fn law_ct_eq_isize(a: isize, b: isize)
    ensures
        a.ct_eq_spec(&b) == (a == b),
{
}

} // verus!
