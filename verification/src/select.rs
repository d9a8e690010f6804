use vstd::prelude::*;

use crate::choice::Choice;

verus! {

/// `b` when `choice` is true, `a` otherwise.
pub open spec fn select<T>(a: T, b: T, choice: Choice) -> T {
    if choice.is_true() {
        b
    } else {
        a
    }
}

/// A type which can be conditionally selected in constant time.
///
/// This trait also provides generic implementations of conditional assignment
/// and conditional swaps.
pub trait ConditionallySelectable: Copy {
    /// Select `a` or `b` according to `choice`: `a` if `choice` is `0`, `b` if
    /// it is `1`.
    fn conditional_select(a: &Self, b: &Self, choice: Choice) -> (r: Self)
        requires
            choice.is_valid(),
        ensures
            r == select(*a, *b, choice),
    ;

    /// Conditionally assign `other` to `self`, according to `choice`.
    fn conditional_assign(&mut self, other: &Self, choice: Choice)
        requires
            choice.is_valid(),
        ensures
            *final(self) == select(*old(self), *other, choice),
    {
        *self = Self::conditional_select(self, other, choice);
    }

    /// Conditionally swap `a` and `b` if `choice` is `1`; otherwise, reassign
    /// both unto themselves.
    fn conditional_swap(a: &mut Self, b: &mut Self, choice: Choice)
        requires
            choice.is_valid(),
        ensures
            *final(a) == select(*old(a), *old(b), choice),
            *final(b) == select(*old(b), *old(a), choice),
    {
        let t: Self = *a;
        a.conditional_assign(&*b, choice);
        b.conditional_assign(&t, choice);
    }
}

/// With `mask` all zeros or all ones as `choice` is `0` or `1`, masking the
/// difference `a ^ b` selects between `a` and `b`.
proof fn lemma_mask_select_u8(a: u8, b: u8, c: u8, mask: u8)
    by (bit_vector)
    requires
        c == 0 || c == 1,
        mask == (-(c as i8)) as u8,
    ensures
        a ^ (mask & (a ^ b)) == (if c == 1 { b } else { a }),
        b ^ (mask & (a ^ b)) == (if c == 1 { a } else { b }),
{
}

impl ConditionallySelectable for u8 {
    fn conditional_select(a: &Self, b: &Self, choice: Choice) -> (r: Self) {
        // if choice = 0, mask = (-0) = 0000...0000
        // if choice = 1, mask = (-1) = 1111...1111
        let mask = -(choice.unwrap_u8() as i8) as u8;
        proof {
            lemma_mask_select_u8(*a, *b, choice@, mask);
        }
        *a ^ (mask & (*a ^ *b))
    }

    fn conditional_assign(&mut self, other: &Self, choice: Choice) {
        let mask = -(choice.unwrap_u8() as i8) as u8;
        proof {
            lemma_mask_select_u8(*self, *other, choice@, mask);
        }
        *self ^= mask & (*self ^ *other);
    }

    fn conditional_swap(a: &mut Self, b: &mut Self, choice: Choice) {
        let mask = -(choice.unwrap_u8() as i8) as u8;
        proof {
            lemma_mask_select_u8(*a, *b, choice@, mask);
        }
        let t = mask & (*a ^ *b);
        *a ^= t;
        *b ^= t;
    }
}

/// With `mask` all zeros or all ones as `choice` is `0` or `1`, masking the
/// difference `a ^ b` selects between `a` and `b`.
proof fn lemma_mask_select_i8(a: i8, b: i8, c: u8, mask: i8)
    by (bit_vector)
    requires
        c == 0 || c == 1,
        mask == (-(c as i8)) as i8,
    ensures
        a ^ (mask & (a ^ b)) == (if c == 1 { b } else { a }),
        b ^ (mask & (a ^ b)) == (if c == 1 { a } else { b }),
{
}

impl ConditionallySelectable for i8 {
    fn conditional_select(a: &Self, b: &Self, choice: Choice) -> (r: Self) {
        // if choice = 0, mask = (-0) = 0000...0000
        // if choice = 1, mask = (-1) = 1111...1111
        let mask = -(choice.unwrap_u8() as i8) as i8;
        proof {
            lemma_mask_select_i8(*a, *b, choice@, mask);
        }
        *a ^ (mask & (*a ^ *b))
    }

    fn conditional_assign(&mut self, other: &Self, choice: Choice) {
        let mask = -(choice.unwrap_u8() as i8) as i8;
        proof {
            lemma_mask_select_i8(*self, *other, choice@, mask);
        }
        *self ^= mask & (*self ^ *other);
    }

    fn conditional_swap(a: &mut Self, b: &mut Self, choice: Choice) {
        let mask = -(choice.unwrap_u8() as i8) as i8;
        proof {
            lemma_mask_select_i8(*a, *b, choice@, mask);
        }
        let t = mask & (*a ^ *b);
        *a ^= t;
        *b ^= t;
    }
}

/// With `mask` all zeros or all ones as `choice` is `0` or `1`, masking the
/// difference `a ^ b` selects between `a` and `b`.
proof fn lemma_mask_select_u16(a: u16, b: u16, c: u8, mask: u16)
    by (bit_vector)
    requires
        c == 0 || c == 1,
        mask == (-(c as i16)) as u16,
    ensures
        a ^ (mask & (a ^ b)) == (if c == 1 { b } else { a }),
        b ^ (mask & (a ^ b)) == (if c == 1 { a } else { b }),
{
}

impl ConditionallySelectable for u16 {
    fn conditional_select(a: &Self, b: &Self, choice: Choice) -> (r: Self) {
        // if choice = 0, mask = (-0) = 0000...0000
        // if choice = 1, mask = (-1) = 1111...1111
        let mask = -(choice.unwrap_u8() as i16) as u16;
        proof {
            lemma_mask_select_u16(*a, *b, choice@, mask);
        }
        *a ^ (mask & (*a ^ *b))
    }

    fn conditional_assign(&mut self, other: &Self, choice: Choice) {
        let mask = -(choice.unwrap_u8() as i16) as u16;
        proof {
            lemma_mask_select_u16(*self, *other, choice@, mask);
        }
        *self ^= mask & (*self ^ *other);
    }

    fn conditional_swap(a: &mut Self, b: &mut Self, choice: Choice) {
        let mask = -(choice.unwrap_u8() as i16) as u16;
        proof {
            lemma_mask_select_u16(*a, *b, choice@, mask);
        }
        let t = mask & (*a ^ *b);
        *a ^= t;
        *b ^= t;
    }
}

/// With `mask` all zeros or all ones as `choice` is `0` or `1`, masking the
/// difference `a ^ b` selects between `a` and `b`.
proof fn lemma_mask_select_i16(a: i16, b: i16, c: u8, mask: i16)
    by (bit_vector)
    requires
        c == 0 || c == 1,
        mask == (-(c as i16)) as i16,
    ensures
        a ^ (mask & (a ^ b)) == (if c == 1 { b } else { a }),
        b ^ (mask & (a ^ b)) == (if c == 1 { a } else { b }),
{
}

impl ConditionallySelectable for i16 {
    fn conditional_select(a: &Self, b: &Self, choice: Choice) -> (r: Self) {
        // if choice = 0, mask = (-0) = 0000...0000
        // if choice = 1, mask = (-1) = 1111...1111
        let mask = -(choice.unwrap_u8() as i16) as i16;
        proof {
            lemma_mask_select_i16(*a, *b, choice@, mask);
        }
        *a ^ (mask & (*a ^ *b))
    }

    fn conditional_assign(&mut self, other: &Self, choice: Choice) {
        let mask = -(choice.unwrap_u8() as i16) as i16;
        proof {
            lemma_mask_select_i16(*self, *other, choice@, mask);
        }
        *self ^= mask & (*self ^ *other);
    }

    fn conditional_swap(a: &mut Self, b: &mut Self, choice: Choice) {
        let mask = -(choice.unwrap_u8() as i16) as i16;
        proof {
            lemma_mask_select_i16(*a, *b, choice@, mask);
        }
        let t = mask & (*a ^ *b);
        *a ^= t;
        *b ^= t;
    }
}

/// With `mask` all zeros or all ones as `choice` is `0` or `1`, masking the
/// difference `a ^ b` selects between `a` and `b`.
proof fn lemma_mask_select_u32(a: u32, b: u32, c: u8, mask: u32)
    by (bit_vector)
    requires
        c == 0 || c == 1,
        mask == (-(c as i32)) as u32,
    ensures
        a ^ (mask & (a ^ b)) == (if c == 1 { b } else { a }),
        b ^ (mask & (a ^ b)) == (if c == 1 { a } else { b }),
{
}

impl ConditionallySelectable for u32 {
    fn conditional_select(a: &Self, b: &Self, choice: Choice) -> (r: Self) {
        // if choice = 0, mask = (-0) = 0000...0000
        // if choice = 1, mask = (-1) = 1111...1111
        let mask = -(choice.unwrap_u8() as i32) as u32;
        proof {
            lemma_mask_select_u32(*a, *b, choice@, mask);
        }
        *a ^ (mask & (*a ^ *b))
    }

    fn conditional_assign(&mut self, other: &Self, choice: Choice) {
        let mask = -(choice.unwrap_u8() as i32) as u32;
        proof {
            lemma_mask_select_u32(*self, *other, choice@, mask);
        }
        *self ^= mask & (*self ^ *other);
    }

    fn conditional_swap(a: &mut Self, b: &mut Self, choice: Choice) {
        let mask = -(choice.unwrap_u8() as i32) as u32;
        proof {
            lemma_mask_select_u32(*a, *b, choice@, mask);
        }
        let t = mask & (*a ^ *b);
        *a ^= t;
        *b ^= t;
    }
}

/// With `mask` all zeros or all ones as `choice` is `0` or `1`, masking the
/// difference `a ^ b` selects between `a` and `b`.
proof fn lemma_mask_select_i32(a: i32, b: i32, c: u8, mask: i32)
    by (bit_vector)
    requires
        c == 0 || c == 1,
        mask == (-(c as i32)) as i32,
    ensures
        a ^ (mask & (a ^ b)) == (if c == 1 { b } else { a }),
        b ^ (mask & (a ^ b)) == (if c == 1 { a } else { b }),
{
}

impl ConditionallySelectable for i32 {
    fn conditional_select(a: &Self, b: &Self, choice: Choice) -> (r: Self) {
        // if choice = 0, mask = (-0) = 0000...0000
        // if choice = 1, mask = (-1) = 1111...1111
        let mask = -(choice.unwrap_u8() as i32) as i32;
        proof {
            lemma_mask_select_i32(*a, *b, choice@, mask);
        }
        *a ^ (mask & (*a ^ *b))
    }

    fn conditional_assign(&mut self, other: &Self, choice: Choice) {
        let mask = -(choice.unwrap_u8() as i32) as i32;
        proof {
            lemma_mask_select_i32(*self, *other, choice@, mask);
        }
        *self ^= mask & (*self ^ *other);
    }

    fn conditional_swap(a: &mut Self, b: &mut Self, choice: Choice) {
        let mask = -(choice.unwrap_u8() as i32) as i32;
        proof {
            lemma_mask_select_i32(*a, *b, choice@, mask);
        }
        let t = mask & (*a ^ *b);
        *a ^= t;
        *b ^= t;
    }
}

/// With `mask` all zeros or all ones as `choice` is `0` or `1`, masking the
/// difference `a ^ b` selects between `a` and `b`.
proof fn lemma_mask_select_u64(a: u64, b: u64, c: u8, mask: u64)
    by (bit_vector)
    requires
        c == 0 || c == 1,
        mask == (-(c as i64)) as u64,
    ensures
        a ^ (mask & (a ^ b)) == (if c == 1 { b } else { a }),
        b ^ (mask & (a ^ b)) == (if c == 1 { a } else { b }),
{
}

impl ConditionallySelectable for u64 {
    fn conditional_select(a: &Self, b: &Self, choice: Choice) -> (r: Self) {
        // if choice = 0, mask = (-0) = 0000...0000
        // if choice = 1, mask = (-1) = 1111...1111
        let mask = -(choice.unwrap_u8() as i64) as u64;
        proof {
            lemma_mask_select_u64(*a, *b, choice@, mask);
        }
        *a ^ (mask & (*a ^ *b))
    }

    fn conditional_assign(&mut self, other: &Self, choice: Choice) {
        let mask = -(choice.unwrap_u8() as i64) as u64;
        proof {
            lemma_mask_select_u64(*self, *other, choice@, mask);
        }
        *self ^= mask & (*self ^ *other);
    }

    fn conditional_swap(a: &mut Self, b: &mut Self, choice: Choice) {
        let mask = -(choice.unwrap_u8() as i64) as u64;
        proof {
            lemma_mask_select_u64(*a, *b, choice@, mask);
        }
        let t = mask & (*a ^ *b);
        *a ^= t;
        *b ^= t;
    }
}

/// With `mask` all zeros or all ones as `choice` is `0` or `1`, masking the
/// difference `a ^ b` selects between `a` and `b`.
proof fn lemma_mask_select_i64(a: i64, b: i64, c: u8, mask: i64)
    by (bit_vector)
    requires
        c == 0 || c == 1,
        mask == (-(c as i64)) as i64,
    ensures
        a ^ (mask & (a ^ b)) == (if c == 1 { b } else { a }),
        b ^ (mask & (a ^ b)) == (if c == 1 { a } else { b }),
{
}

impl ConditionallySelectable for i64 {
    fn conditional_select(a: &Self, b: &Self, choice: Choice) -> (r: Self) {
        // if choice = 0, mask = (-0) = 0000...0000
        // if choice = 1, mask = (-1) = 1111...1111
        let mask = -(choice.unwrap_u8() as i64) as i64;
        proof {
            lemma_mask_select_i64(*a, *b, choice@, mask);
        }
        *a ^ (mask & (*a ^ *b))
    }

    fn conditional_assign(&mut self, other: &Self, choice: Choice) {
        let mask = -(choice.unwrap_u8() as i64) as i64;
        proof {
            lemma_mask_select_i64(*self, *other, choice@, mask);
        }
        *self ^= mask & (*self ^ *other);
    }

    fn conditional_swap(a: &mut Self, b: &mut Self, choice: Choice) {
        let mask = -(choice.unwrap_u8() as i64) as i64;
        proof {
            lemma_mask_select_i64(*a, *b, choice@, mask);
        }
        let t = mask & (*a ^ *b);
        *a ^= t;
        *b ^= t;
    }
}

/// With `mask` all zeros or all ones as `choice` is `0` or `1`, masking the
/// difference `a ^ b` selects between `a` and `b`.
proof fn lemma_mask_select_u128(a: u128, b: u128, c: u8, mask: u128)
    by (bit_vector)
    requires
        c == 0 || c == 1,
        mask == (-(c as i128)) as u128,
    ensures
        a ^ (mask & (a ^ b)) == (if c == 1 { b } else { a }),
        b ^ (mask & (a ^ b)) == (if c == 1 { a } else { b }),
{
}

impl ConditionallySelectable for u128 {
    fn conditional_select(a: &Self, b: &Self, choice: Choice) -> (r: Self) {
        // if choice = 0, mask = (-0) = 0000...0000
        // if choice = 1, mask = (-1) = 1111...1111
        let mask = -(choice.unwrap_u8() as i128) as u128;
        proof {
            lemma_mask_select_u128(*a, *b, choice@, mask);
        }
        *a ^ (mask & (*a ^ *b))
    }

    fn conditional_assign(&mut self, other: &Self, choice: Choice) {
        let mask = -(choice.unwrap_u8() as i128) as u128;
        proof {
            lemma_mask_select_u128(*self, *other, choice@, mask);
        }
        *self ^= mask & (*self ^ *other);
    }

    fn conditional_swap(a: &mut Self, b: &mut Self, choice: Choice) {
        let mask = -(choice.unwrap_u8() as i128) as u128;
        proof {
            lemma_mask_select_u128(*a, *b, choice@, mask);
        }
        let t = mask & (*a ^ *b);
        *a ^= t;
        *b ^= t;
    }
}

/// With `mask` all zeros or all ones as `choice` is `0` or `1`, masking the
/// difference `a ^ b` selects between `a` and `b`.
proof fn lemma_mask_select_i128(a: i128, b: i128, c: u8, mask: i128)
    by (bit_vector)
    requires
        c == 0 || c == 1,
        mask == (-(c as i128)) as i128,
    ensures
        a ^ (mask & (a ^ b)) == (if c == 1 { b } else { a }),
        b ^ (mask & (a ^ b)) == (if c == 1 { a } else { b }),
{
}

impl ConditionallySelectable for i128 {
    fn conditional_select(a: &Self, b: &Self, choice: Choice) -> (r: Self) {
        // if choice = 0, mask = (-0) = 0000...0000
        // if choice = 1, mask = (-1) = 1111...1111
        let mask = -(choice.unwrap_u8() as i128) as i128;
        proof {
            lemma_mask_select_i128(*a, *b, choice@, mask);
        }
        *a ^ (mask & (*a ^ *b))
    }

    fn conditional_assign(&mut self, other: &Self, choice: Choice) {
        let mask = -(choice.unwrap_u8() as i128) as i128;
        proof {
            lemma_mask_select_i128(*self, *other, choice@, mask);
        }
        *self ^= mask & (*self ^ *other);
    }

    fn conditional_swap(a: &mut Self, b: &mut Self, choice: Choice) {
        let mask = -(choice.unwrap_u8() as i128) as i128;
        proof {
            lemma_mask_select_i128(*a, *b, choice@, mask);
        }
        let t = mask & (*a ^ *b);
        *a ^= t;
        *b ^= t;
    }
}

/// Selecting with a choice equals selecting the other way round with the
/// negated choice.
pub proof fn law_select_complement<T>(a: T, b: T, choice: Choice, negated: Choice)
    requires
        choice.is_valid(),
        negated@ == crate::choice::bit_of(!choice.is_true()),
    ensures
        select(a, b, choice) == select(b, a, negated),
{
}

/// Two conditional swaps with the same choice give both values back.
pub proof fn law_swap_twice_restores<T>(a: T, b: T, choice: Choice)
    ensures
        select(select(a, b, choice), select(b, a, choice), choice) == a,
        select(select(b, a, choice), select(a, b, choice), choice) == b,
{
}

/// A type which can be conditionally negated in constant time.
///
/// Implemented here for the signed integer types `i8` to `i128`, where the
/// negation wraps: the negation of the minimum value is the minimum value
/// itself.  (There is no blanket implementation over types whose references
/// implement `Neg`: Verus knows no specification of negation through a
/// reference, so such an implementation could not be called from verified
/// code.)
pub trait ConditionallyNegatable {
    /// The negation of `self`.
    spec fn negation(&self) -> Self
        where Self: Sized;

    /// Negate `self` if `choice` is `1`; otherwise, leave it unchanged.
    fn conditional_negate(&mut self, choice: Choice)
        where Self: Sized
        requires
            choice.is_valid(),
        ensures
            *final(self) == select(*old(self), old(self).negation(), choice),
    ;
}

impl ConditionallyNegatable for i8 {
    /// Wrapping negation: `-self` modulo `2^BITS`.
    open spec fn negation(&self) -> i8 {
        (0i8).wrapping_sub(*self)
    }

    fn conditional_negate(&mut self, choice: Choice)
        ensures
            choice.is_true() && *old(self) != i8::MIN ==> *final(self) == -*old(self),
            choice.is_true() && *old(self) == i8::MIN ==> *final(self) == i8::MIN,
            !choice.is_true() ==> *final(self) == *old(self),
    {
        let self_neg: i8 = (0i8).wrapping_sub(*self);
        self.conditional_assign(&self_neg, choice);
    }
}

impl ConditionallyNegatable for i16 {
    /// Wrapping negation: `-self` modulo `2^BITS`.
    open spec fn negation(&self) -> i16 {
        (0i16).wrapping_sub(*self)
    }

    fn conditional_negate(&mut self, choice: Choice)
        ensures
            choice.is_true() && *old(self) != i16::MIN ==> *final(self) == -*old(self),
            choice.is_true() && *old(self) == i16::MIN ==> *final(self) == i16::MIN,
            !choice.is_true() ==> *final(self) == *old(self),
    {
        let self_neg: i16 = (0i16).wrapping_sub(*self);
        self.conditional_assign(&self_neg, choice);
    }
}

impl ConditionallyNegatable for i32 {
    /// Wrapping negation: `-self` modulo `2^BITS`.
    open spec fn negation(&self) -> i32 {
        (0i32).wrapping_sub(*self)
    }

    fn conditional_negate(&mut self, choice: Choice)
        ensures
            choice.is_true() && *old(self) != i32::MIN ==> *final(self) == -*old(self),
            choice.is_true() && *old(self) == i32::MIN ==> *final(self) == i32::MIN,
            !choice.is_true() ==> *final(self) == *old(self),
    {
        let self_neg: i32 = (0i32).wrapping_sub(*self);
        self.conditional_assign(&self_neg, choice);
    }
}

impl ConditionallyNegatable for i64 {
    /// Wrapping negation: `-self` modulo `2^BITS`.
    open spec fn negation(&self) -> i64 {
        (0i64).wrapping_sub(*self)
    }

    fn conditional_negate(&mut self, choice: Choice)
        ensures
            choice.is_true() && *old(self) != i64::MIN ==> *final(self) == -*old(self),
            choice.is_true() && *old(self) == i64::MIN ==> *final(self) == i64::MIN,
            !choice.is_true() ==> *final(self) == *old(self),
    {
        let self_neg: i64 = (0i64).wrapping_sub(*self);
        self.conditional_assign(&self_neg, choice);
    }
}

impl ConditionallyNegatable for i128 {
    /// Wrapping negation: `-self` modulo `2^BITS`.
    open spec fn negation(&self) -> i128 {
        (0i128).wrapping_sub(*self)
    }

    fn conditional_negate(&mut self, choice: Choice)
        ensures
            choice.is_true() && *old(self) != i128::MIN ==> *final(self) == -*old(self),
            choice.is_true() && *old(self) == i128::MIN ==> *final(self) == i128::MIN,
            !choice.is_true() ==> *final(self) == *old(self),
    {
        let self_neg: i128 = (0i128).wrapping_sub(*self);
        self.conditional_assign(&self_neg, choice);
    }
}

/// `select` picks the second value under a true choice and the first under a
/// false one.
pub proof fn law_select_by_choice<T>(a: T, b: T, choice: Choice)
    ensures
        choice@ == 1 ==> select(a, b, choice) == b,
        choice@ == 0 ==> select(a, b, choice) == a,
{
}

/// The negation of an `i8` is its arithmetic negation, `-x`, except for the
/// minimum value, whose negation wraps round to itself; either way
/// `x + negation(x)` is `0` modulo `2^BITS` (it is `0` or `-2^BITS`).
pub proof fn law_negation_i8(x: i8)
    ensures
        x != i8::MIN ==> x.negation() == -x,
        x == i8::MIN ==> x.negation() == x,
        x + x.negation() == 0 || x + x.negation() == 2 * (i8::MIN as int),
{
}

/// The negation of an `i16` is its arithmetic negation, `-x`, except for the
/// minimum value, whose negation wraps round to itself; either way
/// `x + negation(x)` is `0` modulo `2^BITS` (it is `0` or `-2^BITS`).
pub proof fn law_negation_i16(x: i16)
    ensures
        x != i16::MIN ==> x.negation() == -x,
        x == i16::MIN ==> x.negation() == x,
        x + x.negation() == 0 || x + x.negation() == 2 * (i16::MIN as int),
{
}

/// The negation of an `i32` is its arithmetic negation, `-x`, except for the
/// minimum value, whose negation wraps round to itself; either way
/// `x + negation(x)` is `0` modulo `2^BITS` (it is `0` or `-2^BITS`).
pub proof fn law_negation_i32(x: i32)
    ensures
        x != i32::MIN ==> x.negation() == -x,
        x == i32::MIN ==> x.negation() == x,
        x + x.negation() == 0 || x + x.negation() == 2 * (i32::MIN as int),
{
}

/// The negation of an `i64` is its arithmetic negation, `-x`, except for the
/// minimum value, whose negation wraps round to itself; either way
/// `x + negation(x)` is `0` modulo `2^BITS` (it is `0` or `-2^BITS`).
pub proof fn law_negation_i64(x: i64)
    ensures
        x != i64::MIN ==> x.negation() == -x,
        x == i64::MIN ==> x.negation() == x,
        x + x.negation() == 0 || x + x.negation() == 2 * (i64::MIN as int),
{
}

/// The negation of an `i128` is its arithmetic negation, `-x`, except for the
/// minimum value, whose negation wraps round to itself; either way
/// `x + negation(x)` is `0` modulo `2^BITS` (it is `0` or `-2^BITS`).
pub proof fn law_negation_i128(x: i128)
    ensures
        x != i128::MIN ==> x.negation() == -x,
        x == i128::MIN ==> x.negation() == x,
        x + x.negation() == 0 || x + x.negation() == 2 * (i128::MIN as int),
{
}

} // verus!
