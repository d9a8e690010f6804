use vstd::prelude::*;

use crate::select::ConditionallySelectable;

verus! {

/// The `Choice` struct represents a choice for use in conditional assignment.
///
/// It is a wrapper around a `u8`, which should have the value either `1`
/// (true) or `0` (false).  The operators `&`, `|`, `^` and `!` combine
/// `Choice` values without short-circuiting.
#[derive(Copy, Clone, Debug)]
pub struct Choice(u8);

impl View for Choice {
    type V = u8;

    /// The byte that the choice holds.
    closed spec fn view(&self) -> u8 {
        self.0
    }
}

impl Choice {
    /// A choice is valid when it holds `0` (false) or `1` (true).
    pub open spec fn is_valid(self) -> bool {
        self@ == 0 || self@ == 1
    }

    /// The truth value of a valid choice.
    pub open spec fn is_true(self) -> bool {
        self@ == 1
    }

    /// Unwrap the `Choice` wrapper to reveal the underlying `u8`.
    pub fn unwrap_u8(&self) -> (r: u8)
        ensures
            r == self@,
    {
        self.0
    }
}

/// The byte that stands for a boolean: `1` for true, `0` for false.
pub open spec fn bit_of(b: bool) -> u8 {
    if b {
        1
    } else {
        0
    }
}

/// On bytes that are `0` or `1`, the bitwise operations that `Choice` uses
/// compute the boolean connectives.
pub proof fn lemma_bit_ops(a: u8, b: u8)
    by (bit_vector)
    requires
        a == 0 || a == 1,
        b == 0 || b == 1,
    ensures
        (a & b) == (if a == 1 && b == 1 { 1u8 } else { 0u8 }),
        (a | b) == (if a == 1 || b == 1 { 1u8 } else { 0u8 }),
        (a ^ b) == (if a != b { 1u8 } else { 0u8 }),
        (1u8 & !a) == (if a == 1 { 0u8 } else { 1u8 }),
{
}

/// Passes `input` on unchanged.  It stands as a best-effort barrier that keeps
/// the compiler from learning that a `Choice` holds only `0` or `1`.
pub(crate) fn black_box(input: u8) -> (r: u8)
    ensures
        r == input,
{
    input
}

impl From<u8> for Choice {
    fn from(input: u8) -> (r: Choice)
        ensures
            r@ == input,
    {
        Choice(black_box(input))
    }
}

impl vstd::std_specs::convert::FromSpecImpl<u8> for Choice {
    open spec fn obeys_from_spec() -> bool {
        true
    }

    closed spec fn from_spec(v: u8) -> Choice {
        Choice(v)
    }
}

impl From<Choice> for bool {
    /// Convert the `Choice` wrapper into a `bool`, depending on whether the
    /// underlying `u8` was a `0` or a `1`.
    fn from(source: Choice) -> (r: bool)
        ensures
            r == (source@ != 0),
    {
        source.0 != 0
    }
}

impl vstd::std_specs::convert::FromSpecImpl<Choice> for bool {
    open spec fn obeys_from_spec() -> bool {
        true
    }

    open spec fn from_spec(v: Choice) -> bool {
        v@ != 0
    }
}

impl core::ops::BitAnd for Choice {
    type Output = Choice;

    fn bitand(self, rhs: Choice) -> (r: Choice)
        ensures
            r@ == bit_of(self.is_true() && rhs.is_true()),
    {
        proof {
            lemma_bit_ops(self.0, rhs.0);
        }
        (self.0 & rhs.0).into()
    }
}

impl vstd::std_specs::ops::BitAndSpecImpl for Choice {
    open spec fn obeys_bitand_spec() -> bool {
        true
    }

    open spec fn bitand_req(self, rhs: Choice) -> bool {
        self.is_valid() && rhs.is_valid()
    }

    closed spec fn bitand_spec(self, rhs: Choice) -> Choice {
        Choice(self.0 & rhs.0)
    }
}

impl core::ops::BitAndAssign for Choice {
    fn bitand_assign(&mut self, rhs: Choice)
        requires
            old(self).is_valid(),
            rhs.is_valid(),
        ensures
            final(self)@ == bit_of(old(self).is_true() && rhs.is_true()),
    {
        *self = *self & rhs;
    }
}

impl core::ops::BitOr for Choice {
    type Output = Choice;

    fn bitor(self, rhs: Choice) -> (r: Choice)
        ensures
            r@ == bit_of(self.is_true() || rhs.is_true()),
    {
        proof {
            lemma_bit_ops(self.0, rhs.0);
        }
        (self.0 | rhs.0).into()
    }
}

impl vstd::std_specs::ops::BitOrSpecImpl for Choice {
    open spec fn obeys_bitor_spec() -> bool {
        true
    }

    open spec fn bitor_req(self, rhs: Choice) -> bool {
        self.is_valid() && rhs.is_valid()
    }

    closed spec fn bitor_spec(self, rhs: Choice) -> Choice {
        Choice(self.0 | rhs.0)
    }
}

impl core::ops::BitOrAssign for Choice {
    fn bitor_assign(&mut self, rhs: Choice)
        requires
            old(self).is_valid(),
            rhs.is_valid(),
        ensures
            final(self)@ == bit_of(old(self).is_true() || rhs.is_true()),
    {
        *self = *self | rhs;
    }
}

impl core::ops::BitXor for Choice {
    type Output = Choice;

    fn bitxor(self, rhs: Choice) -> (r: Choice)
        ensures
            r@ == bit_of(self.is_true() != rhs.is_true()),
    {
        proof {
            lemma_bit_ops(self.0, rhs.0);
        }
        (self.0 ^ rhs.0).into()
    }
}

impl vstd::std_specs::ops::BitXorSpecImpl for Choice {
    open spec fn obeys_bitxor_spec() -> bool {
        true
    }

    open spec fn bitxor_req(self, rhs: Choice) -> bool {
        self.is_valid() && rhs.is_valid()
    }

    closed spec fn bitxor_spec(self, rhs: Choice) -> Choice {
        Choice(self.0 ^ rhs.0)
    }
}

impl core::ops::BitXorAssign for Choice {
    fn bitxor_assign(&mut self, rhs: Choice)
        requires
            old(self).is_valid(),
            rhs.is_valid(),
        ensures
            final(self)@ == bit_of(old(self).is_true() != rhs.is_true()),
    {
        *self = *self ^ rhs;
    }
}

impl core::ops::Not for Choice {
    type Output = Choice;

    fn not(self) -> (r: Choice)
        ensures
            r@ == bit_of(!self.is_true()),
    {
        proof {
            lemma_bit_ops(self.0, 0);
        }
        (1u8 & (!self.0)).into()
    }
}

impl vstd::std_specs::ops::NotSpecImpl for Choice {
    open spec fn obeys_not_spec() -> bool {
        true
    }

    open spec fn not_req(self) -> bool {
        self.is_valid()
    }

    closed spec fn not_spec(self) -> Choice {
        Choice(1u8 & !self.0)
    }
}

/// Turning a `0`/`1` byte into a `Choice` and the `Choice` into a `bool`
/// gives true exactly for `1`; unwrapping gives the byte back.
pub proof fn law_choice_roundtrip(x: u8)
    requires
        x == 0 || x == 1,
    ensures
        <bool as vstd::std_specs::convert::FromSpec<Choice>>::from_spec(
            <Choice as vstd::std_specs::convert::FromSpec<u8>>::from_spec(x),
        ) == (x == 1),
        <Choice as vstd::std_specs::convert::FromSpec<u8>>::from_spec(x)@ == x,
{
}

/// A choice is true exactly when it holds `1`, and valid exactly when it holds
/// `0` or `1`.
pub proof fn law_choice_predicates(c: Choice)
    ensures
        c.is_true() == (c@ == 1),
        c.is_valid() == (c@ <= 1),
{
}

/// Two choices are the same value exactly when they hold the same byte.
pub proof fn lemma_view_injective(a: Choice, b: Choice)
    ensures
        (a@ == b@) == (a == b),
{
}

impl ConditionallySelectable for Choice {
    fn conditional_select(a: &Self, b: &Self, choice: Choice) -> (r: Self) {
        Choice(u8::conditional_select(&a.0, &b.0, choice))
    }
}

} // verus!
