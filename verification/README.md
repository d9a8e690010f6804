# Constant-time primitives, verified

A Verus library of constant-time building blocks:

- `src/choice.rs`: `Choice`, a byte standing for a secret bit, with `&`, `|`,
  `^`, `!` and the conversions to and from `u8` and `bool`.
- `src/ct_eq.rs`: `ConstantTimeEq`, with implementations for every primitive
  integer type and for slices.
- `src/select.rs`: `ConditionallySelectable` (select, assign, swap) for the
  integer types, and `ConditionallyNegatable` for `i8` to `i128` (wrapping
  negation; there is no blanket implementation over types whose references
  implement `Neg`, since Verus cannot specify negation through a reference).
- `src/ct_option.rs`: `CtOption<T>`, an optional value whose presence is a
  `Choice`, viewed as an `Option<T>`.

Every public function carries a contract over these models; the laws that
relate several operations are public proof functions beside them.
