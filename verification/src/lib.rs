//! Constant-time primitives: a `Choice` type standing for a secret bit, equality
//! and conditional selection that do not branch on secrets, and `CtOption`, an
//! optional value whose presence is itself a `Choice`.
//!
//! Every operation is stated over a mathematical model: a `Choice` is viewed as
//! the byte it holds (`0` or `1` when valid), a `CtOption<T>` as an `Option<T>`.

pub mod choice;
pub mod ct_eq;
pub mod select;
pub mod ct_option;

pub use choice::Choice;
pub use ct_eq::ConstantTimeEq;
pub use ct_option::CtOption;
pub use select::{ConditionallyNegatable, ConditionallySelectable};
