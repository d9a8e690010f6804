use core::ops::Not;
use vstd::prelude::*;

use crate::choice::{bit_of, lemma_view_injective, Choice};
use crate::ct_eq::ConstantTimeEq;
use crate::select::{select, ConditionallySelectable};

verus! {

/// The `CtOption<T>` type represents an optional value similar to the
/// `Option<T>` type but is intended for use in constant time APIs.
///
/// Any given `CtOption<T>` is either `Some` or `None`, but unlike `Option<T>`
/// these variants are not exposed.  The `is_some()` method is used to
/// determine if the value is `Some`, and `unwrap_or()` and `unwrap_or_else()`
/// are provided to access the underlying value.  The value can also be
/// obtained with `unwrap()`, which may only be called on a `Some` value.
#[derive(Copy, Debug)]
pub struct CtOption<T> {
    value: T,
    is_some: Choice,
}

impl<T> CtOption<T> {
    /// The presence flag is always a valid choice.
    #[verifier::type_invariant]
    spec fn is_some_valid(self) -> bool {
        self.is_some.is_valid()
    }

    /// The value stored, also when the option is `None` (it is then never
    /// exposed).
    pub closed spec fn stored_value(self) -> T {
        self.value
    }

    /// The presence flag.
    pub closed spec fn presence(self) -> Choice {
        self.is_some
    }
}

impl<T: Clone> Clone for CtOption<T> {
    /// A copy with the same presence flag and a clone of the stored value.
    fn clone(&self) -> (r: Self)
        ensures
            r.presence() == self.presence(),
            cloned(self.stored_value(), r.stored_value()),
    {
        proof {
            use_type_invariant(self);
        }
        CtOption { value: self.value.clone(), is_some: self.is_some }
    }
}

impl<T> View for CtOption<T> {
    type V = Option<T>;

    /// `Some` of the stored value when the flag is `1`, else `None`.
    closed spec fn view(&self) -> Option<T> {
        if self.is_some.is_true() {
            Some(self.value)
        } else {
            None
        }
    }
}

impl<T> CtOption<T> {
    /// Construct a new `CtOption<T>` from a value and a `Choice` that
    /// determines whether the optional value is `Some`.  If `is_some` is false,
    /// the value is still stored but its value is never exposed.
    pub fn new(value: T, is_some: Choice) -> (r: CtOption<T>)
        requires
            is_some.is_valid(),
        ensures
            r@ == (if is_some.is_true() { Some(value) } else { None }),
            r.stored_value() == value,
            r.presence() == is_some,
    {
        CtOption { value: value, is_some: is_some }
    }

    /// Returns the underlying value; the option must be `Some`.
    pub fn unwrap(self) -> (r: T)
        requires
            self@ is Some,
        ensures
            self@ == Some(r),
    {
        self.value
    }

    /// Returns the underlying value if it is `Some` or the provided value
    /// otherwise.
    pub fn unwrap_or(self, def: T) -> (r: T) where T: ConditionallySelectable
        ensures
            r == (match self@ {
                Some(v) => v,
                None => def,
            }),
    {
        proof {
            use_type_invariant(&self);
        }
        T::conditional_select(&def, &self.value, self.is_some)
    }

    /// Returns the underlying value if it is `Some` or the value produced by
    /// the provided closure otherwise.  The closure is always called.
    pub fn unwrap_or_else<F>(self, f: F) -> (r: T) where
        T: ConditionallySelectable,
        F: FnOnce() -> T,
        requires
            f.requires(()),
        ensures
            self@ matches Some(v) ==> r == v,
            self@ is None ==> f.ensures((), r),
    {
        proof {
            use_type_invariant(&self);
        }
        let d = f();
        T::conditional_select(&d, &self.value, self.is_some)
    }

    /// Returns a true `Choice` if this value is `Some`.
    pub fn is_some(&self) -> (r: Choice)
        ensures
            r@ == bit_of(self@ is Some),
    {
        proof {
            use_type_invariant(self);
        }
        self.is_some
    }

    /// Returns a true `Choice` if this value is `None`.
    pub fn is_none(&self) -> (r: Choice)
        ensures
            r@ == bit_of(self@ is None),
    {
        proof {
            use_type_invariant(self);
        }
        self.is_some.not()
    }

    /// Returns a `None` value if the option is `None`, otherwise returns a
    /// `CtOption` enclosing the value of the provided closure.  The closure is
    /// given the enclosed value or, if the option is `None`, a dummy value
    /// computed using `Default::default()`.
    ///
    /// This operates in constant time, because the provided closure is always
    /// called.
    pub fn map<U, F>(self, f: F) -> (r: CtOption<U>) where
        T: Default + ConditionallySelectable,
        F: FnOnce(T) -> U,
        requires
            self@ matches Some(v) ==> f.requires((v,)),
            self@ is None ==> forall|d: T| call_ensures(T::default, (), d) ==> f.requires((d,)),
        ensures
            is_map_of(self@, f, r@),
            self@ is None ==> exists|d: T|
                call_ensures(T::default, (), d) && #[trigger] f.ensures((d,), r.stored_value()),
    {
        proof {
            use_type_invariant(&self);
        }
        let d = T::default();
        CtOption::new(f(T::conditional_select(&d, &self.value, self.is_some)), self.is_some)
    }

    /// Returns a `None` value if the option is `None`, otherwise returns the
    /// result of the provided closure.  The closure is given the enclosed
    /// value or, if the option is `None`, a dummy value computed using
    /// `Default::default()`.
    ///
    /// This operates in constant time, because the provided closure is always
    /// called.
    pub fn and_then<U, F>(self, f: F) -> (r: CtOption<U>) where
        T: Default + ConditionallySelectable,
        F: FnOnce(T) -> CtOption<U>,
        requires
            self@ matches Some(v) ==> f.requires((v,)),
            self@ is None ==> forall|d: T| call_ensures(T::default, (), d) ==> f.requires((d,)),
        ensures
            self@ matches Some(v) ==> f.ensures((v,), r),
            self@ is None ==> r@ is None,
            self@ is None ==> exists|d: T, t: CtOption<U>|
                call_ensures(T::default, (), d) && #[trigger] f.ensures((d,), t)
                    && r.stored_value() == t.stored_value(),
    {
        proof {
            use_type_invariant(&self);
        }
        let d = T::default();
        let mut tmp = f(T::conditional_select(&d, &self.value, self.is_some));
        let ghost returned = tmp;
        proof {
            use_type_invariant(&tmp);
        }
        tmp.is_some = tmp.is_some & self.is_some;
        proof {
            lemma_view_injective(tmp.is_some, returned.is_some);
        }
        tmp
    }
}

/// `r` is what mapping `o` through `f` gives: `None` for `None`, and for
/// `Some(v)` the `Some` of a result that `f` may return on `v`.
pub open spec fn is_map_of<T, U, F: FnOnce(T) -> U>(o: Option<T>, f: F, r: Option<U>) -> bool {
    match o {
        Some(v) => r matches Some(w) && f.ensures((v,), w),
        None => r is None,
    }
}

/// Mapping keeps presence: the result is `Some` exactly when the input is,
/// and a `Some(v)` goes to the `Some` of a value that `f` may return on `v`.
pub proof fn law_map_presence<T, U, F: FnOnce(T) -> U>(o: Option<T>, f: F, r: Option<U>)
    requires
        is_map_of(o, f, r),
    ensures
        (r is Some) == (o is Some),
        o is Some ==> f.ensures((o.unwrap(),), r.unwrap()),
{
}

/// Mapping through `f` and then through `g` gives what mapping once through
/// their composition `h` gives, when `f` and `g` are deterministic.
pub proof fn law_map_compose<T, U, V, F: FnOnce(T) -> U, G: FnOnce(U) -> V, H: FnOnce(T) -> V>(
    o: Option<T>,
    f: F,
    g: G,
    h: H,
    r1: Option<U>,
    r2: Option<V>,
    r3: Option<V>,
)
    requires
        is_map_of(o, f, r1),
        is_map_of(r1, g, r2),
        is_map_of(o, h, r3),
        forall|x: T, y1: U, y2: U| f.ensures((x,), y1) && f.ensures((x,), y2) ==> y1 == y2,
        forall|y: U, z1: V, z2: V| g.ensures((y,), z1) && g.ensures((y,), z2) ==> z1 == z2,
        forall|x: T, z: V| #[trigger] h.ensures((x,), z) ==> exists|y: U|
            f.ensures((x,), y) && #[trigger] g.ensures((y,), z),
    ensures
        r2 == r3,
{
    if let Some(v) = o {
        let y = r1->0;
        let z = r2->0;
        let z3 = r3->0;
        let y3 = choose|y3: U| f.ensures((v,), y3) && #[trigger] g.ensures((y3,), z3);
        assert(f.ensures((v,), y3));
        assert(y3 == y);
        assert(g.ensures((y,), z3));
        assert(z3 == z);
    }
}

impl<T: ConditionallySelectable> ConditionallySelectable for CtOption<T> {
    fn conditional_select(a: &Self, b: &Self, choice: Choice) -> (r: Self) {
        proof {
            use_type_invariant(a);
            use_type_invariant(b);
        }
        CtOption::new(
            T::conditional_select(&a.value, &b.value, choice),
            Choice::conditional_select(&a.is_some, &b.is_some, choice),
        )
    }
}

impl<T: ConstantTimeEq> ConstantTimeEq for CtOption<T> {
    /// Two `CtOption<T>`s are equal if they are both `Some` and their values
    /// are equal, or both `None`.
    open spec fn ct_eq_spec(&self, other: &CtOption<T>) -> bool {
        match (self@, other@) {
            (Some(a), Some(b)) => a.ct_eq_spec(&b),
            (None, None) => true,
            _ => false,
        }
    }

    fn ct_eq(&self, rhs: &CtOption<T>) -> (r: Choice)
        ensures
            (self@ is Some) != (rhs@ is Some) ==> r@ == 0,
            self@ is None && rhs@ is None ==> r@ == 1,
            self@ is Some && rhs@ is Some ==> r@ == bit_of(self@.unwrap().ct_eq_spec(&rhs@.unwrap())),
    {
        let a = self.is_some();
        let b = rhs.is_some();

        (a & b & self.value.ct_eq(&rhs.value)) | (a.not() & b.not())
    }
}

/// Two options count as equal when both are `None`, never when exactly one is
/// `Some` (whatever value the other hides), and when both are `Some` exactly
/// when their values count as equal.
pub proof fn law_ct_eq_cases<T: ConstantTimeEq>(a: CtOption<T>, b: CtOption<T>)
    ensures
        (a@ is Some) != (b@ is Some) ==> !a.ct_eq_spec(&b),
        a@ is None && b@ is None ==> a.ct_eq_spec(&b),
        a@ is Some && b@ is Some ==> (a.ct_eq_spec(&b) == a@.unwrap().ct_eq_spec(&b@.unwrap())),
{
}

/// An option is `Some` exactly when its presence flag is `1`, and then it
/// stands for the value it stores.
pub proof fn law_view_presence<T>(o: CtOption<T>)
    ensures
        (o@ is Some) == (o.presence()@ == 1),
        o@ matches Some(v) ==> v == o.stored_value(),
{
}

/// Selecting between two options selects between what they stand for.
pub proof fn law_select_view<T>(a: CtOption<T>, b: CtOption<T>, choice: Choice)
    ensures
        select(a, b, choice)@ == select(a@, b@, choice),
{
}

/// Constant-time equality of options is reflexive wherever it is on the
/// values, and symmetric wherever it is on the values.
pub proof fn law_ct_eq_reflexive_symmetric<T: ConstantTimeEq>(a: CtOption<T>, b: CtOption<T>)
    ensures
        (forall|v: T| (#[trigger] v.ct_eq_spec(&v))) ==> a.ct_eq_spec(&a),
        (forall|v: T, w: T| #[trigger] v.ct_eq_spec(&w) == w.ct_eq_spec(&v)) ==> a.ct_eq_spec(&b)
            == b.ct_eq_spec(&a),
{
}

} // verus!
