//! Conditionals on booleans, on equality and on ordering.
use vstd::prelude::*;
use vstd::std_specs::cmp::{PartialEqSpec, PartialOrdSpec};

verus! {

/// Shorthands on `bool`.
pub trait BoolUtils {
    /// The truth value itself.
    spec fn truth(&self) -> bool;

    fn not(&self) -> bool;

    fn then_val<T>(&self, val: T) -> Option<T>;

    fn if_true<T, F: FnOnce() -> T>(&self, f: F) -> Option<T>
        requires
            self.truth() ==> f.requires(()),
    ;

    fn if_false<T, F: FnOnce() -> T>(&self, f: F) -> Option<T>
        requires
            !self.truth() ==> f.requires(()),
    ;

    fn toggle(&mut self);
}

impl BoolUtils for bool {
    open spec fn truth(&self) -> bool {
        *self
    }

    /// The negation.
    fn not(&self) -> (r: bool)
        ensures
            r == !*self,
    {
        !*self
    }

    /// `Some(val)` when true, else `None`.
    fn then_val<T>(&self, val: T) -> (r: Option<T>)
        ensures
            r == (if *self { Some(val) } else { None::<T> }),
    {
        if *self {
            Some(val)
        } else {
            None
        }
    }

    /// Runs `f` and wraps its result when true; `None` without running it otherwise.
    fn if_true<T, F: FnOnce() -> T>(&self, f: F) -> (r: Option<T>)
        ensures
            *self ==> r.is_some() && f.ensures((), r.unwrap()),
            !*self ==> r.is_none(),
    {
        if *self {
            Some(f())
        } else {
            None
        }
    }

    /// Runs `f` and wraps its result when false; `None` without running it otherwise.
    fn if_false<T, F: FnOnce() -> T>(&self, f: F) -> (r: Option<T>)
        ensures
            !*self ==> r.is_some() && f.ensures((), r.unwrap()),
            *self ==> r.is_none(),
    {
        if self.not() {
            Some(f())
        } else {
            None
        }
    }

    /// Flips the value in place.
    fn toggle(&mut self)
        ensures
            *final(self) == !*old(self),
    {
        *self = !*self;
    }
}

/// Equality tests as methods.
pub trait EqUtils<T: PartialEq> {
    /// Whether `self == other`.
    fn eq_to(&self, other: &T) -> bool;

    /// Whether `self != other`.
    fn not_eq_to(&self, other: &T) -> bool;
}

impl<T: PartialEq> EqUtils<T> for T {
    fn eq_to(&self, other: &T) -> (r: bool)
        ensures
            T::obeys_eq_spec() ==> r == self.eq_spec(other),
    {
        self.eq(other)
    }

    fn not_eq_to(&self, other: &T) -> (r: bool)
        ensures
            T::obeys_eq_spec() ==> r == !self.eq_spec(other),
    {
        self.ne(other)
    }
}

/// Runs a closure depending on equality.
pub trait IfUtils<T: PartialEq> {
    /// Whether `==` on these values follows its spec model.
    spec fn eq_modeled() -> bool;

    /// `self == other` in the spec model.
    spec fn eq_model(&self, other: &T) -> bool;

    /// If `self == other`, runs `f()` and returns `Some` of its result.
    fn if_eq<X, F: FnOnce() -> X>(&self, other: &T, f: F) -> Option<X>
        requires
            (Self::eq_modeled() ==> self.eq_model(other)) ==> f.requires(()),
    ;

    /// If `self != other`, runs `f()` and returns `Some` of its result.
    fn if_not_eq<X, F: FnOnce() -> X>(&self, other: &T, f: F) -> Option<X>
        requires
            (Self::eq_modeled() ==> !self.eq_model(other)) ==> f.requires(()),
    ;
}

impl<T: PartialEq> IfUtils<T> for T {
    open spec fn eq_modeled() -> bool {
        T::obeys_eq_spec()
    }

    open spec fn eq_model(&self, other: &T) -> bool {
        self.eq_spec(other)
    }

    fn if_eq<X, F: FnOnce() -> X>(&self, other: &T, f: F) -> (r: Option<X>)
        ensures
            r.is_some() ==> f.ensures((), r.unwrap()),
            T::obeys_eq_spec() ==> (r.is_some() <==> self.eq_spec(other)),
    {
        if self.eq(other) {
            Some(f())
        } else {
            None
        }
    }

    fn if_not_eq<X, F: FnOnce() -> X>(&self, other: &T, f: F) -> (r: Option<X>)
        ensures
            r.is_some() ==> f.ensures((), r.unwrap()),
            T::obeys_eq_spec() ==> (r.is_some() <==> !self.eq_spec(other)),
    {
        if self.ne(other) {
            Some(f())
        } else {
            None
        }
    }
}

/// Whether `a > b` under `T`'s partial order.
pub open spec fn spec_gt<T: PartialOrd>(a: &T, b: &T) -> bool {
    a.partial_cmp_spec(b) == Some(core::cmp::Ordering::Greater)
}

/// Whether `a < b` under `T`'s partial order.
pub open spec fn spec_lt<T: PartialOrd>(a: &T, b: &T) -> bool {
    a.partial_cmp_spec(b) == Some(core::cmp::Ordering::Less)
}

/// Whether `a >= b` under `T`'s partial order.
pub open spec fn spec_ge<T: PartialOrd>(a: &T, b: &T) -> bool {
    a.partial_cmp_spec(b) matches Some(core::cmp::Ordering::Greater | core::cmp::Ordering::Equal)
}

/// Whether `a <= b` under `T`'s partial order.
pub open spec fn spec_le<T: PartialOrd>(a: &T, b: &T) -> bool {
    a.partial_cmp_spec(b) matches Some(core::cmp::Ordering::Less | core::cmp::Ordering::Equal)
}

/// Runs a closure depending on order.
pub trait IfOrdUtils<T> {
    /// Whether comparison of these values follows its spec model.
    spec fn ord_modeled() -> bool;

    /// `self.partial_cmp(other)` in the spec model.
    spec fn ord_model(&self, other: &T) -> Option<core::cmp::Ordering>;

    fn if_gt<X, F: FnOnce() -> X>(&self, other: &T, f: F) -> Option<X>
        requires
            (Self::ord_modeled() ==> self.ord_model(other) == Some(core::cmp::Ordering::Greater)) ==> f.requires(()),
    ;

    fn if_lt<X, F: FnOnce() -> X>(&self, other: &T, f: F) -> Option<X>
        requires
            (Self::ord_modeled() ==> self.ord_model(other) == Some(core::cmp::Ordering::Less)) ==> f.requires(()),
    ;

    fn if_gte<X, F: FnOnce() -> X>(&self, other: &T, f: F) -> Option<X>
        requires
            (Self::ord_modeled() ==> self.ord_model(other) matches Some(core::cmp::Ordering::Greater | core::cmp::Ordering::Equal)) ==> f.requires(()),
    ;

    fn if_lte<X, F: FnOnce() -> X>(&self, other: &T, f: F) -> Option<X>
        requires
            (Self::ord_modeled() ==> self.ord_model(other) matches Some(core::cmp::Ordering::Less | core::cmp::Ordering::Equal)) ==> f.requires(()),
    ;

    /// Runs `f` when `low < self < high`.
    fn if_between<X, F: FnOnce() -> X>(&self, low: &T, high: &T, f: F) -> Option<X>
        requires
            (Self::ord_modeled() ==> self.ord_model(low) == Some(core::cmp::Ordering::Greater)
                && self.ord_model(high) == Some(core::cmp::Ordering::Less)) ==> f.requires(()),
    ;

    /// Runs `f` when `low <= self <= high`.
    fn if_between_inclusive<X, F: FnOnce() -> X>(&self, low: &T, high: &T, f: F) -> Option<X>
        requires
            (Self::ord_modeled() ==> (self.ord_model(low) matches Some(
                core::cmp::Ordering::Greater | core::cmp::Ordering::Equal,
            )) && (self.ord_model(high) matches Some(
                core::cmp::Ordering::Less | core::cmp::Ordering::Equal,
            ))) ==> f.requires(()),
    ;
}

impl<T> IfOrdUtils<T> for T where T: PartialOrd {
    open spec fn ord_modeled() -> bool {
        T::obeys_partial_cmp_spec()
    }

    open spec fn ord_model(&self, other: &T) -> Option<core::cmp::Ordering> {
        self.partial_cmp_spec(other)
    }

    fn if_gt<X, F: FnOnce() -> X>(&self, other: &T, f: F) -> (r: Option<X>)
        ensures
            r.is_some() ==> f.ensures((), r.unwrap()),
            T::obeys_partial_cmp_spec() ==> (r.is_some() <==> spec_gt(self, other)),
    {
        if self.gt(other) {
            Some(f())
        } else {
            None
        }
    }

    fn if_lt<X, F: FnOnce() -> X>(&self, other: &T, f: F) -> (r: Option<X>)
        ensures
            r.is_some() ==> f.ensures((), r.unwrap()),
            T::obeys_partial_cmp_spec() ==> (r.is_some() <==> spec_lt(self, other)),
    {
        if self.lt(other) {
            Some(f())
        } else {
            None
        }
    }

    fn if_gte<X, F: FnOnce() -> X>(&self, other: &T, f: F) -> (r: Option<X>)
        ensures
            r.is_some() ==> f.ensures((), r.unwrap()),
            T::obeys_partial_cmp_spec() ==> (r.is_some() <==> spec_ge(self, other)),
    {
        if self.ge(other) {
            Some(f())
        } else {
            None
        }
    }

    fn if_lte<X, F: FnOnce() -> X>(&self, other: &T, f: F) -> (r: Option<X>)
        ensures
            r.is_some() ==> f.ensures((), r.unwrap()),
            T::obeys_partial_cmp_spec() ==> (r.is_some() <==> spec_le(self, other)),
    {
        if self.le(other) {
            Some(f())
        } else {
            None
        }
    }

    fn if_between<X, F: FnOnce() -> X>(&self, low: &T, high: &T, f: F) -> (r: Option<X>)
        ensures
            r.is_some() ==> f.ensures((), r.unwrap()),
            T::obeys_partial_cmp_spec() ==> (r.is_some() <==> spec_gt(self, low) && spec_lt(
                self,
                high,
            )),
    {
        if self.gt(low) && self.lt(high) {
            Some(f())
        } else {
            None
        }
    }

    fn if_between_inclusive<X, F: FnOnce() -> X>(&self, low: &T, high: &T, f: F) -> (r: Option<
        X,
    >)
        ensures
            r.is_some() ==> f.ensures((), r.unwrap()),
            T::obeys_partial_cmp_spec() ==> (r.is_some() <==> spec_ge(self, low) && spec_le(
                self,
                high,
            )),
    {
        if self.ge(low) && self.le(high) {
            Some(f())
        } else {
            None
        }
    }
}

} // verus!
