//! Extension traits for common value types, and a level-filtered in-memory log.
//!
//! Every helper is a pure function of the value it is called on; the log in
//! [`logger`] is the only item that keeps state, and it is an ordinary value
//! that its owner passes around.
use vstd::prelude::*;
use vstd::std_specs::cmp::PartialEqSpec;
use vstd::std_specs::convert::{FromSpec, TryFromSpec};
use vstd::std_specs::ops::RemSpec;
use std::collections::HashMap;
use std::hash::Hash;
use crate::decimal::{decimal, push_decimal};

pub mod bool_utils;
pub mod decimal;
pub mod logger;
pub mod option_utils;
pub mod str_utils;

verus! {

/// What a conversion through `TryFrom` gives, as an option.
pub open spec fn converted<T, U: TryFrom<T>>(v: T) -> Option<U> {
    match U::try_from_spec(v) {
        Ok(u) => Some(u),
        Err(_) => None,
    }
}

/// Conversions through `TryFrom`.
pub trait ConvertUtils: Sized {
    /// The converted value, or `None` when the conversion fails.
    fn to<T: TryFrom<Self>>(self) -> Option<T>;

    /// The converted value, or `fallback` when the conversion fails.
    fn to_or<T: TryFrom<Self>>(self, fallback: T) -> T;

    /// The result of the conversion, with its error.
    fn to_result<T: TryFrom<Self>>(self) -> Result<T, T::Error>;
}

impl<T> ConvertUtils for T {
    fn to<U: TryFrom<T>>(self) -> (r: Option<U>)
        ensures
            U::obeys_try_from_spec() ==> r == converted::<T, U>(self),
    {
        match U::try_from(self) {
            Ok(u) => Some(u),
            Err(_) => None,
        }
    }

    fn to_or<U: TryFrom<T>>(self, fallback: U) -> (r: U)
        ensures
            U::obeys_try_from_spec() ==> r == match converted::<T, U>(self) {
                Some(u) => u,
                None => fallback,
            },
    {
        match self.to() {
            Some(u) => u,
            None => fallback,
        }
    }

    fn to_result<U: TryFrom<T>>(self) -> (r: Result<U, U::Error>)
        ensures
            U::obeys_try_from_spec() ==> r == U::try_from_spec(self),
    {
        U::try_from(self)
    }
}

/// Conditional pushes onto a vector.
pub trait VecUtils<T> {
    /// Pushes `push` when `cond` holds.
    fn push_if(&mut self, push: T, cond: bool);

    /// Pushes what `f` makes when `cond` holds; `f` runs only then.
    fn push_if_with<F: FnOnce() -> T>(&mut self, cond: bool, f: F)
        requires
            cond ==> f.requires(()),
    ;
}

impl<T> VecUtils<T> for Vec<T> {
    fn push_if(&mut self, push: T, cond: bool)
        ensures
            final(self)@ == if cond {
                old(self)@.push(push)
            } else {
                old(self)@
            },
    {
        if cond {
            self.push(push);
        }
    }

    fn push_if_with<F: FnOnce() -> T>(&mut self, cond: bool, f: F)
        ensures
            cond ==> final(self)@.len() == old(self)@.len() + 1 && final(self)@.drop_last()
                == old(self)@ && f.ensures((), final(self)@.last()),
            !cond ==> final(self)@ == old(self)@,
    {
        if cond {
            let v = f();
            self.push(v);
            assert(self@.drop_last() =~= old(self)@);
        }
    }
}

/// Lookups and conditional inserts on a `HashMap`.
pub trait MapUtils<K, V> {
    /// The value under `key`, or `fallback` when there is none.
    fn get_or<'a>(&'a self, key: &K, fallback: &'a V) -> &'a V;

    /// Inserts `value` under `key` when `cond` holds.
    fn insert_if(&mut self, key: K, value: V, cond: bool);
}

impl<K: Eq + Hash, V> MapUtils<K, V> for HashMap<K, V> {
    fn get_or<'a>(&'a self, key: &K, fallback: &'a V) -> (r: &'a V)
        ensures
            vstd::std_specs::hash::obeys_key_model::<K>() ==> *r == (if self@.contains_key(*key) {
                self@[*key]
            } else {
                *fallback
            }),
    {
        broadcast use vstd::std_specs::hash::group_hash_axioms;

        match self.get(key) {
            Some(v) => v,
            None => fallback,
        }
    }

    fn insert_if(&mut self, key: K, value: V, cond: bool)
        ensures
            vstd::std_specs::hash::obeys_key_model::<K>() ==> final(self)@ == if cond {
                old(self)@.insert(key, value)
            } else {
                old(self)@
            },
    {
        broadcast use vstd::std_specs::hash::group_hash_axioms;

        if cond {
            self.insert(key, value);
        }
    }
}

/// Side effects on one side of a `Result`.
pub trait ResultUtils<T, E> {
    /// The result itself.
    spec fn outcome(self) -> Result<T, E>;

    /// Runs `f` on the value when `Ok`, and hands the result back.
    fn if_ok<F: FnOnce(&T)>(self, f: F) -> Self
        requires
            self.outcome() is Ok ==> f.requires((&self.outcome()->Ok_0,)),
    ;

    /// Runs `f` on the error when `Err`, and hands the result back.
    fn if_err<F: FnOnce(&E)>(self, f: F) -> Self
        requires
            self.outcome() is Err ==> f.requires((&self.outcome()->Err_0,)),
    ;
}

impl<T, E> ResultUtils<T, E> for Result<T, E> {
    open spec fn outcome(self) -> Result<T, E> {
        self
    }

    fn if_ok<F: FnOnce(&T)>(self, f: F) -> (r: Self)
        ensures
            r == self,
            self is Ok ==> f.ensures((&self->Ok_0,), ()),
    {
        if let Ok(ref val) = self {
            f(val);
        }
        self
    }

    fn if_err<F: FnOnce(&E)>(self, f: F) -> (r: Self)
        ensures
            r == self,
            self is Err ==> f.ensures((&self->Err_0,), ()),
    {
        if let Err(ref err) = self {
            f(err);
        }
        self
    }
}

/// The text `"{h}h {m}m {s}s"` for a span of `total` seconds.
pub open spec fn hms_text(total: nat) -> Seq<char> {
    decimal(total / 3600) + "h "@ + decimal((total % 3600) / 60) + "m "@ + decimal(total % 60)
        + "s"@
}

/// Writes a span of `total_secs` seconds as hours, minutes and seconds.
pub fn format_hms(total_secs: u64) -> (r: String)
    ensures
        r@ == hms_text(total_secs as nat),
{
    let mut s = String::new();
    push_decimal(&mut s, total_secs / 3600);
    s.append("h ");
    push_decimal(&mut s, (total_secs % 3600) / 60);
    s.append("m ");
    push_decimal(&mut s, total_secs % 60);
    s.append("s");
    s
}

/// The whole seconds of a duration, as `Duration::as_secs` gives them.
pub uninterp spec fn whole_secs(d: core::time::Duration) -> u64;

/// Relies on `Duration::as_secs`: the whole seconds of a duration, which
/// depend on the duration alone.
pub assume_specification[ core::time::Duration::as_secs ](d: &core::time::Duration) -> (r: u64)
    ensures
        r == whole_secs(*d),
;

/// Formatting of a `Duration`.
pub trait DurationUtils {
    /// The whole seconds as `"{h}h {m}m {s}s"`, e.g. `"1h 20m 5s"`.
    fn pretty(&self) -> String;
}

impl DurationUtils for core::time::Duration {
    fn pretty(&self) -> (r: String)
        ensures
            r@ == hms_text(whole_secs(*self) as nat),
    {
        format_hms(self.as_secs())
    }
}

/// Tap-style chaining.
pub trait IdentityUtils: Sized {
    /// Runs `f` on `self` and hands `self` back.
    fn tap<F: FnOnce(&Self)>(self, f: F) -> Self
        requires
            f.requires((&self,)),
    ;
}

impl<T> IdentityUtils for T {
    fn tap<F: FnOnce(&Self)>(self, f: F) -> (r: Self)
        ensures
            r == self,
            f.ensures((&self,), ()),
    {
        f(&self);
        self
    }
}

/// Limiting a number to a range.
pub trait ClampUtils {
    fn clamp_to(self, min: Self, max: Self) -> Self;
}

impl ClampUtils for i32 {
    /// `self` raised to at least `min`, then lowered to at most `max`; for
    /// `min > max` that is `max`.
    fn clamp_to(self, min: Self, max: Self) -> (r: Self)
        ensures
            r == (if self < min {
                if min > max { max } else { min }
            } else {
                if self > max { max } else { self }
            }),
    {
        self.max(min).min(max)
    }
}

/// Parity of any number type with `%` and a conversion from `u8`.
pub trait NumberUtils {
    /// Whether the parity of `self` can be computed without a panic.
    spec fn parity_defined(&self) -> bool;

    fn is_even(&self) -> bool
        requires
            self.parity_defined(),
    ;

    fn is_odd(&self) -> bool
        requires
            self.parity_defined(),
    ;
}

/// Whether `x % 2 == 0`, in `T`'s own arithmetic.
pub open spec fn rem_two_is_zero<T>(x: T) -> bool where
    T: Copy + PartialEq + core::ops::Rem<Output = T> + From<u8>,
 {
    x.rem_spec(T::from_spec(2u8)).eq_spec(&T::from_spec(0u8))
}

impl<T> NumberUtils for T where T: Copy + PartialEq + core::ops::Rem<Output = T> + From<u8> {
    open spec fn parity_defined(&self) -> bool {
        &&& T::obeys_from_spec()
        &&& self.rem_req(T::from_spec(2u8))
    }

    fn is_even(&self) -> (r: bool)
        ensures
            T::obeys_rem_spec() && T::obeys_eq_spec() ==> r == rem_two_is_zero(*self),
    {
        *self % T::from(2u8) == T::from(0u8)
    }

    fn is_odd(&self) -> (r: bool)
        ensures
            T::obeys_rem_spec() && T::obeys_eq_spec() ==> r == !rem_two_is_zero(*self),
    {
        *self % T::from(2u8) != T::from(0u8)
    }
}

/// Parity of a `u32`.
pub trait UNumberUtils {
    /// Whether the number is even.
    spec fn spec_even(&self) -> bool;

    fn is_even(&self) -> (r: bool)
        ensures
            r == self.spec_even(),
    ;

    fn is_odd(&self) -> (r: bool)
        ensures
            r == !self.spec_even(),
    ;
}

impl UNumberUtils for u32 {
    open spec fn spec_even(&self) -> bool {
        *self % 2 == 0
    }

    fn is_even(&self) -> bool {
        *self % 2 == 0
    }

    fn is_odd(&self) -> bool {
        *self % 2 != 0
    }
}

/// Exclusive or as a method.
pub trait BitwiseUtils<Rhs = Self> {
    fn xor(self, rhs: Rhs) -> Self;
}

impl BitwiseUtils for u32 {
    fn xor(self, rhs: Self) -> (r: Self)
        ensures
            r == self ^ rhs,
    {
        self ^ rhs
    }
}

} // verus!
