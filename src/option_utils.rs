//! Shorthands on `Option`.
use vstd::prelude::*;

verus! {

/// Extension methods for `Option<T>`.
pub trait OptionUtils<T> {
    /// The option itself.
    spec fn held(self) -> Option<T>;

    /// The value inside `Some`, or `fallback` for `None`.
    fn or_default_with(self, fallback: T) -> T;

    /// Runs `f` on the value when there is one, and hands the option back.
    fn if_some<F: FnOnce(&T)>(self, f: F) -> Option<T>
        requires
            self.held() is Some ==> f.requires((&self.held()->Some_0,)),
    ;

    /// Runs `f` when the option is `None`.
    fn if_none<F: FnOnce()>(self, f: F)
        requires
            self.held() is None ==> f.requires(()),
    ;
}

impl<T> OptionUtils<T> for Option<T> {
    open spec fn held(self) -> Option<T> {
        self
    }

    fn or_default_with(self, fallback: T) -> (r: T)
        ensures
            r == (match self {
                Some(v) => v,
                None => fallback,
            }),
    {
        match self {
            Some(v) => v,
            None => fallback,
        }
    }

    fn if_some<F: FnOnce(&T)>(self, f: F) -> (r: Option<T>)
        ensures
            r == self,
            self is Some ==> f.ensures((&self->Some_0,), ()),
    {
        if let Some(ref val) = self {
            f(val);
        }
        self
    }

    fn if_none<F: FnOnce()>(self, f: F)
        ensures
            self is None ==> f.ensures((), ()),
    {
        if self.is_none() {
            f()
        }
    }
}

} // verus!
