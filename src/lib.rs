//! Turns a `bool` into a `ControlFlow`, so that a guard can end the enclosing
//! function early with the `?` operator.
use std::ops::ControlFlow;
use vstd::prelude::*;

use private::Sealed;

mod private;

verus! {

/// The outcome of a guard: `Break(payload)` when `stop` holds, `Continue(())` otherwise.
pub open spec fn flow_of<T>(stop: bool, payload: T) -> ControlFlow<T, ()> {
    if stop {
        ControlFlow::Break(payload)
    } else {
        ControlFlow::Continue(())
    }
}

/// Converts a `bool` into a `ControlFlow`, ready for the `?` operator.
pub trait BoolFlow: Sealed {
    /// The truth value of `self`.
    spec fn holds(self) -> bool;

    /// Returns `ControlFlow::Break(())` if `self` is true.
    fn break_(self) -> (r: ControlFlow<()>)
        ensures
            r == flow_of(self.holds(), ()),
    ;

    /// Returns `ControlFlow::Break(value)` if `self` is true.
    fn break_with<T>(self, value: T) -> (r: ControlFlow<T>)
        ensures
            r == flow_of(self.holds(), value),
    ;

    /// Returns `ControlFlow::Break(f())` if `self` is true; `f` is called only then,
    /// so nothing is asked of `f` otherwise.
    fn break_lazy<T, F: FnOnce() -> T>(self, f: F) -> (r: ControlFlow<T>)
        requires
            self.holds() ==> f.requires(()),
        ensures
            match r {
                ControlFlow::Break(v) => self.holds() && f.ensures((), v),
                ControlFlow::Continue(u) => !self.holds() && u == (),
            },
    ;

    /// Returns `ControlFlow::Continue(())` if `self` is true, `ControlFlow::Break(())` otherwise.
    fn continue_(self) -> (r: ControlFlow<()>)
        ensures
            r == flow_of(!self.holds(), ()),
    ;

    /// Returns `ControlFlow::Continue(())` if `self` is true, `ControlFlow::Break(value)` otherwise.
    fn continue_or<T>(self, value: T) -> (r: ControlFlow<T>)
        ensures
            r == flow_of(!self.holds(), value),
    ;

    /// Returns `ControlFlow::Continue(())` if `self` is true, `ControlFlow::Break(f())`
    /// otherwise; `f` is called only then, so nothing is asked of `f` when `self` is true.
    fn continue_or_else<T, F: FnOnce() -> T>(self, f: F) -> (r: ControlFlow<T>)
        requires
            !self.holds() ==> f.requires(()),
        ensures
            match r {
                ControlFlow::Break(v) => !self.holds() && f.ensures((), v),
                ControlFlow::Continue(u) => self.holds() && u == (),
            },
    ;
}

impl BoolFlow for bool {
    open spec fn holds(self) -> bool {
        self
    }

    fn break_(self) -> (r: ControlFlow<()>)
        ensures
            r == flow_of(self, ()),
    {
        if self {
            ControlFlow::Break(())
        } else {
            ControlFlow::Continue(())
        }
    }

    fn break_with<T>(self, value: T) -> (r: ControlFlow<T>)
        ensures
            r == flow_of(self, value),
    {
        if self {
            ControlFlow::Break(value)
        } else {
            ControlFlow::Continue(())
        }
    }

    fn break_lazy<T, F: FnOnce() -> T>(self, f: F) -> (r: ControlFlow<T>)
        ensures
            match r {
                ControlFlow::Break(v) => self && f.ensures((), v),
                ControlFlow::Continue(u) => !self && u == (),
            },
    {
        if self {
            ControlFlow::Break(f())
        } else {
            ControlFlow::Continue(())
        }
    }

    fn continue_(self) -> (r: ControlFlow<()>)
        ensures
            r == flow_of(!self, ()),
    {
        if self {
            ControlFlow::Continue(())
        } else {
            ControlFlow::Break(())
        }
    }

    fn continue_or<T>(self, value: T) -> (r: ControlFlow<T>)
        ensures
            r == flow_of(!self, value),
    {
        if self {
            ControlFlow::Continue(())
        } else {
            ControlFlow::Break(value)
        }
    }

    fn continue_or_else<T, F: FnOnce() -> T>(self, f: F) -> (r: ControlFlow<T>)
        ensures
            match r {
                ControlFlow::Break(v) => !self && f.ensures((), v),
                ControlFlow::Continue(u) => self && u == (),
            },
    {
        if self {
            ControlFlow::Continue(())
        } else {
            ControlFlow::Break(f())
        }
    }
}

/// A guard breaks exactly when its condition holds, and the opposite guard
/// continues exactly then.
pub proof fn lemma_break_continue_opposite(b: bool)
    ensures
        flow_of(b, ()) is Break <==> b,
        flow_of(!b, ()) is Continue <==> b,
{
}

/// Whether a guard breaks or continues depends on its condition alone, never
/// on the payload it carries.
pub proof fn lemma_variant_ignores_payload<T>(b: bool, v1: T, v2: T)
    ensures
        flow_of(b, v1) is Break <==> flow_of(b, v2) is Break,
        flow_of(b, v1) is Continue <==> flow_of(b, v2) is Continue,
{
}

} // verus!
