//! The invocation capability the store depends on.
//!
//! A callable binding is an opaque reference to an invokable behaviour on some
//! target.  The store consumes it through a single primitive: invoke with an
//! argument list — the current state and, for middleware and reducers, an
//! action — and receive a dynamically-typed result.

use vstd::prelude::*;
use crate::state::{State, StateView};
use crate::value::{DynValue, DynView};

verus! {

/// A callable binding: the sole invocation primitive the store depends on.
///
/// Every invocation receives the current state and, when the caller is the
/// middleware walk or the reducer application, the action; subscribers are
/// notified with the state alone, so they receive `None` for the action.  An
/// implementation is a deterministic value: `response` says what result an
/// invocation returns and `advanced` what the binding itself becomes, and
/// `invoke` must meet both.
pub trait Invokable: Sized {
    /// The result an invocation returns, as a function of the binding, the
    /// state it is shown and the action it is handed.
    spec fn response(&self, state: StateView, action: Option<i64>) -> DynView;

    /// The binding after an invocation: bindings may carry internal state of
    /// their own, advanced once per invocation.
    spec fn advanced(&self, state: StateView, action: Option<i64>) -> Self;

    /// Invokes the binding with `(state, action)` and returns its
    /// dynamically-typed result.
    fn invoke(&mut self, state: &State, action: Option<i64>) -> (r: DynValue)
        ensures
            r@ == old(self).response(state@, action),
            *final(self) == old(self).advanced(state@, action),
    ;
}

} // verus!
