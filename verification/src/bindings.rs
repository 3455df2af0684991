//! Ready-made callable bindings.
//!
//! [`Binding`] is a deterministic implementation of [`Invokable`] covering the
//! behaviours a host most often plugs into the store: a reducer that sums
//! actions into one keyed entry, action-rewriting and admission-control
//! middleware, a recording subscriber, and a binding whose result never
//! parses, which exercises both cancellation and the reducer fallback.

use vstd::prelude::*;
use crate::invokable::Invokable;
use crate::state::{State, StateView, lookup, put};
use crate::value::{DynValue, DynView};

verus! {

/// The integer a lookup yields, with absence read as zero.
pub open spec fn or_zero(v: Option<i64>) -> i64 {
    match v {
        Some(x) => x,
        None => 0,
    }
}

/// A deterministic callable binding.
pub enum Binding {
    /// A reducer: the next state is the received state with the action added
    /// (wrapping on overflow) to the entry at `key`; a missing entry counts as
    /// zero.
    AddToKey {
        /// The key of the entry the action is added to.
        key: String,
    },
    /// A middleware that doubles its action (wrapping) and forwards it.
    Double,
    /// A middleware that forwards its received action unchanged.
    PassThrough,
    /// A middleware that forwards non-negative actions unchanged and returns
    /// an unparseable result for every negative action, cancelling those
    /// dispatches.
    RejectNegative,
    /// A subscriber that records how often it was notified and the value at
    /// `key` in the state it last saw.
    Listen {
        /// The key whose value the subscriber records.
        key: String,
        /// How many notifications the subscriber has received (wrapping).
        notified: u64,
        /// The value at `key` in the most recently seen state.
        last: Option<i64>,
    },
    /// A binding whose result never parses as an action and never coerces to
    /// a state.
    Opaque,
}

impl Invokable for Binding {
    open spec fn response(&self, state: StateView, action: Option<i64>) -> DynView {
        match *self {
            Binding::AddToKey { key } => match action {
                Some(a) => DynView::Dict(
                    put(state, key@, or_zero(lookup(state, key@)).wrapping_add(a)),
                ),
                None => DynView::Unrecognized,
            },
            Binding::Double => match action {
                Some(a) => DynView::Int(a.wrapping_add(a)),
                None => DynView::Unrecognized,
            },
            Binding::PassThrough => match action {
                Some(a) => DynView::Int(a),
                None => DynView::Unrecognized,
            },
            Binding::RejectNegative => match action {
                Some(a) => if a < 0 {
                    DynView::Unrecognized
                } else {
                    DynView::Int(a)
                },
                None => DynView::Unrecognized,
            },
            Binding::Listen { .. } => DynView::Unrecognized,
            Binding::Opaque => DynView::Unrecognized,
        }
    }

    open spec fn advanced(&self, state: StateView, action: Option<i64>) -> Binding {
        match *self {
            Binding::Listen { key, notified, last } => Binding::Listen {
                key,
                notified: notified.wrapping_add(1),
                last: lookup(state, key@),
            },
            _ => *self,
        }
    }

    fn invoke(&mut self, state: &State, action: Option<i64>) -> (r: DynValue) {
        match self {
            Binding::AddToKey { key } => match action {
                Some(a) => {
                    let cur = match state.get(key) {
                        Some(v) => v,
                        None => 0,
                    };
                    let mut next = state.duplicate();
                    next.insert(key.clone(), cur.wrapping_add(a));
                    DynValue::Dict(next)
                },
                None => DynValue::Unrecognized,
            },
            Binding::Double => match action {
                Some(a) => DynValue::Int(a.wrapping_add(a)),
                None => DynValue::Unrecognized,
            },
            Binding::PassThrough => match action {
                Some(a) => DynValue::Int(a),
                None => DynValue::Unrecognized,
            },
            Binding::RejectNegative => match action {
                Some(a) => if a < 0 {
                    DynValue::Unrecognized
                } else {
                    DynValue::Int(a)
                },
                None => DynValue::Unrecognized,
            },
            Binding::Listen { key, notified, last } => {
                *notified = notified.wrapping_add(1);
                *last = state.get(key);
                DynValue::Unrecognized
            },
            Binding::Opaque => DynValue::Unrecognized,
        }
    }
}

/// The shipped pass-through middleware meets the pass-through law's
/// hypothesis: whatever state it is shown, it returns every action unchanged,
/// so by [`crate::laws::lemma_pass_through_law`] registering it anywhere in a
/// chain never alters the action that reaches the reducer.
pub proof fn lemma_pass_through_binding()
    ensures
        crate::laws::is_pass_through(Binding::PassThrough),
{
    assert forall|st: StateView, a: i64| #[trigger] Binding::PassThrough.response(
        st,
        Some(a),
    ) == DynView::Int(a) by {}
}

} // verus!
