//! The store and its dispatch engine.
//!
//! A dispatch walks the middleware chain in registration order, letting each
//! stage rewrite the action or cancel the dispatch, then applies the single
//! reducer to compute the next state (falling back to the empty state when the
//! reducer's result does not coerce to a state), and finally notifies every
//! subscriber, in registration order, with the new state.

use vstd::prelude::*;
use crate::invokable::Invokable;
use crate::state::{State, StateView};
use crate::value::{DynValue, DynView, reduced_state};

verus! {

/// The mathematical value of a [`Store`]: the current state together with the
/// reducer, middleware and subscriber bindings.
#[verifier::reject_recursive_types(C)]
#[verifier::ext_equal]
pub struct StoreModel<C> {
    /// The current state value.
    pub state: StateView,
    /// The reducer binding, if one has been configured.
    pub reducer: Option<C>,
    /// The middleware chain, in registration order.
    pub middleware: Seq<C>,
    /// The subscriber registry, in registration order.
    pub subscriptions: Seq<C>,
}

/// One complete middleware walk over `mids`, starting at position `i` with
/// action `a` and showing every stage the fixed state `st`.  Returns the chain
/// with every invoked stage advanced, together with the surviving action —
/// `None` when some stage cancelled the dispatch.
pub open spec fn run_chain<C: Invokable>(
    mids: Seq<C>,
    st: StateView,
    i: int,
    a: i64,
) -> (Seq<C>, Option<i64>)
    decreases mids.len() - i,
{
    if i < 0 || i >= mids.len() {
        (mids, Some(a))
    } else {
        match mids[i].response(st, Some(a)) {
            DynView::Int(next) => run_chain(
                mids.update(i, mids[i].advanced(st, Some(a))),
                st,
                i + 1,
                next,
            ),
            _ => (mids.update(i, mids[i].advanced(st, Some(a))), None),
        }
    }
}

/// The surviving action of a middleware walk alone, ignoring how the stages
/// themselves advance.  Agrees with [`run_chain`] (see the laws module).
pub open spec fn chain_action<C: Invokable>(mids: Seq<C>, st: StateView, i: int, a: i64) -> Option<
    i64,
>
    decreases mids.len() - i,
{
    if i < 0 || i >= mids.len() {
        Some(a)
    } else {
        match mids[i].response(st, Some(a)) {
            DynView::Int(next) => chain_action(mids, st, i + 1, next),
            _ => None,
        }
    }
}

/// One subscriber fan-out: every subscriber from position `i` on is advanced
/// once, in registration order, with the post-reducer state `st`.
pub open spec fn run_subs<C: Invokable>(subs: Seq<C>, st: StateView, i: int) -> Seq<C>
    decreases subs.len() - i,
{
    if i < 0 || i >= subs.len() {
        subs
    } else {
        run_subs(subs.update(i, subs[i].advanced(st, None)), st, i + 1)
    }
}

/// One reducer application with the surviving action `a`, followed by the
/// subscriber fan-out: the reducer's result replaces the state (the empty
/// state stands in when it does not coerce), the reducer advances once, and
/// every subscriber advances once with the new state.
pub open spec fn apply_reducer_model<C: Invokable>(m: StoreModel<C>, a: i64) -> StoreModel<C>
    recommends
        m.reducer is Some,
{
    match m.reducer {
        Some(red) => {
            let st2 = reduced_state(red.response(m.state, Some(a)));
            StoreModel {
                state: st2,
                reducer: Some(red.advanced(m.state, Some(a))),
                middleware: m.middleware,
                subscriptions: run_subs(m.subscriptions, st2, 0),
            }
        },
        None => m,
    }
}

/// One complete dispatch of `action` against the store value `m`.
///
/// A dispatch before any reducer is configured leaves the store unchanged and
/// invokes nothing: that is this store's policy for the missing-reducer
/// failure, chosen so that no configured state is ever corrupted.  Otherwise
/// the middleware walk runs first; if some stage cancels, nothing further is
/// invoked, and if an action survives, the reducer applies it and the
/// subscribers are notified.
pub open spec fn dispatch_model<C: Invokable>(m: StoreModel<C>, action: i64) -> StoreModel<C> {
    if m.reducer is None {
        m
    } else {
        let walked = run_chain(m.middleware, m.state, 0, action);
        match walked.1 {
            Some(a) => apply_reducer_model(
                StoreModel {
                    state: m.state,
                    reducer: m.reducer,
                    middleware: walked.0,
                    subscriptions: m.subscriptions,
                },
                a,
            ),
            None => StoreModel {
                state: m.state,
                reducer: m.reducer,
                middleware: walked.0,
                subscriptions: m.subscriptions,
            },
        }
    }
}

/// A centralized, observable state store with unidirectional mutation.
///
/// It holds exactly one current state value, at most one reducer binding, an
/// ordered middleware chain and an ordered subscriber registry, and mutates
/// the state only through [`Store::dispatch`].
#[verifier::reject_recursive_types(C)]
pub struct Store<C: Invokable> {
    state: State,
    reducer: Option<C>,
    middleware: Vec<C>,
    subscriptions: Vec<C>,
}

impl<C: Invokable> Store<C> {
    /// The mathematical value of the store.
    pub closed spec fn model(&self) -> StoreModel<C> {
        StoreModel {
            state: self.state@,
            reducer: self.reducer,
            middleware: self.middleware@,
            subscriptions: self.subscriptions@,
        }
    }

    /// An unconfigured store: empty state, no reducer, no middleware, no
    /// subscribers.
    pub fn new() -> (s: Store<C>)
        ensures
            s.model() == (StoreModel {
                state: Seq::<(Seq<char>, i64)>::empty(),
                reducer: None::<C>,
                middleware: Seq::<C>::empty(),
                subscriptions: Seq::<C>::empty(),
            }),
    {
        let s = Store {
            state: State::new(),
            reducer: None,
            middleware: Vec::new(),
            subscriptions: Vec::new(),
        };
        proof {
            assert(s.model() =~= (StoreModel {
                state: Seq::<(Seq<char>, i64)>::empty(),
                reducer: None::<C>,
                middleware: Seq::<C>::empty(),
                subscriptions: Seq::<C>::empty(),
            }));
        }
        s
    }

    /// Creates or replaces the whole configuration: the state is replaced by
    /// `initial_state`, the reducer binding by `reducer`, and both the
    /// middleware chain and the subscriber registry are cleared.
    pub fn set_state_and_reducer(&mut self, initial_state: State, reducer: C)
        ensures
            final(self).model() == (StoreModel {
                state: initial_state@,
                reducer: Some(reducer),
                middleware: Seq::<C>::empty(),
                subscriptions: Seq::<C>::empty(),
            }),
    {
        self.state = initial_state;
        self.reducer = Some(reducer);
        self.middleware.clear();
        self.subscriptions.clear();
        proof {
            assert(self.model() =~= (StoreModel {
                state: initial_state@,
                reducer: Some(reducer),
                middleware: Seq::<C>::empty(),
                subscriptions: Seq::<C>::empty(),
            }));
        }
    }

    /// Returns an independent copy of the current state (copy-on-read, so no
    /// caller can mutate store-internal state out of band).
    pub fn state(&self) -> (s: State)
        ensures
            s@ == self.model().state,
    {
        self.state.duplicate()
    }

    /// Appends a middleware binding to the end of the chain.
    pub fn add_middleware(&mut self, middleware: C)
        ensures
            final(self).model() == (StoreModel {
                state: old(self).model().state,
                reducer: old(self).model().reducer,
                middleware: old(self).model().middleware.push(middleware),
                subscriptions: old(self).model().subscriptions,
            }),
    {
        self.middleware.push(middleware);
        proof {
            assert(self.model() =~= (StoreModel {
                state: old(self).model().state,
                reducer: old(self).model().reducer,
                middleware: old(self).model().middleware.push(middleware),
                subscriptions: old(self).model().subscriptions,
            }));
        }
    }

    /// Appends a subscriber binding to the end of the registry.
    pub fn subscribe(&mut self, subscriber: C)
        ensures
            final(self).model() == (StoreModel {
                state: old(self).model().state,
                reducer: old(self).model().reducer,
                middleware: old(self).model().middleware,
                subscriptions: old(self).model().subscriptions.push(subscriber),
            }),
    {
        self.subscriptions.push(subscriber);
        proof {
            assert(self.model() =~= (StoreModel {
                state: old(self).model().state,
                reducer: old(self).model().reducer,
                middleware: old(self).model().middleware,
                subscriptions: old(self).model().subscriptions.push(subscriber),
            }));
        }
    }

    /// The number of registered middleware bindings.
    pub fn middleware_count(&self) -> (n: usize)
        ensures
            n == self.model().middleware.len(),
    {
        self.middleware.len()
    }

    /// The number of registered subscriber bindings.
    pub fn subscriber_count(&self) -> (n: usize)
        ensures
            n == self.model().subscriptions.len(),
    {
        self.subscriptions.len()
    }

    /// A view of the subscriber binding at position `i`, in registration
    /// order.
    pub fn subscriber_at(&self, i: usize) -> (c: &C)
        requires
            i < self.model().subscriptions.len(),
        ensures
            *c == self.model().subscriptions[i as int],
    {
        &self.subscriptions[i]
    }

    /// A view of the middleware binding at position `i`, in registration
    /// order.
    pub fn middleware_at(&self, i: usize) -> (c: &C)
        requires
            i < self.model().middleware.len(),
        ensures
            *c == self.model().middleware[i as int],
    {
        &self.middleware[i]
    }

    /// Dispatches an action: middleware walk, then at most one reducer
    /// application, then — exactly when the reducer was applied — the
    /// subscriber fan-out.  Nothing is surfaced to the caller; cancellation
    /// and the reducer fallback are internal policy.
    pub fn dispatch(&mut self, action: i64)
        ensures
            final(self).model() == dispatch_model(old(self).model(), action),
    {
        if self.reducer.is_none() {
            return;
        }
        if self.middleware.is_empty() {
            let ghost m0 = self.model();
            self.dispatch_reducer(action);
            proof {
                assert((StoreModel {
                    state: m0.state,
                    reducer: m0.reducer,
                    middleware: m0.middleware,
                    subscriptions: m0.subscriptions,
                }) =~= m0);
            }
        } else {
            self.dispatch_middleware(action);
        }
    }

    /// The middleware walk: shows every stage the current state and the action
    /// as rewritten so far; a stage whose result parses as an integer forwards
    /// that integer, any other result cancels the whole dispatch.
    fn dispatch_middleware(&mut self, action: i64)
        requires
            old(self).model().reducer is Some,
        ensures
            final(self).model() == dispatch_model(old(self).model(), action),
    {
        let mut i: usize = 0;
        let mut a: i64 = action;
        while i < self.middleware.len()
            invariant
                0 <= i <= self.middleware.len(),
                self.state == old(self).state,
                self.reducer == old(self).reducer,
                self.subscriptions == old(self).subscriptions,
                old(self).model().reducer is Some,
                run_chain(old(self).middleware@, old(self).state@, 0, action) == run_chain(
                    self.middleware@,
                    old(self).state@,
                    i as int,
                    a,
                ),
            decreases self.middleware.len() - i,
        {
            let ghost mids_pre = self.middleware@;
            let c = &mut self.middleware[i];
            let resp = c.invoke(&self.state, Some(a));
            match resp {
                DynValue::Int(next) => {
                    a = next;
                    i += 1;
                },
                _ => {
                    // The result does not parse as an action: the dispatch is
                    // cancelled; no reducer call, no subscriber notification.
                    proof {
                        assert(run_chain(mids_pre, old(self).state@, i as int, a) == (
                            self.middleware@,
                            None::<i64>,
                        ));
                        assert(self.model() =~= dispatch_model(old(self).model(), action));
                    }
                    return;
                },
            }
        }
        let ghost mids2 = self.middleware@;
        let ghost m1 = self.model();
        self.dispatch_reducer(a);
        proof {
            assert(run_chain(mids2, old(self).state@, i as int, a) == (mids2, Some(a)));
            assert(m1 =~= (StoreModel {
                state: old(self).model().state,
                reducer: old(self).model().reducer,
                middleware: mids2,
                subscriptions: old(self).model().subscriptions,
            }));
        }
    }

    /// The reducer application: invokes the reducer with the current state and
    /// the surviving action, replaces the state with the result when it
    /// coerces to a state and with the empty state otherwise, and proceeds
    /// unconditionally to the subscriber fan-out.
    fn dispatch_reducer(&mut self, action: i64)
        requires
            old(self).model().reducer is Some,
        ensures
            final(self).model() == apply_reducer_model(old(self).model(), action),
    {
        let mut red = self.reducer.take().unwrap();
        let resp = red.invoke(&self.state, Some(action));
        self.reducer = Some(red);
        let new_state = match resp {
            DynValue::Dict(s) => s,
            DynValue::Int(_) => State::new(),
            DynValue::Unrecognized => State::new(),
        };
        self.state = new_state;
        self.dispatch_subscriptions();
        proof {
            assert(self.model() =~= apply_reducer_model(old(self).model(), action));
        }
    }

    /// The subscriber fan-out: every subscriber is invoked exactly once, in
    /// registration order, with the current (post-reducer) state as its sole
    /// argument; return values are ignored.
    fn dispatch_subscriptions(&mut self)
        ensures
            final(self).model() == (StoreModel {
                state: old(self).model().state,
                reducer: old(self).model().reducer,
                middleware: old(self).model().middleware,
                subscriptions: run_subs(
                    old(self).model().subscriptions,
                    old(self).model().state,
                    0,
                ),
            }),
    {
        let mut j: usize = 0;
        while j < self.subscriptions.len()
            invariant
                0 <= j <= self.subscriptions.len(),
                self.state == old(self).state,
                self.reducer == old(self).reducer,
                self.middleware == old(self).middleware,
                run_subs(old(self).subscriptions@, old(self).state@, 0) == run_subs(
                    self.subscriptions@,
                    old(self).state@,
                    j as int,
                ),
            decreases self.subscriptions.len() - j,
        {
            let c = &mut self.subscriptions[j];
            let _ignored = c.invoke(&self.state, None);
            j += 1;
        }
        proof {
            assert(self.model() =~= (StoreModel {
                state: old(self).model().state,
                reducer: old(self).model().reducer,
                middleware: old(self).model().middleware,
                subscriptions: run_subs(
                    old(self).model().subscriptions,
                    old(self).model().state,
                    0,
                ),
            }));
        }
    }
}

} // verus!
