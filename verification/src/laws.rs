//! The store's general laws, stated over the dispatch model and proved once
//! for every store value, every binding type and every input.

use vstd::prelude::*;
use crate::engine::{HostReply, HostStep, spec_next};
use crate::invokable::Invokable;
use crate::state::StateView;
use crate::store::{StoreModel, chain_action, dispatch_model, run_chain, run_subs};
use crate::value::{DynView, reduced_state};

verus! {

/// Every subscriber from position `i` on is advanced exactly once by a
/// fan-out with state `st`, and the ones before position `i` are untouched.
pub proof fn lemma_run_subs_pointwise<C: Invokable>(subs: Seq<C>, st: StateView, i: int)
    requires
        0 <= i <= subs.len(),
    ensures
        run_subs(subs, st, i).len() == subs.len(),
        forall|j: int| 0 <= j < i ==> run_subs(subs, st, i)[j] == subs[j],
        forall|j: int|
            i <= j < subs.len() ==> run_subs(subs, st, i)[j] == subs[j].advanced(st, None),
    decreases subs.len() - i,
{
    if i < subs.len() {
        let upd = subs.update(i, subs[i].advanced(st, None));
        lemma_run_subs_pointwise(upd, st, i + 1);
        assert(run_subs(subs, st, i) == run_subs(upd, st, i + 1));
        assert forall|j: int| 0 <= j < i implies run_subs(subs, st, i)[j] == subs[j] by {
            assert(run_subs(upd, st, i + 1)[j] == upd[j]);
        }
        assert forall|j: int|
            i <= j < subs.len() implies run_subs(subs, st, i)[j] == subs[j].advanced(st, None) by {
            if j == i {
                assert(run_subs(upd, st, i + 1)[j] == upd[j]);
            } else {
                assert(run_subs(upd, st, i + 1)[j] == upd[j].advanced(st, None));
            }
        }
    }
}

/// The surviving action of a middleware walk depends only on the stages from
/// the current position on.
proof fn lemma_chain_action_suffix<C: Invokable>(
    s1: Seq<C>,
    s2: Seq<C>,
    st: StateView,
    i: int,
    a: i64,
)
    requires
        s1.len() == s2.len(),
        forall|j: int| i <= j < s1.len() ==> s1[j] == s2[j],
    ensures
        chain_action(s1, st, i, a) == chain_action(s2, st, i, a),
    decreases s1.len() - i,
{
    if 0 <= i < s1.len() {
        match s1[i].response(st, Some(a)) {
            DynView::Int(next) => lemma_chain_action_suffix(s1, s2, st, i + 1, next),
            _ => {},
        }
    }
}

/// The surviving action of [`run_chain`] is [`chain_action`]: how the invoked
/// stages themselves advance never feeds back into the action.
pub proof fn lemma_run_chain_action<C: Invokable>(mids: Seq<C>, st: StateView, i: int, a: i64)
    ensures
        run_chain(mids, st, i, a).1 == chain_action(mids, st, i, a),
    decreases mids.len() - i,
{
    if 0 <= i < mids.len() {
        let upd = mids.update(i, mids[i].advanced(st, Some(a)));
        match mids[i].response(st, Some(a)) {
            DynView::Int(next) => {
                lemma_run_chain_action(upd, st, i + 1, next);
                lemma_chain_action_suffix(upd, mids, st, i + 1, next);
            },
            _ => {},
        }
    }
}

/// A pass-through middleware: whatever state it is shown and whatever action
/// it is handed, it returns that action unchanged.
pub open spec fn is_pass_through<C: Invokable>(c: C) -> bool {
    forall|st: StateView, a: i64| #[trigger] c.response(st, Some(a)) == DynView::Int(a)
}

/// Inserting a pass-through stage at position `k` leaves the surviving action
/// unchanged, for the walk starting at any position `i` at or before `k`.
proof fn lemma_pass_through_insert<C: Invokable>(
    mids: Seq<C>,
    c: C,
    k: int,
    st: StateView,
    i: int,
    a: i64,
)
    requires
        is_pass_through(c),
        0 <= i <= k <= mids.len(),
    ensures
        chain_action(mids.insert(k, c), st, i, a) == chain_action(mids, st, i, a),
    decreases k - i,
{
    let ins = mids.insert(k, c);
    mids.insert_ensures(k, c);
    if i < k {
        match mids[i].response(st, Some(a)) {
            DynView::Int(next) => lemma_pass_through_insert(mids, c, k, st, i + 1, next),
            _ => {},
        }
    } else {
        assert(ins[k] == c);
        assert(c.response(st, Some(a)) == DynView::Int(a));
        lemma_pass_through_shifted(mids, c, k, st, i, a);
    }
}

/// Beyond the inserted stage, the walk over the longer chain mirrors the walk
/// over the original one, one position later.
proof fn lemma_pass_through_shifted<C: Invokable>(
    mids: Seq<C>,
    c: C,
    k: int,
    st: StateView,
    j: int,
    a: i64,
)
    requires
        0 <= k <= j <= mids.len(),
    ensures
        chain_action(mids.insert(k, c), st, j + 1, a) == chain_action(mids, st, j, a),
    decreases mids.len() - j,
{
    let ins = mids.insert(k, c);
    mids.insert_ensures(k, c);
    if j < mids.len() {
        assert(ins[j + 1] == mids[j]);
        match mids[j].response(st, Some(a)) {
            DynView::Int(next) => lemma_pass_through_shifted(mids, c, k, st, j + 1, next),
            _ => {},
        }
    }
}

/// Pass-through law: a middleware that returns its received action unchanged
/// does not alter the action that survives the middleware walk — so the
/// reducer sees the same action with or without that stage, at whatever
/// position it is registered.
pub proof fn lemma_pass_through_law<C: Invokable>(
    mids: Seq<C>,
    c: C,
    k: int,
    st: StateView,
    a: i64,
)
    requires
        is_pass_through(c),
        0 <= k <= mids.len(),
    ensures
        run_chain(mids.insert(k, c), st, 0, a).1 == run_chain(mids, st, 0, a).1,
{
    lemma_run_chain_action(mids.insert(k, c), st, 0, a);
    lemma_run_chain_action(mids, st, 0, a);
    lemma_pass_through_insert(mids, c, k, st, 0, a);
}

/// Reducer-only composition law: with an empty middleware chain, dispatching
/// the actions `actions[i..]` in order drives the state through exactly the
/// iterated reducer applications — the fold of the reducer over the action
/// sequence — and the chain stays empty throughout.
pub open spec fn run_actions<C: Invokable>(
    m: StoreModel<C>,
    actions: Seq<i64>,
    i: int,
) -> StoreModel<C>
    decreases actions.len() - i,
{
    if i < 0 || i >= actions.len() {
        m
    } else {
        run_actions(dispatch_model(m, actions[i]), actions, i + 1)
    }
}

/// The fold of a reducer over an action sequence: each step replaces the state
/// with the reduced result and advances the reducer binding itself.
pub open spec fn fold_reduce<C: Invokable>(
    st: StateView,
    red: C,
    actions: Seq<i64>,
    i: int,
) -> (StateView, C)
    decreases actions.len() - i,
{
    if i < 0 || i >= actions.len() {
        (st, red)
    } else {
        fold_reduce(
            reduced_state(red.response(st, Some(actions[i]))),
            red.advanced(st, Some(actions[i])),
            actions,
            i + 1,
        )
    }
}

/// Reducer-only composition law (see [`run_actions`] and [`fold_reduce`]).
pub proof fn lemma_reducer_only_composition<C: Invokable>(
    m: StoreModel<C>,
    red: C,
    actions: Seq<i64>,
    i: int,
)
    requires
        m.middleware.len() == 0,
        m.reducer == Some(red),
        0 <= i <= actions.len(),
    ensures
        run_actions(m, actions, i).state == fold_reduce(m.state, red, actions, i).0,
        run_actions(m, actions, i).reducer == Some(fold_reduce(m.state, red, actions, i).1),
        run_actions(m, actions, i).middleware.len() == 0,
    decreases actions.len() - i,
{
    if i < actions.len() {
        let a = actions[i];
        assert(run_chain(m.middleware, m.state, 0, a) == (m.middleware, Some(a)));
        lemma_reducer_only_composition(
            dispatch_model(m, a),
            red.advanced(m.state, Some(a)),
            actions,
            i + 1,
        );
    }
}

/// Cancellation law: when some middleware stage cancels the dispatch, the
/// state, the reducer binding and every subscriber are left exactly as they
/// were — no reducer application and no notification happens.
pub proof fn lemma_cancellation<C: Invokable>(m: StoreModel<C>, action: i64)
    requires
        m.reducer is Some,
        run_chain(m.middleware, m.state, 0, action).1 is None,
    ensures
        dispatch_model(m, action).state == m.state,
        dispatch_model(m, action).reducer == m.reducer,
        dispatch_model(m, action).subscriptions == m.subscriptions,
{
}

/// Fan-out law: for every dispatch that reaches the reducer, every subscriber
/// is advanced exactly once with the post-reducer state.  The model advances
/// them in ascending registration order ([`run_subs`]), and no subscriber is
/// skipped or visited twice.
pub proof fn lemma_fanout_order_and_count<C: Invokable>(m: StoreModel<C>, action: i64)
    requires
        m.reducer is Some,
        run_chain(m.middleware, m.state, 0, action).1 is Some,
    ensures
        dispatch_model(m, action).subscriptions.len() == m.subscriptions.len(),
        forall|j: int|
            0 <= j < m.subscriptions.len() ==> dispatch_model(m, action).subscriptions[j]
                == m.subscriptions[j].advanced(dispatch_model(m, action).state, None),
{
    lemma_run_subs_pointwise(m.subscriptions, dispatch_model(m, action).state, 0);
}

/// Reconfiguration law: right after `set_state_and_reducer` both pipelines are
/// empty, so a dispatch with no re-registration has no middleware to walk and
/// no subscriber to notify — only the reducer path runs.
pub proof fn lemma_reconfiguration_isolates<C: Invokable>(m: StoreModel<C>, action: i64)
    requires
        m.middleware.len() == 0,
        m.subscriptions.len() == 0,
    ensures
        dispatch_model(m, action).middleware.len() == 0,
        dispatch_model(m, action).subscriptions.len() == 0,
{
    if m.reducer is Some {
        assert(run_chain(m.middleware, m.state, 0, action) == (m.middleware, Some(action)));
    }
}

/// Reducer-fallback law: when the dispatch reaches the reducer but the
/// reducer's result does not coerce to a state, the post-dispatch state is the
/// empty state, and every subscriber is still notified once — with that empty
/// state.
pub proof fn lemma_reducer_fallback<C: Invokable>(m: StoreModel<C>, action: i64)
    requires
        m.reducer is Some,
        run_chain(m.middleware, m.state, 0, action).1 is Some,
        !(m.reducer->Some_0.response(
            m.state,
            Some(run_chain(m.middleware, m.state, 0, action).1->Some_0),
        ) is Dict),
    ensures
        dispatch_model(m, action).state == Seq::<(Seq<char>, i64)>::empty(),
        dispatch_model(m, action).subscriptions.len() == m.subscriptions.len(),
        forall|j: int|
            0 <= j < m.subscriptions.len() ==> dispatch_model(m, action).subscriptions[j]
                == m.subscriptions[j].advanced(Seq::<(Seq<char>, i64)>::empty(), None),
{
    lemma_run_subs_pointwise(m.subscriptions, Seq::<(Seq<char>, i64)>::empty(), 0);
}

/// The host-side reply a deterministic binding's result sorts into.
pub open spec fn reply_of(r: DynView) -> HostReply {
    match r {
        DynView::Int(x) => HostReply::Int(x),
        DynView::Dict(_) => HostReply::StateValue,
        DynView::Unrecognized => HostReply::Unrecognized,
    }
}

/// A host driving the engine schedule over the chain `mids`, from the step
/// that invokes stage `i` with action `a`: each stage is shown the fixed state
/// `st`, its reply is handed to the engine, and the walk follows the engine's
/// steps while they stay inside the chain.
pub open spec fn engine_walk<C: Invokable>(
    mids: Seq<C>,
    st: StateView,
    i: usize,
    a: i64,
    sub_count: usize,
) -> HostStep
    recommends
        mids.len() <= usize::MAX,
        i < mids.len(),
    decreases mids.len() - i,
{
    let step = spec_next(
        mids.len() as usize,
        sub_count,
        HostStep::RunMiddleware { index: i, action: a },
        reply_of(mids[i as int].response(st, Some(a))),
    );
    match step {
        HostStep::RunMiddleware { index, action } => if i < index < mids.len() {
            engine_walk(mids, st, index, action, sub_count)
        } else {
            step
        },
        _ => step,
    }
}

/// The engine schedule agrees with the store's middleware walk: driving the
/// engine with the replies a chain of deterministic bindings gives leads to
/// the reducer step exactly when an action survives the walk — and with that
/// surviving action — and to an idle dispatch exactly when some stage cancels.
pub proof fn lemma_engine_walk_agrees<C: Invokable>(
    mids: Seq<C>,
    st: StateView,
    i: usize,
    a: i64,
    sub_count: usize,
)
    requires
        mids.len() <= usize::MAX,
        i < mids.len(),
    ensures
        engine_walk(mids, st, i, a, sub_count) == (match chain_action(mids, st, i as int, a) {
            Some(survivor) => HostStep::RunReducer { action: survivor },
            None => HostStep::Idle,
        }),
    decreases mids.len() - i,
{
    match mids[i as int].response(st, Some(a)) {
        DynView::Int(next) => {
            if i + 1 < mids.len() {
                lemma_engine_walk_agrees(mids, st, (i + 1) as usize, next, sub_count);
            }
        },
        _ => {},
    }
}

} // verus!
