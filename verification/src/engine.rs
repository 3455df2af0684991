//! The dispatch schedule for hosts whose callable bindings live outside this
//! library.
//!
//! A host that cannot hand the store an [`crate::invokable::Invokable`] value
//! — because its callables are opaque references into a scripting runtime —
//! can still run the exact dispatch policy: it asks [`begin`] for the first
//! step of a dispatch, performs each prescribed invocation itself, sorts the
//! result into a [`HostReply`], and asks [`next`] for the following step until
//! [`HostStep::Idle`] comes back.  Every decision — walk order, cancellation,
//! when the reducer runs, the fallback on a malformed reducer result, and the
//! fan-out order — is taken here, verified; the host only performs the calls.

use vstd::prelude::*;

verus! {

/// The next invocation a dispatch asks its host to perform.
#[derive(Clone, Copy, Debug, PartialEq, Eq, Structural)]
pub enum HostStep {
    /// Invoke the middleware at `index` with the current state and `action`.
    RunMiddleware {
        /// The position of the middleware to invoke, in registration order.
        index: usize,
        /// The action, as rewritten by the stages already walked.
        action: i64,
    },
    /// Invoke the reducer with the current state and the surviving `action`,
    /// then replace the state: with the result if it coerces to a state, and
    /// with the empty state otherwise (see [`reducer_accepts`]).
    RunReducer {
        /// The action that survived the middleware walk.
        action: i64,
    },
    /// Notify the subscriber at `index` with the new state; ignore its result.
    RunSubscriber {
        /// The position of the subscriber to notify, in registration order.
        index: usize,
    },
    /// The dispatch is over; nothing further may be invoked for it.
    Idle,
}

/// A host-side invocation result, sorted into the only shapes the dispatch
/// policy distinguishes.
#[derive(Clone, Copy, Debug, PartialEq, Eq, Structural)]
pub enum HostReply {
    /// The result parsed as an integer action.
    Int(i64),
    /// The result coerced to a state value.
    StateValue,
    /// Any other result, including an absence-of-value signal.
    Unrecognized,
}

/// The first step of a dispatch: with no reducer configured nothing at all is
/// invoked; with an empty middleware chain the reducer is applied directly;
/// otherwise the middleware walk starts at position zero.
pub open spec fn spec_begin(mid_count: usize, has_reducer: bool, action: i64) -> HostStep {
    if !has_reducer {
        HostStep::Idle
    } else if mid_count == 0 {
        HostStep::RunReducer { action }
    } else {
        HostStep::RunMiddleware { index: 0, action }
    }
}

/// The step after `current`, given the reply to it.  A middleware reply that
/// parses as an integer forwards that integer to the next stage or, after the
/// last stage, to the reducer; any other middleware reply cancels the
/// dispatch.  After the reducer the subscribers are visited in ascending
/// order, whatever the reducer replied.  A step whose index is out of range,
/// like any step after [`HostStep::Idle`], yields [`HostStep::Idle`].
pub open spec fn spec_next(
    mid_count: usize,
    sub_count: usize,
    current: HostStep,
    reply: HostReply,
) -> HostStep {
    match current {
        HostStep::RunMiddleware { index, action } => if index >= mid_count {
            HostStep::Idle
        } else {
            match reply {
                HostReply::Int(next) => if index + 1 == mid_count {
                    HostStep::RunReducer { action: next }
                } else {
                    HostStep::RunMiddleware { index: (index + 1) as usize, action: next }
                },
                _ => HostStep::Idle,
            }
        },
        HostStep::RunReducer { .. } => if sub_count == 0 {
            HostStep::Idle
        } else {
            HostStep::RunSubscriber { index: 0 }
        },
        HostStep::RunSubscriber { index } => if index < sub_count && index + 1 < sub_count {
            HostStep::RunSubscriber { index: (index + 1) as usize }
        } else {
            HostStep::Idle
        },
        HostStep::Idle => HostStep::Idle,
    }
}

/// The first step of a dispatch (see [`spec_begin`]).
pub fn begin(mid_count: usize, has_reducer: bool, action: i64) -> (s: HostStep)
    ensures
        s == spec_begin(mid_count, has_reducer, action),
{
    if !has_reducer {
        HostStep::Idle
    } else if mid_count == 0 {
        HostStep::RunReducer { action }
    } else {
        HostStep::RunMiddleware { index: 0, action }
    }
}

/// The step after `current`, given the reply to it (see [`spec_next`]).
pub fn next(mid_count: usize, sub_count: usize, current: HostStep, reply: HostReply) -> (s:
    HostStep)
    ensures
        s == spec_next(mid_count, sub_count, current, reply),
{
    match current {
        HostStep::RunMiddleware { index, action: _ } => {
            if index >= mid_count {
                HostStep::Idle
            } else {
                match reply {
                    HostReply::Int(next_action) => {
                        if index + 1 == mid_count {
                            HostStep::RunReducer { action: next_action }
                        } else {
                            HostStep::RunMiddleware { index: index + 1, action: next_action }
                        }
                    },
                    _ => HostStep::Idle,
                }
            }
        },
        HostStep::RunReducer { .. } => {
            if sub_count == 0 {
                HostStep::Idle
            } else {
                HostStep::RunSubscriber { index: 0 }
            }
        },
        HostStep::RunSubscriber { index } => {
            if index < sub_count && index < sub_count - 1 {
                HostStep::RunSubscriber { index: index + 1 }
            } else {
                HostStep::Idle
            }
        },
        HostStep::Idle => HostStep::Idle,
    }
}

/// Whether the reducer's reply coerces to a state: when it does the host keeps
/// it as the new state, and when it does not the host must fall back to the
/// empty state.  Either way the subscribers are notified next.
pub fn reducer_accepts(reply: &HostReply) -> (b: bool)
    ensures
        b <==> (*reply is StateValue),
{
    match reply {
        HostReply::StateValue => true,
        _ => false,
    }
}

} // verus!
