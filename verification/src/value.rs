//! The dynamically-typed result a callable binding hands back to the store.
//!
//! The store never assumes a static result type: every consumed result is
//! re-interpreted explicitly, as an integer action by the middleware walk and
//! as a state value by the reducer application.

use vstd::prelude::*;
use crate::state::{State, StateView};

verus! {

/// A callable binding's result, already sorted into the only shapes the store
/// distinguishes: an integer, a state-like structured value, or anything else.
pub enum DynValue {
    /// A result that parses as an integer action.
    Int(i64),
    /// A result that coerces to a state value.
    Dict(State),
    /// Any other result, including an explicit absence-of-value signal.
    Unrecognized,
}

/// The mathematical value of a [`DynValue`].
pub enum DynView {
    /// An integer action.
    Int(i64),
    /// A state value.
    Dict(StateView),
    /// Anything else.
    Unrecognized,
}

impl View for DynValue {
    type V = DynView;

    open spec fn view(&self) -> DynView {
        match self {
            DynValue::Int(a) => DynView::Int(*a),
            DynValue::Dict(s) => DynView::Dict(s@),
            DynValue::Unrecognized => DynView::Unrecognized,
        }
    }
}

/// The state a reducer result yields: the value itself when it coerces to a
/// state, and the empty fallback state otherwise.
pub open spec fn reduced_state(r: DynView) -> StateView {
    match r {
        DynView::Dict(s) => s,
        _ => Seq::<(Seq<char>, i64)>::empty(),
    }
}

} // verus!
