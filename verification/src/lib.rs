//! A single-process, in-memory state store with unidirectional data flow.
//!
//! The store holds one current [`state::State`] value and mutates it only in
//! response to dispatched integer actions.  Each action first runs through an
//! ordered middleware pipeline that may rewrite or cancel it, then a single
//! reducer computes the next state, and finally every registered subscriber is
//! notified with that new state.

pub mod bindings;
pub mod engine;
pub mod invokable;
pub mod laws;
pub mod state;
pub mod store;
pub mod value;
