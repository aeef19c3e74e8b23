//! The reader-writer lock around a window's state.
//!
//! Nothing in this file is proved: each function is one call into
//! `parking_lot` or `std::sync`, and Verus takes its contract on trust. The
//! contracts promise nothing about what the lock holds at a given moment,
//! since another thread may write at any time. What verified code knows of a
//! state it has read, it knows from the state's own invariant.

use vstd::prelude::*;
use std::sync::Arc;
use parking_lot::RwLock;
use crate::state::WindowState;

verus! {

/// `lock_api::RwLock`, the type behind `parking_lot::RwLock`. Verus sees no
/// field of it.
#[verifier::external_type_specification]
#[verifier::external_body]
#[verifier::reject_recursive_types(R)]
#[verifier::reject_recursive_types(T)]
pub struct ExRwLock<R, T: ?Sized>(lock_api::RwLock<R, T>);

/// `parking_lot::RawRwLock`, the lock word of `parking_lot::RwLock`.
#[verifier::external_type_specification]
#[verifier::external_body]
pub struct ExRawRwLock(parking_lot::RawRwLock);

/// Calls `RwLock::new`: a fresh, unlocked lock around `state`.
///
/// No claim is made about the result.
#[verifier::external_body]
pub(crate) fn new_lock(state: WindowState) -> RwLock<WindowState> {
    RwLock::new(state)
}

/// Calls `RwLock::read`, copies the state out and drops the guard.
///
/// The call blocks while a writer holds the lock. It returns because no guard
/// of this crate outlives the function that took it. No claim is made about
/// the result: it is whatever state was stored last.
#[verifier::external_body]
pub(crate) fn read_state(lock: &RwLock<WindowState>) -> WindowState {
    *lock.read()
}

/// Calls `RwLock::write`, replaces the state and drops the guard.
///
/// The call blocks while any reader or writer holds the lock. The whole
/// record is replaced in one critical section.
#[verifier::external_body]
pub(crate) fn write_state(lock: &RwLock<WindowState>, state: WindowState) {
    *lock.write() = state;
}

/// Calls `Arc::clone`: a second pointer to the same lock.
///
/// The contract claims that the result points at the very lock `lock` points
/// at, which to Verus is equality of the two pointers.
#[verifier::external_body]
pub(crate) fn share_lock(lock: &Arc<RwLock<WindowState>>) -> (r: Arc<RwLock<WindowState>>)
    ensures
        r == *lock,
{
    Arc::clone(lock)
}

} // verus!
