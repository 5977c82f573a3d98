//! The reader/writer lock that guards a shared queue.
//!
//! What a lock holds can change between any two calls, through another
//! handle or another thread, so no contract here speaks of it. Verified code
//! takes the lock, works on the value behind it by an ordinary reference,
//! and lets the lock go when the access is dropped.

use parking_lot::lock_api;
use parking_lot::RawRwLock;
use parking_lot::RwLock;
use parking_lot::RwLockReadGuard;
use parking_lot::RwLockWriteGuard;
use std::sync::Arc;
use vstd::prelude::*;

verus! {

#[verifier::external_type_specification]
#[verifier::external_body]
pub struct ExRawRwLock(RawRwLock);

#[verifier::external_type_specification]
#[verifier::external_body]
#[verifier::reject_recursive_types(R)]
#[verifier::reject_recursive_types(T)]
pub struct ExRwLock<R, T: ?Sized>(lock_api::RwLock<R, T>);

/// A held read lock: `parking_lot::RwLockReadGuard`. The lock is released
/// when this value is dropped.
#[verifier::external_body]
#[verifier::reject_recursive_types(T)]
pub struct SharedAccess<'a, T> {
    guard: RwLockReadGuard<'a, T>,
}

/// A held write lock: `parking_lot::RwLockWriteGuard`. The lock is released
/// when this value is dropped.
#[verifier::external_body]
#[verifier::reject_recursive_types(T)]
pub struct ExclusiveAccess<'a, T> {
    guard: RwLockWriteGuard<'a, T>,
}

/// Calls `RwLock::new`: an unlocked lock around `value`. Nothing is claimed
/// of the lock.
#[verifier::external_body]
pub(crate) fn new_lock<T>(value: T) -> (lock: RwLock<T>) {
    RwLock::new(value)
}

/// Calls `RwLock::read`, which waits until no writer holds the lock. Nothing
/// is claimed of what the lock holds then. The caller's thread must hold no
/// access to this lock already.
#[verifier::external_body]
pub(crate) fn lock_shared<'a, T>(lock: &'a RwLock<T>) -> (access: SharedAccess<'a, T>) {
    SharedAccess { guard: lock.read() }
}

/// Dereferences the read guard: the value behind the lock, which nobody
/// changes while the access lives.
#[verifier::external_body]
pub(crate) fn shared<'g, 'a, T>(access: &'g SharedAccess<'a, T>) -> (value: &'g T) {
    &*access.guard
}

/// Calls `RwLock::write`, which waits until nobody else holds the lock.
/// Nothing is claimed of what the lock holds then. The caller's thread must
/// hold no access to this lock already.
#[verifier::external_body]
pub(crate) fn lock_exclusive<'a, T>(lock: &'a RwLock<T>) -> (access: ExclusiveAccess<'a, T>) {
    ExclusiveAccess { guard: lock.write() }
}

/// Dereferences the write guard: the value behind the lock, for the holder
/// to change. Nothing is claimed of it.
#[verifier::external_body]
pub(crate) fn exclusive<'g, 'a, T>(access: &'g mut ExclusiveAccess<'a, T>) -> (value: &'g mut T) {
    &mut *access.guard
}

/// Calls `Arc::clone`: a second pointer to the same lock.
#[verifier::external_body]
pub(crate) fn share<T>(handle: &Arc<RwLock<T>>) -> (copy: Arc<RwLock<T>>)
    ensures
        copy == *handle,
{
    Arc::clone(handle)
}

} // verus!
