//! The authorization of one transaction: a queue of pending requests that
//! every handle shares, and a registry of state paths that each handle owns.

use crate::error::AuthorizationError;
use crate::lock::exclusive;
use crate::lock::lock_exclusive;
use crate::lock::lock_shared;
use crate::lock::new_lock;
use crate::lock::share;
use crate::lock::shared;
use crate::queue::append;
use crate::queue::at_index;
use crate::queue::encoded;
use crate::queue::encodings;
use crate::queue::from_batch;
use crate::queue::front_of;
use crate::queue::peek_front;
use crate::queue::request_at;
use crate::queue::snapshot;
use crate::queue::take_front;
use crate::registry::empty_registry;
use crate::registry::entries;
use crate::registry::lemma_with_entry_keeps_one_each;
use crate::registry::one_entry_each;
use crate::registry::registry_copy;
use crate::registry::registry_insert;
use crate::registry::with_entry;
use crate::values::Commitment;
use crate::values::Request;
use crate::values::StatePath;
use indexmap::IndexMap;
use parking_lot::RwLock;
use std::collections::VecDeque;
use std::sync::Arc;
use vstd::prelude::*;

verus! {

/// The pending requests of one transaction and the state paths resolved so
/// far.
///
/// The queue lies behind a reader/writer lock and is shared by every clone
/// of a handle; each call takes the lock for itself, so what one call saw
/// may have changed before the next. The registry lies behind no lock: each
/// handle has its own, and changing it takes the handle by `&mut`.
/// `replicate` gives a handle that shares nothing with this one.
pub struct Authorization {
    /// The pending requests, shared with every clone of this handle.
    requests: Arc<RwLock<VecDeque<Request>>>,
    /// The state path of each resolved commitment; a clone gets a copy.
    state_paths: IndexMap<Commitment, StatePath>,
}

impl Authorization {
    #[verifier::type_invariant]
    spec fn registry_is_sound(self) -> bool {
        one_entry_each(entries(self.state_paths))
    }

    /// The entries of the registry, in the order in which their commitments
    /// first came.
    pub closed spec fn registered(&self) -> Seq<(Commitment, Seq<u8>)> {
        entries(self.state_paths)
    }

    /// Whether the two handles are on the same queue.
    pub closed spec fn shares_queue_with(&self, other: &Authorization) -> bool {
        self.requests == other.requests
    }

    /// An authorization whose queue holds `requests`, the first at the
    /// front, and whose registry is empty.
    pub fn new(requests: &[Request]) -> (authorization: Self)
        ensures
            authorization.registered() == Seq::<(Commitment, Seq<u8>)>::empty(),
    {
        let queue = from_batch(requests);
        Authorization { requests: Arc::new(new_lock(queue)), state_paths: empty_registry() }
    }

    /// An authorization of its own: its queue is a snapshot of this one's
    /// and is shared with nobody, and its registry is a copy.
    pub fn replicate(&self) -> (replica: Self)
        ensures
            replica.registered() == self.registered(),
    {
        proof {
            use_type_invariant(self);
        }
        let access = lock_shared(&self.requests);
        let queue = snapshot(shared(&access));
        Authorization {
            requests: Arc::new(new_lock(queue)),
            state_paths: registry_copy(&self.state_paths),
        }
    }

    /// A copy of the request at the front of the queue as it stands when the
    /// lock is held, or `EmptyQueue`.
    pub fn peek_next(&self) -> (res: Result<Request, AuthorizationError>)
        ensures
            exists|pending: Seq<Seq<u8>>| encoded(res) == #[trigger] front_of(pending),
    {
        let access = lock_shared(&self.requests);
        let queue = shared(&access);
        let res = peek_front(queue);
        assert(encoded(res) == front_of(encodings(queue@)));
        res
    }

    /// Takes the request at the front out of the queue as it stands when the
    /// lock is held, or fails with `EmptyQueue` and leaves the queue empty.
    pub fn next(&self) -> (res: Result<Request, AuthorizationError>)
        ensures
            exists|pending: Seq<Seq<u8>>| encoded(res) == #[trigger] front_of(pending),
    {
        let mut access = lock_exclusive(&self.requests);
        let queue = exclusive(&mut access);
        let ghost before = queue@;
        let res = take_front(queue);
        assert(encoded(res) == front_of(encodings(before)));
        res
    }

    /// A copy of the request at position `index` of the queue as it stands
    /// when the lock is held, or `IndexOutOfRange`.
    pub fn get(&self, index: usize) -> (res: Result<Request, AuthorizationError>)
        ensures
            exists|pending: Seq<Seq<u8>>| encoded(res) == #[trigger] at_index(pending, index),
    {
        let access = lock_shared(&self.requests);
        let queue = shared(&access);
        let res = request_at(queue, index);
        assert(encoded(res) == at_index(encodings(queue@), index));
        res
    }

    /// The `pending_count` of the queue as it stands when the lock is held.
    pub fn len(&self) -> (count: usize) {
        let access = lock_shared(&self.requests);
        crate::queue::pending_count(shared(&access))
    }

    /// The `none_pending` of the queue as it stands when the lock is held.
    pub fn is_empty(&self) -> (none: bool) {
        let access = lock_shared(&self.requests);
        crate::queue::none_pending(shared(&access))
    }

    /// Puts `request` at the back of the queue.
    pub fn push(&self, request: Request) {
        let mut access = lock_exclusive(&self.requests);
        append(exclusive(&mut access), request);
    }

    /// The `snapshot` of the queue as it stands when the lock is held.
    pub fn to_vec_deque(&self) -> (pending: VecDeque<Request>) {
        let access = lock_shared(&self.requests);
        snapshot(shared(&access))
    }

    /// The registry.
    pub fn state_paths(&self) -> (registry: &IndexMap<Commitment, StatePath>)
        ensures
            entries(*registry) == self.registered(),
            one_entry_each(entries(*registry)),
    {
        proof {
            use_type_invariant(self);
        }
        &self.state_paths
    }

    /// Registers `state_path` for `commitment`. The caller holds the
    /// authorization alone: the registry is behind no lock.
    pub fn insert_state_path(&mut self, commitment: Commitment, state_path: StatePath)
        ensures
            final(self).registered() == with_entry(
                old(self).registered(),
                commitment,
                state_path@,
            ),
            final(self).shares_queue_with(old(self)),
    {
        proof {
            use_type_invariant(&*self);
            lemma_with_entry_keeps_one_each(entries(self.state_paths), commitment, state_path@);
        }
        // The registry is taken out while it is changed, so that it lies
        // in `self` only when its commitments are distinct.
        let mut registry = empty_registry();
        core::mem::swap(&mut self.state_paths, &mut registry);
        let _ = registry_insert(&mut registry, commitment, state_path);
        core::mem::swap(&mut self.state_paths, &mut registry);
    }
}

impl Clone for Authorization {
    /// A second handle on the same queue, with a copy of the registry.
    fn clone(&self) -> (handle: Self)
        ensures
            handle.shares_queue_with(self),
            handle.registered() == self.registered(),
    {
        proof {
            use_type_invariant(self);
        }
        Authorization {
            requests: share(&self.requests),
            state_paths: registry_copy(&self.state_paths),
        }
    }
}

} // verus!
