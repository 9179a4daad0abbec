//! The task registry: a map from a user's identity to the handle of that
//! user's running tracking task.
//!
//! The registry holds at most one live handle per user. Registering over a
//! stale handle aborts it first, cancellation aborts and removes, and the
//! scheduler's own termination path removes without aborting. Cancelling a
//! user who has no entry is a no-op, never an error.

use vstd::prelude::*;
use std::collections::HashMap;
use tokio::task::JoinHandle;

verus! {

broadcast use vstd::std_specs::hash::group_hash_axioms;

/// Declares tokio's task handle type, so registry entries can carry it.
#[verifier::external_type_specification]
#[verifier::external_body]
#[verifier::reject_recursive_types(T)]
pub struct ExJoinHandle<T>(JoinHandle<T>);

/// Declares the error a finished task hands back through its handle; the
/// registry never reads one, but tokio's handle type mentions it.
#[verifier::external_type_specification]
#[verifier::external_body]
pub struct ExJoinError(tokio::task::JoinError);

/// Relies on tokio's `JoinHandle::abort`: asks the runtime to cancel the
/// task at its next yield point. Nothing is promised of the call's effect.
pub assume_specification<T>[ JoinHandle::<T>::abort ](handle: &JoinHandle<T>);

/// Registry of running tracking tasks, one per user at most.
#[verifier::reject_recursive_types(T)]
pub struct TaskRegistry<T> {
    tasks: HashMap<u64, JoinHandle<T>>,
}

impl<T> View for TaskRegistry<T> {
    type V = Map<u64, JoinHandle<T>>;

    closed spec fn view(&self) -> Map<u64, JoinHandle<T>> {
        self.tasks@
    }
}

impl<T> TaskRegistry<T> {
    /// An empty registry: nobody is being tracked.
    pub fn new() -> (r: Self)
        ensures
            r@ == Map::<u64, JoinHandle<T>>::empty(),
    {
        TaskRegistry { tasks: HashMap::new() }
    }

    /// Stores the handle of a freshly spawned tracking task. A stale handle
    /// left by the same user is aborted first, so that no user ever has two
    /// live sessions.
    pub fn register(&mut self, user_id: u64, handle: JoinHandle<T>)
        ensures
            final(self)@ == old(self)@.insert(user_id, handle),
    {
        let stale = self.tasks.insert(user_id, handle);
        match stale {
            Some(h) => h.abort(),
            None => (),
        }
    }

    /// Forced cancellation: aborts the user's task, if any, and drops its
    /// entry. Returns whether there was a task to cancel; on a user without
    /// an entry this is a no-op.
    pub fn cancel(&mut self, user_id: u64) -> (was_tracked: bool)
        ensures
            final(self)@ == old(self)@.remove(user_id),
            !final(self)@.contains_key(user_id),
            was_tracked == old(self)@.contains_key(user_id),
    {
        match self.tasks.remove(&user_id) {
            Some(h) => {
                h.abort();
                true
            },
            None => false,
        }
    }

    /// Drops a user's entry without aborting: the scheduler calls this for
    /// itself when it terminates naturally.
    pub fn remove(&mut self, user_id: u64)
        ensures
            final(self)@ == old(self)@.remove(user_id),
    {
        let _ = self.tasks.remove(&user_id);
    }

    /// Whether a user currently has a registered tracking task.
    pub fn is_tracking(&self, user_id: u64) -> (r: bool)
        ensures
            r == self@.contains_key(user_id),
    {
        self.tasks.contains_key(&user_id)
    }

    /// How many users have a registered tracking task.
    pub fn active_count(&self) -> (n: usize)
        ensures
            n == self@.dom().len(),
    {
        self.tasks.len()
    }
}

/// Cancellation is idempotent: a second cancellation of the same user finds
/// nothing and leaves the registry exactly as the first left it.
pub proof fn lemma_cancel_idempotent<T>(entries: Map<u64, JoinHandle<T>>, user_id: u64)
    ensures
        entries.remove(user_id).remove(user_id) =~= entries.remove(user_id),
        !entries.remove(user_id).contains_key(user_id),
{
}

} // verus!
