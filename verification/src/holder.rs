use vstd::prelude::*;

use crate::model::HolderModel;
use crate::model::blocking_model;
use crate::model::cleared;
use crate::model::empty_model;
use crate::model::pending_model;
use poll_promise::Promise;

verus! {

#[verifier::external_type_specification]
#[verifier::external_body]
#[verifier::reject_recursive_types(T)]
pub struct ExPromise<T: Send + 'static>(Promise<T>);

/// Relies on `poll_promise::Promise::ready`: one poll of the handle, yielding
/// a reference to the sent outcome once the background task has sent it, and
/// nothing while the task is still running. When the task finishes depends on
/// the scheduler and the network, so nothing is promised of the result.
/// The call panics if the task dropped its sender without sending a value,
/// which is how an aborted fetch terminates the calling path.
#[verifier::external_body]
fn promise_ready<'a, T: Send + 'static>(promise: &'a Promise<Option<T>>) -> Option<&'a Option<T>> {
    promise.ready()
}

/// Relies on `poll_promise::Promise::poll`: reports whether the handle has
/// resolved. When the task finishes depends on the scheduler and the network,
/// so nothing is promised of the result. The call panics if the task dropped
/// its sender without sending a value, which is how an aborted fetch
/// terminates the calling path.
#[verifier::external_body]
fn promise_is_resolved<T: Send + 'static>(promise: &Promise<Option<T>>) -> bool {
    matches!(promise.poll(), std::task::Poll::Ready(_))
}

/// What `get` yields from one observation of the pending handle: the resolved
/// outcome if the observation is a resolution, and the holder's stored payload
/// (empty in non-blocking mode) while the handle is still pending.
pub fn resolve_observation<'a, T>(
    observation: Option<&'a Option<T>>,
    stored: &'a Option<T>,
) -> (r: &'a Option<T>)
    ensures
        observation matches Some(outcome) ==> *r == *outcome,
        observation is None ==> *r == *stored,
{
    match observation {
        Some(outcome) => outcome,
        None => stored,
    }
}

/// Holds the result of one GraphQL query for the caller to poll: either the
/// payload a blocking fetch already computed, or the handle of a non-blocking
/// fetch that resolves to its payload in the background.
#[verifier::reject_recursive_types(T)]
pub struct GqlPromiseData<T: Send + 'static> {
    data: Option<T>,
    promise: Option<Promise<Option<T>>>,
}

impl<T: Send + 'static> View for GqlPromiseData<T> {
    type V = HolderModel<T>;

    closed spec fn view(&self) -> HolderModel<T> {
        HolderModel { data: self.data, pending: self.promise is Some }
    }
}

impl<T: Send + 'static> GqlPromiseData<T> {
    /// The two fields are mode-partitioned: while a pending handle is
    /// installed, no payload is stored.
    #[verifier::type_invariant]
    spec fn mode_partitioned(self) -> bool {
        self.promise is Some ==> self.data is None
    }

    /// Wraps the outcome of a blocking fetch: the payload, or nothing when
    /// the response carried no data, is final immediately.
    pub fn from_data(data: Option<T>) -> (holder: Self)
        ensures
            holder@ == blocking_model(data),
    {
        GqlPromiseData { data, promise: None }
    }

    /// Wraps the handle of a non-blocking fetch: no payload is stored; the
    /// caller polls `get` and `is_fetching` until the handle resolves.
    pub fn from_promise(promise: Promise<Option<T>>) -> (holder: Self)
        ensures
            holder@ == pending_model::<T>(),
    {
        GqlPromiseData { data: None, promise: Some(promise) }
    }

    /// The fetched payload, if ready: in blocking mode the stored outcome,
    /// already final; in non-blocking mode the handle's outcome once it has
    /// resolved, and nothing while the fetch is still in flight.
    pub fn get(&self) -> (r: &Option<T>)
        ensures
            !self@.pending ==> *r == self@.data,
    {
        proof {
            use_type_invariant(self);
        }
        match &self.promise {
            Some(promise) => resolve_observation(promise_ready(promise), &self.data),
            None => &self.data,
        }
    }

    /// Discards the stored payload and the pending handle, if any. A handle
    /// discarded while its fetch is still in flight is detached, not
    /// cancelled: the background task's eventual outcome is silently dropped.
    pub fn clear(&mut self)
        ensures
            final(self)@ == cleared(old(self)@),
    {
        self.data = None;
        self.promise = None;
    }

    /// Whether a fetch is in flight: true exactly when a pending handle is
    /// installed and has not yet resolved; in particular, never in blocking
    /// mode and never after `clear`.
    pub fn is_fetching(&self) -> (fetching: bool)
        ensures
            fetching ==> self@.pending,
    {
        match &self.promise {
            Some(promise) => !promise_is_resolved(promise),
            None => false,
        }
    }
}

impl<T: Send + 'static> Default for GqlPromiseData<T> {
    /// A holder with nothing in it: no payload, no handle.
    fn default() -> (holder: Self)
        ensures
            holder@ == empty_model::<T>(),
    {
        GqlPromiseData { data: None, promise: None }
    }
}

} // verus!
