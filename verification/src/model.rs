use vstd::prelude::*;

verus! {

/// The abstract state of a result holder: the payload stored by the blocking
/// strategy, if any, and whether a pending fetch handle is installed by the
/// non-blocking strategy.
pub struct HolderModel<T> {
    pub data: Option<T>,
    pub pending: bool,
}

/// A holder built by the blocking strategy: the fetch outcome is already in
/// hand and no handle is installed.
pub open spec fn blocking_model<T>(outcome: Option<T>) -> HolderModel<T> {
    HolderModel { data: outcome, pending: false }
}

/// A holder built by the non-blocking strategy: no payload yet, a pending
/// handle installed.
pub open spec fn pending_model<T>() -> HolderModel<T> {
    HolderModel { data: None, pending: true }
}

/// A holder with nothing in it: no payload, no handle.
pub open spec fn empty_model<T>() -> HolderModel<T> {
    HolderModel { data: None, pending: false }
}

/// What `clear` leaves behind, whatever the state was.
pub open spec fn cleared<T>(m: HolderModel<T>) -> HolderModel<T> {
    empty_model()
}

/// What one observation of the pending handle yields: the resolved outcome
/// once the handle has resolved (`Some(outcome)`), nothing while it is still
/// pending (`None`).
pub open spec fn resolution_data<T>(observation: Option<Option<T>>) -> Option<T> {
    match observation {
        Some(outcome) => outcome,
        None => None,
    }
}

/// What `get` yields: the stored payload in blocking mode; in non-blocking
/// mode, whatever the current observation of the handle yields.
pub open spec fn get_model<T>(m: HolderModel<T>, observation: Option<Option<T>>) -> Option<T> {
    if m.pending {
        resolution_data(observation)
    } else {
        m.data
    }
}

/// Whether a fetch is in flight: a handle is installed and has not resolved.
pub open spec fn fetching_model<T>(m: HolderModel<T>, handle_resolved: bool) -> bool {
    m.pending && !handle_resolved
}

} // verus!
