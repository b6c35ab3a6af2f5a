use vstd::prelude::*;

use crate::model::HolderModel;
use crate::model::blocking_model;
use crate::model::cleared;
use crate::model::empty_model;
use crate::model::fetching_model;
use crate::model::get_model;
use crate::model::pending_model;
use crate::outcome::outcome_data;
use crate::outcome::outcome_model;

verus! {

/// Strategy transparency: once resolution is complete, `get` yields the same
/// payload whether the blocking strategy computed the outcome before the
/// holder was built or the non-blocking strategy's handle resolved to that
/// same outcome later, whatever observation the blocking holder is polled
/// under.
pub proof fn strategy_transparency<T>(outcome: Option<T>, observation: Option<Option<T>>)
    ensures
        get_model(blocking_model(outcome), observation) == get_model(
            pending_model::<T>(),
            Some(outcome),
        ),
{
}

/// Fetch reporting: a fetch is in flight exactly in a non-blocking holder
/// whose handle has not resolved. A blocking holder and an empty holder never
/// report a fetch, whatever the handle observation; a non-blocking holder
/// reports one until its handle resolves and none afterwards.
pub proof fn fetching_iff_pending_unresolved<T>(outcome: Option<T>, handle_resolved: bool)
    ensures
        !fetching_model(blocking_model(outcome), handle_resolved),
        !fetching_model(empty_model::<T>(), handle_resolved),
        fetching_model(pending_model::<T>(), false),
        !fetching_model(pending_model::<T>(), true),
{
}

/// Clearing is idempotent: the state after one `clear` is already the empty
/// state, so a second `clear` leaves it unchanged; and a cleared holder
/// yields no payload and reports no fetch in flight, whatever is observed.
pub proof fn clear_idempotent<T>(
    m: HolderModel<T>,
    observation: Option<Option<T>>,
    handle_resolved: bool,
)
    ensures
        cleared(cleared(m)) == cleared(m),
        cleared(m) == empty_model::<T>(),
        get_model(cleared(m), observation) is None,
        !fetching_model(cleared(m), handle_resolved),
{
}

/// Round trip: the `data` field of a decoded server response, classified into
/// an execution outcome and surfaced through either strategy, comes back from
/// `get` unchanged. A response with a payload yields exactly that payload
/// once resolution is complete, and a response without one yields nothing,
/// in both modes.
pub proof fn response_round_trip<T>(data: Option<T>, observation: Option<Option<T>>)
    ensures
        get_model(pending_model::<T>(), Some(outcome_data(outcome_model(data)))) == data,
        get_model(blocking_model(outcome_data(outcome_model(data))), observation) == data,
{
}

} // verus!
