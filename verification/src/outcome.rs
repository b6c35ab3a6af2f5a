use vstd::prelude::*;

verus! {

/// The outcome of one decoded request/response cycle against the endpoint:
/// the server either returned a payload under its `data` field, or answered
/// without one (for instance, GraphQL-level errors with no data).
pub enum ExecutionOutcome<T> {
    Payload(T),
    Empty,
}

/// How a decoded response's `data` field classifies: a present field is a
/// payload, an absent one is the empty outcome.
pub open spec fn outcome_model<T>(data: Option<T>) -> ExecutionOutcome<T> {
    match data {
        Some(payload) => ExecutionOutcome::Payload(payload),
        None => ExecutionOutcome::Empty,
    }
}

/// The payload carried by an outcome, if any.
pub open spec fn outcome_data<T>(outcome: ExecutionOutcome<T>) -> Option<T> {
    match outcome {
        ExecutionOutcome::Payload(payload) => Some(payload),
        ExecutionOutcome::Empty => None,
    }
}

/// Classifies the `data` field of a decoded response into an execution
/// outcome: a payload exactly when the field was present.
pub fn outcome_of<T>(data: Option<T>) -> (outcome: ExecutionOutcome<T>)
    ensures
        outcome == outcome_model(data),
{
    match data {
        Some(payload) => ExecutionOutcome::Payload(payload),
        None => ExecutionOutcome::Empty,
    }
}

impl<T> ExecutionOutcome<T> {
    /// The payload to store in a result holder: the payload of a `Payload`
    /// outcome, nothing for `Empty`.
    pub fn into_data(self) -> (data: Option<T>)
        ensures
            data == outcome_data(self),
    {
        match self {
            ExecutionOutcome::Payload(payload) => Some(payload),
            ExecutionOutcome::Empty => None,
        }
    }
}

} // verus!
