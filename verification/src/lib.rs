//! A small adapter that lets one piece of calling code issue a GraphQL query
//! and poll for its result, whether the fetch ran to completion on the calling
//! thread (blocking strategy) or was handed to a background task whose handle
//! is polled each tick (non-blocking strategy). The holder exposes one uniform
//! `get` / `clear` / `is_fetching` interface over both strategies.

pub mod holder;
pub mod laws;
pub mod model;
pub mod outcome;

pub use holder::GqlPromiseData;
pub use holder::resolve_observation;
pub use model::HolderModel;
pub use outcome::ExecutionOutcome;
pub use outcome::outcome_of;
