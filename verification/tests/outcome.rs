use gql_promise::ExecutionOutcome;
use gql_promise::outcome_of;
use gql_promise::resolve_observation;

#[test]
fn present_data_classifies_as_payload() {
    let outcome = outcome_of(Some(2u32));
    assert!(matches!(outcome, ExecutionOutcome::Payload(2)));
    assert_eq!(outcome.into_data(), Some(2u32));
}

#[test]
fn absent_data_classifies_as_empty() {
    let outcome = outcome_of(None::<u32>);
    assert!(matches!(outcome, ExecutionOutcome::Empty));
    assert_eq!(outcome.into_data(), None);
}

#[test]
fn resolution_wins_over_stored_payload() {
    let stored = Some(9u8);
    let resolved: Option<u8> = None;
    assert_eq!(resolve_observation(Some(&resolved), &stored), &None);
}

#[test]
fn pending_observation_falls_back_to_stored() {
    let stored: Option<u8> = None;
    assert_eq!(resolve_observation(None, &stored), &None);
    let resolved = Some(4u8);
    assert_eq!(resolve_observation(Some(&resolved), &stored), &Some(4u8));
}
