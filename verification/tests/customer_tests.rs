//! Tests for the customer agent state machine.

use cargo_sim::behavior::{Behavior, FlightOption};
use cargo_sim::customer::{
    pick_two, Customer, CustomerStatus, StepOutcome, CARGO_WEIGHT_G, INITIAL_RETRIES,
};
use cargo_sim::events::{CargoRequest, CustomerEvent, HttpMethod};

fn option(id: &str) -> FlightOption {
    FlightOption { fp_id: id.to_string(), base_pricing: None }
}

fn vertiports(ids: &[&str]) -> StepOutcome {
    StepOutcome::Vertiports(ids.iter().map(|s| s.to_string()).collect())
}

#[test]
fn generate_initial_state() {
    let c = Customer::generate("mistake", 1000, 7);
    assert_eq!(c.id, 7);
    assert_eq!(c.behavior, Behavior::Mistake);
    assert_eq!(c.status, CustomerStatus::Vertiports);
    assert_eq!(c.vertiport_depart_id, "");
    assert_eq!(c.vertiport_arrive_id, "");
    assert_eq!(c.current_time, 1000);
    assert_eq!(c.fp_id, "");
    assert!(c.flights.is_empty());
    assert_eq!(c.retries, INITIAL_RETRIES);
}

#[test]
fn generate_unknown_type_is_greedy() {
    let c = Customer::generate("daydreamer", 0, 1);
    assert_eq!(c.behavior, Behavior::Greedy);
}

#[test]
fn pick_two_gives_distinct_positions() {
    for r1 in 0..7u64 {
        for r2 in 0..7u64 {
            let (i, j) = pick_two(5, r1, r2);
            assert!(i < 5 && j < 5 && i != j);
            let (i2, j2) = pick_two(2, r1, r2);
            assert!(i2 < 2 && j2 < 2 && i2 != j2);
        }
    }
}

/// A mistake-policy agent against a service that always succeeds walks
/// the whole workflow and ends done, having confirmed one plan and then
/// cancelled that same plan.
#[test]
fn mistake_agent_confirms_and_cancels_one_plan() {
    let mut c = Customer::generate("mistake", 0, 0);

    // Vertiports phase: the step wants the vertiport listing.
    match c.next_call(0) {
        Some(CustomerEvent::CargoRequest(CargoRequest::Vertiports(q))) => {
            assert_eq!(q.latitude, 100_000_000);
            assert_eq!(q.longitude, 100_000_000);
        }
        other => panic!("expected a vertiport listing request, got {:?}", other.is_some()),
    }
    c.next_with(0, 0, vertiports(&["vp-a", "vp-b", "vp-c"]));
    assert_eq!(c.status, CustomerStatus::Query);
    // Draws (0, 0) pick positions 0 and 1.
    assert_eq!(c.vertiport_depart_id, "vp-a");
    assert_eq!(c.vertiport_arrive_id, "vp-b");

    // Query phase: the step wants flight options in the fixed window.
    match c.next_call(0) {
        Some(CustomerEvent::CargoRequest(CargoRequest::Query(q))) => {
            assert_eq!(q.vertiport_depart_id, "vp-a");
            assert_eq!(q.vertiport_arrive_id, "vp-b");
            assert_eq!(q.timestamp_depart_min, None);
            assert_eq!(q.timestamp_depart_max, None);
            assert_eq!(q.timestamp_arrive_min, Some(60));
            assert_eq!(q.timestamp_arrive_max, Some(600));
            assert_eq!(q.cargo_weight_g, CARGO_WEIGHT_G);
        }
        _ => panic!("expected a flight query request"),
    }
    c.next_with(0, 0, StepOutcome::Flights(vec![option("DRAFT-1"), option("DRAFT-2")]));
    assert_eq!(c.status, CustomerStatus::Confirm);
    assert_eq!(c.flights.len(), 2);

    // Confirm phase: the policy picks the first candidate.
    match c.next_call(0) {
        Some(CustomerEvent::CargoRequest(CargoRequest::Confirm(q))) => {
            assert_eq!(q.fp_id, "DRAFT-1");
        }
        _ => panic!("expected a confirmation request"),
    }
    c.next_with(0, 0, StepOutcome::Confirmed("PLAN-9".to_string()));
    assert_eq!(c.status, CustomerStatus::Cancel);
    assert_eq!(c.fp_id, "PLAN-9");

    // Cancel phase: the mistake policy always cancels, whatever the draw.
    match c.next_call(42) {
        Some(CustomerEvent::CargoRequest(CargoRequest::Cancel(q))) => {
            assert_eq!(q.fp_id, "PLAN-9");
        }
        _ => panic!("expected a cancellation request"),
    }
    c.next_with(0, 0, StepOutcome::Cancelled);
    assert_eq!(c.status, CustomerStatus::Done);
    assert_eq!(c.fp_id, "PLAN-9");
    assert_eq!(c.retries, INITIAL_RETRIES);

    // Terminal: no further request, and further steps change nothing.
    assert!(c.next_call(0).is_none());
    c.next_with(0, 0, StepOutcome::Failed);
    assert_eq!(c.status, CustomerStatus::Done);
}

#[test]
fn greedy_agent_skips_cancellation() {
    let mut c = Customer::generate("greedy", 0, 0);
    c.next_with(0, 0, vertiports(&["vp-a", "vp-b"]));
    c.next_with(0, 0, StepOutcome::Flights(vec![option("D")]));
    c.next_with(0, 0, StepOutcome::Confirmed("P".to_string()));
    assert_eq!(c.status, CustomerStatus::Cancel);
    // Greedy never cancels: the step needs no network call.
    assert!(c.next_call(99).is_none());
    c.next_with(0, 0, StepOutcome::NoCall);
    assert_eq!(c.status, CustomerStatus::Done);
    assert_eq!(c.fp_id, "P");
}

/// A failure in any phase costs one unit of budget; at zero the agent
/// is forced to the terminal state at once.
#[test]
fn budget_exhaustion_forces_done() {
    let mut c = Customer::generate("greedy", 0, 3);
    assert_eq!(c.retries, 1);
    c.next_with(0, 0, StepOutcome::Failed);
    assert_eq!(c.retries, 0);
    assert_eq!(c.status, CustomerStatus::Done);
}

#[test]
fn budget_counts_across_phases() {
    let mut c = Customer::generate("greedy", 0, 0);
    c.retries = 3;
    // One failure while listing vertiports.
    c.next_with(0, 0, StepOutcome::Failed);
    assert_eq!(c.retries, 2);
    assert_eq!(c.status, CustomerStatus::Vertiports);
    // Success moves on without restoring budget.
    c.next_with(0, 0, vertiports(&["a", "b"]));
    assert_eq!(c.status, CustomerStatus::Query);
    // An empty result set is a failure where at least one is required.
    c.next_with(0, 0, StepOutcome::Flights(Vec::new()));
    assert_eq!(c.retries, 1);
    assert_eq!(c.status, CustomerStatus::Query);
    // The shared counter runs out in a later phase.
    c.next_with(0, 0, StepOutcome::Failed);
    assert_eq!(c.retries, 0);
    assert_eq!(c.status, CustomerStatus::Done);
}

/// An indecisive agent never leaves the selection phase on its own and
/// is force-terminated once its budget is exhausted, never confirming.
#[test]
fn indecisive_agent_stuck_at_selection() {
    let mut c = Customer::generate("indecisive", 0, 0);
    c.retries = 3;
    c.next_with(0, 0, vertiports(&["a", "b"]));
    c.next_with(0, 0, StepOutcome::Flights(vec![option("D1"), option("D2")]));
    assert_eq!(c.status, CustomerStatus::Confirm);
    // Selection never happens: no request is wanted, every step fails.
    assert!(c.next_call(0).is_none());
    c.next_with(0, 0, StepOutcome::NoCall);
    assert_eq!(c.status, CustomerStatus::Confirm);
    assert_eq!(c.retries, 2);
    c.next_with(0, 0, StepOutcome::NoCall);
    assert_eq!(c.status, CustomerStatus::Confirm);
    assert_eq!(c.retries, 1);
    c.next_with(0, 0, StepOutcome::NoCall);
    assert_eq!(c.status, CustomerStatus::Done);
    assert_eq!(c.retries, 0);
    assert_eq!(c.fp_id, "");
}

#[test]
fn one_vertiport_is_not_enough() {
    let mut c = Customer::generate("greedy", 0, 0);
    c.next_with(0, 0, vertiports(&["only-one"]));
    assert_eq!(c.status, CustomerStatus::Done);
    assert_eq!(c.retries, 0);
    assert!(c.flights.is_empty());
}

#[test]
fn next_draws_internally_and_steps() {
    let mut c = Customer::generate("greedy", 0, 0);
    c.next(vertiports(&["vp-a", "vp-b"]));
    assert_eq!(c.status, CustomerStatus::Query);
    // Whatever positions the internal draws picked, they are distinct
    // members of the listing.
    assert_ne!(c.vertiport_depart_id, c.vertiport_arrive_id);
    for id in [&c.vertiport_depart_id, &c.vertiport_arrive_id] {
        assert!(id == "vp-a" || id == "vp-b");
    }
}

#[test]
fn query_window_tracks_agent_clock() {
    let mut c = Customer::generate("greedy", 5_000, 0);
    c.next_with(0, 0, vertiports(&["x", "y"]));
    match c.next_call(0) {
        Some(CustomerEvent::CargoRequest(CargoRequest::Query(q))) => {
            assert_eq!(q.timestamp_arrive_min, Some(5_060));
            assert_eq!(q.timestamp_arrive_max, Some(5_600));
        }
        _ => panic!("expected a flight query request"),
    }
}

#[test]
fn routing_of_agent_requests() {
    let mut c = Customer::generate("mistake", 0, 0);
    let call = c.next_call(0).expect("vertiports request");
    let (url, method) = cargo_sim::events::action_route(&call);
    assert_eq!(url, "http://0.0.0.0:8000/cargo/vertiports");
    assert_eq!(method, HttpMethod::Post);
    c.next_with(0, 0, vertiports(&["a", "b"]));
    let call = c.next_call(0).expect("query request");
    let (url, method) = cargo_sim::events::action_route(&call);
    assert_eq!(url, "http://0.0.0.0:8000/cargo/query");
    assert_eq!(method, HttpMethod::Post);
}
