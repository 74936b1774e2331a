//! Tests for the event log player and the simulation clock.

use cargo_sim::clock::SimClock;
use cargo_sim::eel::{
    CargoRequest, CustomerEvent, Eel, EelEvent, EelEventType, EelPlayer,
};
use cargo_sim::events::{
    CargoRequest as ActionRequest, CustomerEvent as ActionEvent, FlightConfirm, HttpMethod,
};

fn confirm_event(fp: &str, t: i64) -> EelEvent {
    EelEvent {
        event: EelEventType::CustomerEvent(CustomerEvent::CargoRequest(
            CargoRequest::CargoConfirm(FlightConfirm { fp_id: fp.to_string() }),
        )),
        timestamp: t,
    }
}

#[test]
fn clock_maps_elapsed_wall_time() {
    let clock = SimClock::new(1_000, 5_000);
    assert_eq!(clock.now(5_000), 1_000);
    assert_eq!(clock.now(5_003), 1_003);
}

#[test]
fn clock_terminates_run_at_duration() {
    let clock = SimClock::new(1_000, 5_000);
    assert!(!clock.is_over(10, 5_000));
    assert!(!clock.is_over(10, 5_009));
    assert!(clock.is_over(10, 5_010));
    assert!(clock.is_over(10, 6_000));
    assert!(clock.is_over(0, 5_000));
}

#[test]
fn sorted_log_validates() {
    let eel = Eel { events: vec![confirm_event("a", 0), confirm_event("b", 0), confirm_event("c", 5)] };
    assert!(eel.is_sorted());
    let empty = Eel { events: Vec::new() };
    assert!(empty.is_sorted());
}

#[test]
fn unsorted_log_fails_validation() {
    let eel = Eel { events: vec![confirm_event("a", 5), confirm_event("b", 0)] };
    assert!(!eel.is_sorted());
}

/// Two events at t=0 and t=5, polled every simulated second from t=0:
/// the first releases on the first poll, the second only once the
/// simulated time has reached 5.
#[test]
fn player_releases_events_as_they_come_due() {
    let eel = Eel { events: vec![confirm_event("first", 0), confirm_event("second", 5)] };
    assert!(eel.is_sorted());
    let mut player = EelPlayer::new(eel);

    let (a, b) = player.poll(0);
    assert_eq!((a, b), (0, 1), "event 1 releases on the first poll");
    assert_eq!(player.event_at(0).timestamp, 0);

    for now in 1..5 {
        let (a, b) = player.poll(now);
        assert_eq!(a, b, "nothing releases while the head event is in the future");
        assert!(!player.exhausted());
    }

    let (a, b) = player.poll(5);
    assert_eq!((a, b), (1, 2), "event 2 releases once now() >= 5");
    assert_eq!(player.event_at(1).timestamp, 5);
    assert!(player.exhausted());

    // Further polls release nothing more: each event exactly once.
    let (a, b) = player.poll(100);
    assert_eq!((a, b), (2, 2));
}

#[test]
fn player_releases_batch_in_log_order() {
    let eel = Eel {
        events: vec![confirm_event("a", 1), confirm_event("b", 2), confirm_event("c", 9)],
    };
    let mut player = EelPlayer::new(eel);
    let (a, b) = player.poll(5);
    assert_eq!((a, b), (0, 2), "all due events release in one poll, in order");
    match &player.event_at(0).event {
        EelEventType::CustomerEvent(CustomerEvent::CargoRequest(CargoRequest::CargoConfirm(c))) => {
            assert_eq!(c.fp_id, "a");
        }
        _ => panic!("the first released event is the confirmation at t=1"),
    }
}

#[test]
fn player_never_releases_future_events() {
    let eel = Eel { events: vec![confirm_event("a", 10)] };
    let mut player = EelPlayer::new(eel);
    let (a, b) = player.poll(9);
    assert_eq!(a, b);
    assert!(!player.exhausted());
}

#[test]
fn logged_requests_replay_as_actions() {
    let create = CustomerEvent::CargoRequest(CargoRequest::CargoCreate(
        cargo_sim::events::FlightQuery {
            vertiport_depart_id: "d".to_string(),
            vertiport_arrive_id: "a".to_string(),
            timestamp_depart_min: None,
            timestamp_depart_max: None,
            timestamp_arrive_min: Some(60),
            timestamp_arrive_max: Some(600),
            cargo_weight_g: 1000,
        },
    ));
    let action = create.to_action();
    let (url, method) = cargo_sim::events::action_route(&action);
    assert_eq!(url, "http://0.0.0.0:8000/cargo/query");
    assert_eq!(method, HttpMethod::Post);
    match action {
        ActionEvent::CargoRequest(ActionRequest::Query(q)) => {
            assert_eq!(q.vertiport_depart_id, "d");
            assert_eq!(q.cargo_weight_g, 1000);
        }
        _ => panic!("a logged creation replays as a flight query"),
    }

    let cancel = CustomerEvent::CargoRequest(CargoRequest::CargoCancel(
        cargo_sim::events::FlightCancel { fp_id: "p1".to_string() },
    ));
    let (url, method) = cargo_sim::events::action_route(&cancel.to_action());
    assert_eq!(url, "http://0.0.0.0:8000/cargo/cancel");
    assert_eq!(method, HttpMethod::Delete);
}
