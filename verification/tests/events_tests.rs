//! Tests for request routing to the booking service.

use cargo_sim::events::{
    action_route, cargo_route, get_server_addr, CargoRequest, CustomerEvent, FlightCancel,
    FlightConfirm, FlightQuery, HttpMethod, VertiportsQuery,
};

fn sample_query() -> FlightQuery {
    FlightQuery {
        vertiport_depart_id: "dep".to_string(),
        vertiport_arrive_id: "arr".to_string(),
        timestamp_depart_min: None,
        timestamp_depart_max: None,
        timestamp_arrive_min: Some(60),
        timestamp_arrive_max: Some(600),
        cargo_weight_g: 1000,
    }
}

#[test]
fn server_addr_is_fixed() {
    assert_eq!(get_server_addr(), "http://0.0.0.0:8000");
}

#[test]
fn vertiports_routes_to_post() {
    let req = CargoRequest::Vertiports(VertiportsQuery { latitude: 100_000_000, longitude: 100_000_000 });
    let (url, method) = cargo_route(&req);
    assert_eq!(url, "http://0.0.0.0:8000/cargo/vertiports");
    assert_eq!(method, HttpMethod::Post);
}

#[test]
fn query_routes_to_post() {
    let (url, method) = cargo_route(&CargoRequest::Query(sample_query()));
    assert_eq!(url, "http://0.0.0.0:8000/cargo/query");
    assert_eq!(method, HttpMethod::Post);
}

#[test]
fn confirm_routes_to_put() {
    let req = CargoRequest::Confirm(FlightConfirm { fp_id: "x".to_string() });
    let (url, method) = cargo_route(&req);
    assert_eq!(url, "http://0.0.0.0:8000/cargo/confirm");
    assert_eq!(method, HttpMethod::Put);
}

#[test]
fn cancel_routes_to_delete() {
    let req = CargoRequest::Cancel(FlightCancel { fp_id: "x".to_string() });
    let (url, method) = cargo_route(&req);
    assert_eq!(url, "http://0.0.0.0:8000/cargo/cancel");
    assert_eq!(method, HttpMethod::Delete);
}

#[test]
fn action_route_unwraps_the_event() {
    let ev = CustomerEvent::CargoRequest(CargoRequest::Query(sample_query()));
    let (url, method) = action_route(&ev);
    assert_eq!(url, "http://0.0.0.0:8000/cargo/query");
    assert_eq!(method, HttpMethod::Post);
}
