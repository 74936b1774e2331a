//! Customer-triggered requests and their routing to the booking service.
//!
//! These types mirror the booking service's REST surface with plain
//! values: timestamps are epoch seconds, coordinates are microdegrees,
//! and cargo weight is grams, so that every field stays in exact
//! arithmetic. The surrounding binary converts to the wire encoding;
//! this module owns the routing decision — which endpoint and verb each
//! request kind goes to.

use vstd::prelude::*;
use vstd::string::StringExecFns;

verus! {

/// Query for the list of known vertiports. The coordinates are
/// microdegrees (degrees times one million); the service currently
/// ignores them.
#[derive(Clone, Copy, Debug, PartialEq, Eq, Structural)]
pub struct VertiportsQuery {
    /// Latitude of interest, in microdegrees.
    pub latitude: i64,
    /// Longitude of interest, in microdegrees.
    pub longitude: i64,
}

/// Query for flight options between two vertiports inside a time
/// window. Timestamps are epoch seconds; the weight is grams.
pub struct FlightQuery {
    /// Vertiport to depart from.
    pub vertiport_depart_id: String,
    /// Vertiport to arrive at.
    pub vertiport_arrive_id: String,
    /// Earliest acceptable departure, if constrained.
    pub timestamp_depart_min: Option<i64>,
    /// Latest acceptable departure, if constrained.
    pub timestamp_depart_max: Option<i64>,
    /// Earliest acceptable arrival, if constrained.
    pub timestamp_arrive_min: Option<i64>,
    /// Latest acceptable arrival, if constrained.
    pub timestamp_arrive_max: Option<i64>,
    /// Cargo weight in grams.
    pub cargo_weight_g: u64,
}

/// Mathematical image of a [`FlightQuery`].
pub struct FlightQueryView {
    pub vertiport_depart_id: Seq<char>,
    pub vertiport_arrive_id: Seq<char>,
    pub timestamp_depart_min: Option<i64>,
    pub timestamp_depart_max: Option<i64>,
    pub timestamp_arrive_min: Option<i64>,
    pub timestamp_arrive_max: Option<i64>,
    pub cargo_weight_g: u64,
}

impl View for FlightQuery {
    type V = FlightQueryView;

    open spec fn view(&self) -> FlightQueryView {
        FlightQueryView {
            vertiport_depart_id: self.vertiport_depart_id@,
            vertiport_arrive_id: self.vertiport_arrive_id@,
            timestamp_depart_min: self.timestamp_depart_min,
            timestamp_depart_max: self.timestamp_depart_max,
            timestamp_arrive_min: self.timestamp_arrive_min,
            timestamp_arrive_max: self.timestamp_arrive_max,
            cargo_weight_g: self.cargo_weight_g,
        }
    }
}

/// Confirmation of a drafted flight plan.
pub struct FlightConfirm {
    /// Identifier of the plan to confirm.
    pub fp_id: String,
}

impl View for FlightConfirm {
    type V = Seq<char>;

    open spec fn view(&self) -> Seq<char> {
        self.fp_id@
    }
}

/// Cancellation of a confirmed flight plan.
pub struct FlightCancel {
    /// Identifier of the plan to cancel.
    pub fp_id: String,
}

impl View for FlightCancel {
    type V = Seq<char>;

    open spec fn view(&self) -> Seq<char> {
        self.fp_id@
    }
}

/// Customer requests for cargo flights.
pub enum CargoRequest {
    /// Request the list of vertiports.
    Vertiports(VertiportsQuery),
    /// Query flight options for a route.
    Query(FlightQuery),
    /// Confirm a drafted flight.
    Confirm(FlightConfirm),
    /// Cancel a confirmed flight.
    Cancel(FlightCancel),
}

/// Mathematical image of a [`CargoRequest`].
pub enum CargoRequestView {
    Vertiports(VertiportsQuery),
    Query(FlightQueryView),
    Confirm(Seq<char>),
    Cancel(Seq<char>),
}

impl View for CargoRequest {
    type V = CargoRequestView;

    open spec fn view(&self) -> CargoRequestView {
        match self {
            CargoRequest::Vertiports(q) => CargoRequestView::Vertiports(*q),
            CargoRequest::Query(q) => CargoRequestView::Query(q@),
            CargoRequest::Confirm(c) => CargoRequestView::Confirm(c@),
            CargoRequest::Cancel(c) => CargoRequestView::Cancel(c@),
        }
    }
}

/// Events triggered by customer actions. A closed union: today every
/// customer event is a cargo request.
pub enum CustomerEvent {
    /// Request for a new cargo flight.
    CargoRequest(CargoRequest),
}

/// Mathematical image of a [`CustomerEvent`].
pub enum CustomerEventView {
    CargoRequest(CargoRequestView),
}

impl View for CustomerEvent {
    type V = CustomerEventView;

    open spec fn view(&self) -> CustomerEventView {
        match self {
            CustomerEvent::CargoRequest(r) => CustomerEventView::CargoRequest(r@),
        }
    }
}

/// HTTP verb a request is sent with.
#[derive(Clone, Copy, Debug, PartialEq, Eq, Structural)]
pub enum HttpMethod {
    Post,
    Put,
    Delete,
}

/// Base address of the booking service.
pub fn get_server_addr() -> (r: String)
    ensures
        r@ == "http://0.0.0.0:8000"@,
{
    "http://0.0.0.0:8000".to_owned()
}

/// The path under the service's base address that a request goes to.
pub open spec fn spec_endpoint_path(r: CargoRequestView) -> Seq<char> {
    match r {
        CargoRequestView::Vertiports(_) => "/cargo/vertiports"@,
        CargoRequestView::Query(_) => "/cargo/query"@,
        CargoRequestView::Confirm(_) => "/cargo/confirm"@,
        CargoRequestView::Cancel(_) => "/cargo/cancel"@,
    }
}

/// The HTTP verb a request is sent with: listing and querying POST,
/// confirmation PUT, cancellation DELETE.
pub open spec fn spec_method(r: CargoRequestView) -> HttpMethod {
    match r {
        CargoRequestView::Vertiports(_) => HttpMethod::Post,
        CargoRequestView::Query(_) => HttpMethod::Post,
        CargoRequestView::Confirm(_) => HttpMethod::Put,
        CargoRequestView::Cancel(_) => HttpMethod::Delete,
    }
}

/// Routes a cargo request: the full endpoint URL and the verb to use.
pub fn cargo_route(event: &CargoRequest) -> (r: (String, HttpMethod))
    ensures
        r.0@ == "http://0.0.0.0:8000"@ + spec_endpoint_path(event@),
        r.1 == spec_method(event@),
{
    let mut url = get_server_addr();
    match event {
        CargoRequest::Vertiports(_) => {
            url.append("/cargo/vertiports");
            (url, HttpMethod::Post)
        },
        CargoRequest::Query(_) => {
            url.append("/cargo/query");
            (url, HttpMethod::Post)
        },
        CargoRequest::Confirm(_) => {
            url.append("/cargo/confirm");
            (url, HttpMethod::Put)
        },
        CargoRequest::Cancel(_) => {
            url.append("/cargo/cancel");
            (url, HttpMethod::Delete)
        },
    }
}

/// Routes a customer event by unwrapping it to its cargo request.
pub fn action_route(event: &CustomerEvent) -> (r: (String, HttpMethod))
    ensures
        (match event@ {
            CustomerEventView::CargoRequest(c) => r.0@ == "http://0.0.0.0:8000"@
                + spec_endpoint_path(c) && r.1 == spec_method(c),
        }),
{
    match event {
        CustomerEvent::CargoRequest(s) => cargo_route(s),
    }
}

} // verus!
