//! Customer agent state machine.
//!
//! One agent walks a fixed booking workflow: fetch the vertiport list,
//! query flight options for a random pair of vertiports, confirm the
//! flight its policy picks, decide whether to cancel, done. Each call of
//! [`Customer::next`] advances the agent by exactly one step. Network
//! transport lives outside this crate: the driver asks [`Customer::next_call`]
//! which request (if any) the current step wants, performs it, and hands
//! the decoded result back as a [`StepOutcome`]. Every transport-level
//! failure is the single uniform outcome [`StepOutcome::Failed`], which
//! costs one unit of the agent's failure budget; a budget of zero forces
//! the terminal state.

use vstd::prelude::*;

use crate::behavior::{
    Behavior, FlightOption, FlightView, flights_view, opt_str_view, spec_select,
    spec_decides_cancel,
};
use crate::events::{
    CargoRequest, CargoRequestView, CustomerEvent, CustomerEventView, FlightCancel,
    FlightConfirm, FlightQuery, FlightQueryView, VertiportsQuery,
};

verus! {

/// Phases of customer activity, in workflow order. The status only ever
/// moves forward through this sequence and never regresses.
#[derive(Debug, Eq, PartialEq, Copy, Clone, Structural)]
pub enum CustomerStatus {
    /// Retrieving the list of local vertiports.
    Vertiports,
    /// Hasn't checked for available flights yet.
    Query,
    /// Has a list of flight options to select from.
    Confirm,
    /// Debating on cancelling.
    Cancel,
    /// No more actions to be taken.
    Done,
}

/// Failure budget an agent starts with: how many failed steps it
/// tolerates before abandoning its task. The budget is deliberately
/// lifetime-wide, not per-phase: a failure while listing vertiports and
/// a later failure while cancelling draw down the same counter.
pub const INITIAL_RETRIES: u32 = 1;

/// Seconds past the agent's clock at which the queried arrival window opens.
pub const ARRIVE_MIN_OFFSET_S: i64 = 60;

/// Seconds past the agent's clock at which the queried arrival window closes.
pub const ARRIVE_MAX_OFFSET_S: i64 = 600;

/// Latitude sent with a vertiport query, in microdegrees (arbitrary,
/// not currently used by the service).
pub const QUERY_LATITUDE_UDEG: i64 = 100_000_000;

/// Longitude sent with a vertiport query, in microdegrees.
pub const QUERY_LONGITUDE_UDEG: i64 = 100_000_000;

/// Cargo weight sent with every flight query, in grams.
pub const CARGO_WEIGHT_G: u64 = 1000;

/// Customer details: one synthetic agent and everything it has learned
/// so far in its workflow.
pub struct Customer {
    /// Unique identifier, assigned by the pool at spawn time.
    pub id: u64,
    /// Decision policy; fixed for the agent's lifetime.
    pub behavior: Behavior,
    /// Current phase of the workflow.
    pub status: CustomerStatus,
    /// Vertiport chosen to depart from (empty until chosen).
    pub vertiport_depart_id: String,
    /// Vertiport chosen to arrive at (empty until chosen).
    pub vertiport_arrive_id: String,
    /// The agent's notion of current simulated time, epoch seconds.
    pub current_time: i64,
    /// Plan identifier assigned on confirmation (empty until assigned).
    pub fp_id: String,
    /// Candidate flights returned by the last successful query.
    pub flights: Vec<FlightOption>,
    /// Remaining failure budget.
    pub retries: u32,
}

/// Mathematical image of a [`Customer`].
pub struct AgentView {
    pub id: u64,
    pub behavior: Behavior,
    pub status: CustomerStatus,
    pub vertiport_depart_id: Seq<char>,
    pub vertiport_arrive_id: Seq<char>,
    pub current_time: int,
    pub fp_id: Seq<char>,
    pub flights: Seq<FlightView>,
    pub retries: int,
}

impl View for Customer {
    type V = AgentView;

    open spec fn view(&self) -> AgentView {
        AgentView {
            id: self.id,
            behavior: self.behavior,
            status: self.status,
            vertiport_depart_id: self.vertiport_depart_id@,
            vertiport_arrive_id: self.vertiport_arrive_id@,
            current_time: self.current_time as int,
            fp_id: self.fp_id@,
            flights: flights_view(self.flights@),
            retries: self.retries as int,
        }
    }
}

/// Well-formedness of an agent: a live agent always has budget left
/// (reaching zero forces `Done` at once), and its clock leaves room for
/// the arrival window so the query step cannot overflow.
pub open spec fn wf(v: AgentView) -> bool {
    &&& (v.status != CustomerStatus::Done ==> v.retries >= 1)
    &&& 0 <= v.retries <= u32::MAX
    &&& i64::MIN <= v.current_time
    &&& v.current_time + ARRIVE_MAX_OFFSET_S <= i64::MAX
}

/// What one step's network interaction came to, as plain values. The
/// driver decodes the service's response into this; any transport,
/// protocol or decode failure collapses into [`StepOutcome::Failed`].
pub enum StepOutcome {
    /// The step made no network call.
    NoCall,
    /// Transport failure, non-success status, or undecodable body.
    Failed,
    /// Vertiport listing succeeded: the ids returned, in order.
    Vertiports(Vec<String>),
    /// Flight query succeeded: the options returned, in order.
    Flights(Vec<FlightOption>),
    /// Confirmation succeeded: the plan id the service assigned.
    Confirmed(String),
    /// Cancellation succeeded.
    Cancelled,
}

/// Mathematical image of a [`StepOutcome`].
pub enum OutcomeView {
    NoCall,
    Failed,
    Vertiports(Seq<Seq<char>>),
    Flights(Seq<FlightView>),
    Confirmed(Seq<char>),
    Cancelled,
}

/// The ids in a decoded vertiport listing, element by element.
pub open spec fn ids_view(ids: Seq<String>) -> Seq<Seq<char>> {
    ids.map_values(|s: String| s@)
}

impl View for StepOutcome {
    type V = OutcomeView;

    open spec fn view(&self) -> OutcomeView {
        match self {
            StepOutcome::NoCall => OutcomeView::NoCall,
            StepOutcome::Failed => OutcomeView::Failed,
            StepOutcome::Vertiports(ids) => OutcomeView::Vertiports(ids_view(ids@)),
            StepOutcome::Flights(fs) => OutcomeView::Flights(flights_view(fs@)),
            StepOutcome::Confirmed(s) => OutcomeView::Confirmed(s@),
            StepOutcome::Cancelled => OutcomeView::Cancelled,
        }
    }
}

/// Two distinct positions below `n`, derived from two random draws:
/// the first is `r1` reduced modulo `n`, the second is `r2` reduced
/// modulo `n - 1` and shifted past the first when they would collide.
pub open spec fn spec_pick2(n: int, r1: u64, r2: u64) -> (int, int)
    recommends
        n >= 2,
{
    let i = (r1 as int) % n;
    let j0 = (r2 as int) % (n - 1);
    if j0 >= i {
        (i, j0 + 1)
    } else {
        (i, j0)
    }
}

/// Picks two distinct positions below `n` from two random draws.
pub fn pick_two(n: usize, r1: u64, r2: u64) -> (r: (usize, usize))
    requires
        2 <= n,
    ensures
        r.0 as int == spec_pick2(n as int, r1, r2).0,
        r.1 as int == spec_pick2(n as int, r1, r2).1,
        r.0 < n,
        r.1 < n,
        r.0 != r.1,
{
    let i: usize = (r1 % (n as u64)) as usize;
    let j0: usize = (r2 % ((n as u64) - 1)) as usize;
    let j: usize = if j0 >= i {
        j0 + 1
    } else {
        j0
    };
    (i, j)
}

/// Whether the step taken from `v` on `outcome` counts as a failure
/// against the agent's budget. Independent of the random draws: only
/// the phase, the policy's selection, and the outcome decide it.
pub open spec fn step_fails(v: AgentView, outcome: OutcomeView) -> bool {
    match v.status {
        CustomerStatus::Done => false,
        CustomerStatus::Vertiports => !(outcome matches OutcomeView::Vertiports(ids)
            && ids.len() >= 2),
        CustomerStatus::Query => !(outcome matches OutcomeView::Flights(fs) && fs.len() >= 1),
        CustomerStatus::Confirm => !(spec_select(v.behavior, v.flights) is Some
            && outcome is Confirmed),
        CustomerStatus::Cancel => !(outcome is NoCall || outcome is Cancelled),
    }
}

/// The agent after one failed step: one unit of budget gone, and the
/// terminal state forced the moment the budget reaches zero.
pub open spec fn step_failed_view(v: AgentView) -> AgentView {
    AgentView {
        retries: v.retries - 1,
        status: if v.retries - 1 <= 0 {
            CustomerStatus::Done
        } else {
            v.status
        },
        ..v
    }
}

/// One step of the agent state machine: the agent after `v` consumes
/// `outcome` in its current phase, with `r1`, `r2` the random draws
/// used to pick vertiports when the listing succeeds.
pub open spec fn agent_step(v: AgentView, r1: u64, r2: u64, outcome: OutcomeView) -> AgentView {
    if step_fails(v, outcome) {
        step_failed_view(v)
    } else {
        match v.status {
            CustomerStatus::Done => v,
            CustomerStatus::Vertiports => {
                let ids = outcome->Vertiports_0;
                let picks = spec_pick2(ids.len() as int, r1, r2);
                AgentView {
                    vertiport_depart_id: ids[picks.0],
                    vertiport_arrive_id: ids[picks.1],
                    status: CustomerStatus::Query,
                    ..v
                }
            },
            CustomerStatus::Query => (AgentView {
                flights: outcome->Flights_0,
                status: CustomerStatus::Confirm,
                ..v
            }),
            CustomerStatus::Confirm => (AgentView {
                fp_id: outcome->Confirmed_0,
                status: CustomerStatus::Cancel,
                ..v
            }),
            CustomerStatus::Cancel => (AgentView { status: CustomerStatus::Done, ..v }),
        }
    }
}

/// The agent a fresh spawn produces: at the start of the workflow, with
/// the policy its archetype name denotes and a full failure budget.
pub open spec fn spec_generate(name: Seq<char>, current_time: int, id: u64) -> AgentView {
    AgentView {
        id: id,
        behavior: crate::behavior::spec_behavior_of(name),
        status: CustomerStatus::Vertiports,
        vertiport_depart_id: Seq::empty(),
        vertiport_arrive_id: Seq::empty(),
        current_time: current_time,
        fp_id: Seq::empty(),
        flights: Seq::empty(),
        retries: INITIAL_RETRIES as int,
    }
}

/// The request the agent's current phase wants performed, if any:
/// `None` either means the phase needs no network call (terminal state,
/// a declined selection, a cancellation the policy skipped) or that the
/// step will fail without one.
pub open spec fn spec_next_call(v: AgentView, draw: u64) -> Option<CustomerEventView> {
    match v.status {
        CustomerStatus::Done => None,
        CustomerStatus::Vertiports => Some(
            CustomerEventView::CargoRequest(
                CargoRequestView::Vertiports(
                    VertiportsQuery {
                        latitude: QUERY_LATITUDE_UDEG,
                        longitude: QUERY_LONGITUDE_UDEG,
                    },
                ),
            ),
        ),
        CustomerStatus::Query => Some(
            CustomerEventView::CargoRequest(
                CargoRequestView::Query(
                    FlightQueryView {
                        vertiport_depart_id: v.vertiport_depart_id,
                        vertiport_arrive_id: v.vertiport_arrive_id,
                        timestamp_depart_min: None,
                        timestamp_depart_max: None,
                        timestamp_arrive_min: Some(
                            (v.current_time + ARRIVE_MIN_OFFSET_S) as i64,
                        ),
                        timestamp_arrive_max: Some(
                            (v.current_time + ARRIVE_MAX_OFFSET_S) as i64,
                        ),
                        cargo_weight_g: CARGO_WEIGHT_G,
                    },
                ),
            ),
        ),
        CustomerStatus::Confirm => match spec_select(v.behavior, v.flights) {
            None => None,
            Some(fp) => Some(
                CustomerEventView::CargoRequest(CargoRequestView::Confirm(fp)),
            ),
        },
        CustomerStatus::Cancel => if spec_decides_cancel(v.behavior, draw) {
            Some(CustomerEventView::CargoRequest(CargoRequestView::Cancel(v.fp_id)))
        } else {
            None
        },
    }
}

/// The event inside `r`, if any.
pub open spec fn opt_event_view(r: Option<CustomerEvent>) -> Option<CustomerEventView> {
    match r {
        Some(e) => Some(e@),
        None => None,
    }
}

/// Relies on rand::random: a fresh value from the thread-local
/// generator. Nothing can be promised of a random value.
#[verifier::external_body]
pub(crate) fn draw_u64() -> u64 {
    rand::random::<u64>()
}

impl Customer {
    /// Creates a customer, assigns it a behavior and a full failure
    /// budget. An archetype name that matches no known policy produces
    /// a greedy customer rather than failing.
    pub fn generate(customer_type: &str, current_time: i64, id: u64) -> (c: Customer)
        requires
            current_time + ARRIVE_MAX_OFFSET_S <= i64::MAX,
        ensures
            c@ == spec_generate(customer_type@, current_time as int, id),
            wf(c@),
    {
        let c = Customer {
            id: id,
            behavior: crate::behavior::behavior_of(customer_type),
            status: CustomerStatus::Vertiports,
            vertiport_depart_id: String::new(),
            vertiport_arrive_id: String::new(),
            current_time: current_time,
            fp_id: String::new(),
            flights: Vec::new(),
            retries: INITIAL_RETRIES,
        };
        proof {
            assert(c@.flights =~= Seq::<FlightView>::empty());
        }
        c
    }

    /// The request the current step wants performed, with `draw` the
    /// random number for the cancellation trial.
    pub fn next_call(&self, draw: u64) -> (r: Option<CustomerEvent>)
        requires
            wf(self@),
        ensures
            opt_event_view(r) == spec_next_call(self@, draw),
    {
        match self.status {
            CustomerStatus::Done => None,
            CustomerStatus::Vertiports => Some(
                CustomerEvent::CargoRequest(
                    CargoRequest::Vertiports(
                        VertiportsQuery {
                            latitude: QUERY_LATITUDE_UDEG,
                            longitude: QUERY_LONGITUDE_UDEG,
                        },
                    ),
                ),
            ),
            CustomerStatus::Query => Some(
                CustomerEvent::CargoRequest(
                    CargoRequest::Query(
                        FlightQuery {
                            vertiport_depart_id: self.vertiport_depart_id.clone(),
                            vertiport_arrive_id: self.vertiport_arrive_id.clone(),
                            timestamp_depart_min: None,
                            timestamp_depart_max: None,
                            timestamp_arrive_min: Some(
                                self.current_time + ARRIVE_MIN_OFFSET_S,
                            ),
                            timestamp_arrive_max: Some(
                                self.current_time + ARRIVE_MAX_OFFSET_S,
                            ),
                            cargo_weight_g: CARGO_WEIGHT_G,
                        },
                    ),
                ),
            ),
            CustomerStatus::Confirm => match self.behavior.select(&self.flights) {
                None => None,
                Some(fp) => Some(
                    CustomerEvent::CargoRequest(CargoRequest::Confirm(FlightConfirm { fp_id: fp })),
                ),
            },
            CustomerStatus::Cancel => {
                if self.behavior.decides_cancel(draw) {
                    Some(
                        CustomerEvent::CargoRequest(
                            CargoRequest::Cancel(FlightCancel { fp_id: self.fp_id.clone() }),
                        ),
                    )
                } else {
                    None
                }
            },
        }
    }

    /// Books one failure against the budget, forcing the terminal state
    /// when the budget runs out.
    fn fail_step(&mut self)
        requires
            old(self).retries >= 1,
        ensures
            final(self)@ == step_failed_view(old(self)@),
    {
        self.retries = self.retries - 1;
        if self.retries == 0 {
            self.status = CustomerStatus::Done;
        }
    }

    /// Advances the agent exactly one step on the given outcome, with
    /// the random draws for the vertiport picks supplied by the caller.
    /// Deterministic: the new state is a function of the old state, the
    /// draws, and the outcome.
    pub fn next_with(&mut self, r1: u64, r2: u64, outcome: StepOutcome)
        requires
            wf(old(self)@),
        ensures
            final(self)@ == agent_step(old(self)@, r1, r2, outcome@),
    {
        match self.status {
            CustomerStatus::Done => {},
            CustomerStatus::Vertiports => {
                match outcome {
                    StepOutcome::Vertiports(ids) => {
                        if ids.len() >= 2 {
                            let picks = pick_two(ids.len(), r1, r2);
                            self.vertiport_depart_id = ids[picks.0].clone();
                            self.vertiport_arrive_id = ids[picks.1].clone();
                            self.status = CustomerStatus::Query;
                        } else {
                            self.fail_step();
                        }
                    },
                    _ => self.fail_step(),
                }
            },
            CustomerStatus::Query => {
                match outcome {
                    StepOutcome::Flights(fs) => {
                        if fs.len() >= 1 {
                            self.flights = fs;
                            self.status = CustomerStatus::Confirm;
                        } else {
                            self.fail_step();
                        }
                    },
                    _ => self.fail_step(),
                }
            },
            CustomerStatus::Confirm => {
                let sel = self.behavior.select(&self.flights);
                match sel {
                    None => self.fail_step(),
                    Some(_) => {
                        match outcome {
                            StepOutcome::Confirmed(assigned) => {
                                self.fp_id = assigned;
                                self.status = CustomerStatus::Cancel;
                            },
                            _ => self.fail_step(),
                        }
                    },
                }
            },
            CustomerStatus::Cancel => {
                match outcome {
                    StepOutcome::NoCall => {
                        self.status = CustomerStatus::Done;
                    },
                    StepOutcome::Cancelled => {
                        self.status = CustomerStatus::Done;
                    },
                    _ => self.fail_step(),
                }
            },
        }
    }

    /// Prompts the customer to perform one step on the given outcome,
    /// drawing the vertiport picks from the process randomness source.
    /// Whatever the draws, the step follows the state machine.
    pub fn next(&mut self, outcome: StepOutcome)
        requires
            wf(old(self)@),
        ensures
            exists|r1: u64, r2: u64|
                final(self)@ == agent_step(old(self)@, r1, r2, outcome@),
            wf(final(self)@),
    {
        let ghost pre = self@;
        let ghost oview = outcome@;
        let r1 = draw_u64();
        let r2 = draw_u64();
        self.next_with(r1, r2, outcome);
        proof {
            assert(self@ == agent_step(pre, r1, r2, oview));
            lemma_step_preserves_wf(pre, r1, r2, oview);
        }
    }
}

/// A step from a well-formed agent leaves a well-formed agent.
pub proof fn lemma_step_preserves_wf(v: AgentView, r1: u64, r2: u64, outcome: OutcomeView)
    requires
        wf(v),
    ensures
        wf(agent_step(v, r1, r2, outcome)),
{
}

} // verus!
