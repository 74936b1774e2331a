//! Behavior policies: pure decision strategies for synthetic customers.
//!
//! A policy answers two questions and nothing else: given an ordered list
//! of candidate flights, which one (if any) to confirm; and with what
//! probability to cancel a confirmed flight. Probabilities are kept in
//! integer percent (0 ..= 100) so the decisions stay in exact arithmetic.
//! Three policies ship: greedy (take the first candidate, never cancel),
//! mistake (take the first candidate, always cancel), and indecisive
//! (never pick anything). Policies are stateless: none reads or writes
//! agent state.

use vstd::prelude::*;

verus! {

/// One candidate flight, as the booking service describes it: a plan
/// identifier and an optional price in cents (absent means unpriced).
pub struct FlightOption {
    /// Identifier of the proposed flight plan.
    pub fp_id: String,
    /// Price in cents; `None` means the price is unknown.
    pub base_pricing: Option<u64>,
}

/// Mathematical image of a [`FlightOption`].
pub struct FlightView {
    pub fp_id: Seq<char>,
    pub base_pricing: Option<u64>,
}

impl View for FlightOption {
    type V = FlightView;

    open spec fn view(&self) -> FlightView {
        FlightView { fp_id: self.fp_id@, base_pricing: self.base_pricing }
    }
}

/// The candidate list a policy looks at, element by element.
pub open spec fn flights_view(flights: Seq<FlightOption>) -> Seq<FlightView> {
    flights.map_values(|f: FlightOption| f@)
}

/// The plan identifier inside `r`, if any.
pub open spec fn opt_str_view(r: Option<String>) -> Option<Seq<char>> {
    match r {
        Some(s) => Some(s@),
        None => None,
    }
}

/// The closed set of behavior policies. New archetypes extend this
/// enumeration; dispatch is uniform over it.
#[derive(Clone, Copy, Debug, PartialEq, Eq, Structural)]
pub enum Behavior {
    /// Take the first candidate, never cancel.
    Greedy,
    /// Take the first candidate, then always cancel.
    Mistake,
    /// Never pick any candidate.
    Indecisive,
}

/// What a policy selects from a candidate list: the first candidate's
/// plan id, except that the indecisive policy selects nothing.
pub open spec fn spec_select(b: Behavior, flights: Seq<FlightView>) -> Option<Seq<char>> {
    match b {
        Behavior::Indecisive => None,
        _ => if flights.len() == 0 {
            None
        } else {
            Some(flights[0].fp_id)
        },
    }
}

/// A policy's cancellation probability, in percent.
pub open spec fn spec_cancel_chance(b: Behavior) -> u8 {
    match b {
        Behavior::Greedy => 0,
        Behavior::Mistake => 100,
        Behavior::Indecisive => 100,
    }
}

/// The Bernoulli trial for cancellation: `draw` is a uniformly random
/// number, and the trial succeeds when its residue modulo 100 falls
/// below the policy's percentage.
pub open spec fn spec_decides_cancel(b: Behavior, draw: u64) -> bool {
    (draw % 100) < spec_cancel_chance(b)
}

/// Greedy customers take the first thing they can get and don't cancel.
#[derive(Clone, Copy, Debug, PartialEq, Eq, Structural)]
pub struct GreedyCustomer;

impl GreedyCustomer {
    /// Confirms the first available flight, immediately.
    pub fn confirm(&self, flights: &Vec<FlightOption>) -> (r: Option<String>)
        ensures
            opt_str_view(r) == spec_select(Behavior::Greedy, flights_view(flights@)),
    {
        if flights.len() == 0 {
            None
        } else {
            Some(flights[0].fp_id.clone())
        }
    }

    /// Never cancels: probability 0 percent.
    pub fn cancel_chance(&self) -> (r: u8)
        ensures
            r == spec_cancel_chance(Behavior::Greedy),
    {
        0
    }
}

/// Mistake customers create a booking on accident and need to cancel.
#[derive(Clone, Copy, Debug, PartialEq, Eq, Structural)]
pub struct MistakeCustomer;

impl MistakeCustomer {
    /// Confirms the first available flight, immediately.
    pub fn confirm(&self, flights: &Vec<FlightOption>) -> (r: Option<String>)
        ensures
            opt_str_view(r) == spec_select(Behavior::Mistake, flights_view(flights@)),
    {
        if flights.len() == 0 {
            None
        } else {
            Some(flights[0].fp_id.clone())
        }
    }

    /// Always cancels: probability 100 percent.
    pub fn cancel_chance(&self) -> (r: u8)
        ensures
            r == spec_cancel_chance(Behavior::Mistake),
    {
        100
    }
}

/// Indecisive customers query but never select anything.
#[derive(Clone, Copy, Debug, PartialEq, Eq, Structural)]
pub struct IndecisiveCustomer;

impl IndecisiveCustomer {
    /// Selects nothing, whatever the candidates.
    pub fn confirm(&self, flights: &Vec<FlightOption>) -> (r: Option<String>)
        ensures
            opt_str_view(r) == spec_select(Behavior::Indecisive, flights_view(flights@)),
    {
        let _ = flights;
        None
    }

    /// Would always cancel, were a selection ever confirmed.
    pub fn cancel_chance(&self) -> (r: u8)
        ensures
            r == spec_cancel_chance(Behavior::Indecisive),
    {
        100
    }
}

impl Behavior {
    /// Uniform dispatch of the selection decision.
    pub fn select(&self, flights: &Vec<FlightOption>) -> (r: Option<String>)
        ensures
            opt_str_view(r) == spec_select(*self, flights_view(flights@)),
    {
        match self {
            Behavior::Greedy => GreedyCustomer.confirm(flights),
            Behavior::Mistake => MistakeCustomer.confirm(flights),
            Behavior::Indecisive => IndecisiveCustomer.confirm(flights),
        }
    }

    /// Uniform dispatch of the cancellation probability, in percent.
    pub fn cancel_chance(&self) -> (r: u8)
        ensures
            r == spec_cancel_chance(*self),
    {
        match self {
            Behavior::Greedy => GreedyCustomer.cancel_chance(),
            Behavior::Mistake => MistakeCustomer.cancel_chance(),
            Behavior::Indecisive => IndecisiveCustomer.cancel_chance(),
        }
    }

    /// Runs the cancellation Bernoulli trial on a random `draw`.
    pub fn decides_cancel(&self, draw: u64) -> (r: bool)
        ensures
            r == spec_decides_cancel(*self, draw),
    {
        (draw % 100) < (self.cancel_chance() as u64)
    }
}

/// The greedy policy never cancels, whatever the random draw.
pub proof fn lemma_greedy_never_cancels(draw: u64)
    ensures
        !spec_decides_cancel(Behavior::Greedy, draw),
{
}

/// The mistake policy always cancels, whatever the random draw.
pub proof fn lemma_mistake_always_cancels(draw: u64)
    ensures
        spec_decides_cancel(Behavior::Mistake, draw),
{
}

/// String equality over views: the workhorse for resolving names.
pub fn str_eq(a: &str, b: &str) -> (r: bool)
    ensures
        r == (a@ == b@),
{
    let sa: String = a.to_owned();
    let sb: String = b.to_owned();
    sa == sb
}

/// The policy an archetype name denotes. Unrecognized names fall back
/// to the greedy policy rather than failing the run.
pub open spec fn spec_behavior_of(name: Seq<char>) -> Behavior {
    if name == "greedy"@ {
        Behavior::Greedy
    } else if name == "mistake"@ {
        Behavior::Mistake
    } else if name == "indecisive"@ {
        Behavior::Indecisive
    } else {
        Behavior::Greedy
    }
}

/// Resolves an archetype name to its policy.
pub fn behavior_of(name: &str) -> (b: Behavior)
    ensures
        b == spec_behavior_of(name@),
{
    if str_eq(name, "greedy") {
        Behavior::Greedy
    } else if str_eq(name, "mistake") {
        Behavior::Mistake
    } else if str_eq(name, "indecisive") {
        Behavior::Indecisive
    } else {
        Behavior::Greedy
    }
}

/// An archetype name that matches no known policy silently denotes the
/// greedy policy: configuration with an unknown name still runs.
pub proof fn lemma_unknown_archetype_defaults(name: Seq<char>)
    requires
        name != "greedy"@,
        name != "mistake"@,
        name != "indecisive"@,
    ensures
        spec_behavior_of(name) == Behavior::Greedy,
{
}

} // verus!
