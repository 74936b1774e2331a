//! Configuration for an agent-pool run, and the pool's spawn step.
//!
//! A configuration names a simulated start instant, a duration, how
//! many customers to create and the set of archetype names to draw
//! their policies from. Loading and schema-checking the file itself is
//! the caller's business; this module owns the validation rule for the
//! file's keys and the spawning of the pool.

use vstd::prelude::*;

use crate::behavior::str_eq;
use crate::customer::{
    ARRIVE_MAX_OFFSET_S, Customer, CustomerStatus, INITIAL_RETRIES, draw_u64, spec_generate,
    wf,
};

verus! {

/// Configuration file fields.
pub struct Config {
    /// Date and time for the simulation to start, epoch seconds.
    pub timestamp_start: i64,
    /// Duration of the simulation, in seconds.
    pub duration_s: u32,
    /// Number of customers to generate.
    pub n_customers: u32,
    /// Types of customers allowed (list of archetype names).
    pub customer_types: Vec<String>,
}

/// Mathematical image of a [`Config`].
pub struct ConfigView {
    pub timestamp_start: int,
    pub duration_s: int,
    pub n_customers: int,
    pub customer_types: Seq<Seq<char>>,
}

impl View for Config {
    type V = ConfigView;

    open spec fn view(&self) -> ConfigView {
        ConfigView {
            timestamp_start: self.timestamp_start as int,
            duration_s: self.duration_s as int,
            n_customers: self.n_customers as int,
            customer_types: crate::customer::ids_view(self.customer_types@),
        }
    }
}

/// Machine limits on a configuration: the run's end instant and the
/// agents' query windows stay within the timestamp range.
pub open spec fn config_wf(c: ConfigView) -> bool {
    &&& c.timestamp_start + ARRIVE_MAX_OFFSET_S <= i64::MAX
    &&& c.timestamp_start + c.duration_s <= i64::MAX
}

impl Config {
    /// The simulated instant at which the run terminates.
    pub fn end_time(&self) -> (t: i64)
        requires
            config_wf(self@),
        ensures
            t == self@.timestamp_start + self@.duration_s,
    {
        self.timestamp_start + (self.duration_s as i64)
    }
}

impl Default for Config {
    /// A small smoke-test configuration: one greedy customer stepped
    /// for ten simulated seconds starting at the end of 2021.
    fn default() -> (c: Config)
        ensures
            c@.timestamp_start == 1640995199,
            c@.duration_s == 10,
            c@.n_customers == 1,
            c@.customer_types == seq!["greedy"@],
            config_wf(c@),
    {
        let mut types: Vec<String> = Vec::new();
        types.push("greedy".to_owned());
        let c = Config {
            timestamp_start: 1640995199,
            duration_s: 10,
            n_customers: 1,
            customer_types: types,
        };
        proof {
            assert(c@.customer_types =~= seq!["greedy"@]);
        }
        c
    }
}

/// The top-level keys a configuration file may use.
pub open spec fn spec_known_key(k: Seq<char>) -> bool {
    ||| k == "timestamp_start"@
    ||| k == "duration_s"@
    ||| k == "n_customers"@
    ||| k == "customer_types"@
}

/// Whether `k` is a recognized configuration key.
pub fn is_known_key(k: &str) -> (r: bool)
    ensures
        r == spec_known_key(k@),
{
    str_eq(k, "timestamp_start") || str_eq(k, "duration_s") || str_eq(k, "n_customers")
        || str_eq(k, "customer_types")
}

/// Whether every top-level key of a configuration document is
/// recognized; an unrecognized key is a validation error.
pub fn config_keys_valid(keys: &Vec<String>) -> (r: bool)
    ensures
        r == (forall|i: int| 0 <= i < keys@.len() ==> spec_known_key(#[trigger] keys@[i]@)),
{
    let mut idx: usize = 0;
    while idx < keys.len()
        invariant
            idx <= keys@.len(),
            forall|i: int| 0 <= i < idx ==> spec_known_key(#[trigger] keys@[i]@),
        decreases keys@.len() - idx,
    {
        if !is_known_key(keys[idx].as_str()) {
            return false;
        }
        idx = idx + 1;
    }
    true
}

/// What a successful spawn guarantees of the pool: one agent per
/// configured customer, each at the start of the workflow with a full
/// budget, its id its position in the pool, and its policy drawn from
/// the configured archetype names.
pub open spec fn spawn_ok(cfg: ConfigView, agents: Seq<Customer>) -> bool {
    &&& agents.len() == cfg.n_customers
    &&& forall|i: int| 0 <= i < agents.len() ==> (#[trigger] agents[i]@).id == i as u64
    &&& forall|i: int| 0 <= i < agents.len() ==> (#[trigger] agents[i]@).status
        == CustomerStatus::Vertiports
    &&& forall|i: int| 0 <= i < agents.len() ==> (#[trigger] agents[i]@).retries
        == INITIAL_RETRIES as int
    &&& forall|i: int| 0 <= i < agents.len() ==> wf(#[trigger] agents[i]@)
    &&& forall|i: int| 0 <= i < agents.len() ==> exists|j: int|
        0 <= j < cfg.customer_types.len() && (#[trigger] agents[i]@) == spec_generate(
            cfg.customer_types[j],
            cfg.timestamp_start,
            i as u64,
        )
}

/// Spawns the agent pool for one configured run: `n_customers` agents,
/// each with an archetype drawn at random from the configured set.
/// An empty archetype set is the one spawn-time error.
pub fn spawn(config: &Config) -> (r: Result<Vec<Customer>, ()>)
    requires
        config_wf(config@),
    ensures
        r is Err <==> config@.customer_types.len() == 0,
        (r matches Ok(agents) ==> spawn_ok(config@, agents@)),
{
    if config.customer_types.len() == 0 {
        return Err(());
    }
    let n: usize = config.n_customers as usize;
    let mut agents: Vec<Customer> = Vec::new();
    while agents.len() < n
        invariant
            config_wf(config@),
            config@.customer_types.len() > 0,
            n == config@.n_customers,
            agents@.len() <= n,
            forall|i: int| 0 <= i < agents@.len() ==> (#[trigger] agents@[i]@).id == i as u64,
            forall|i: int| 0 <= i < agents@.len() ==> (#[trigger] agents@[i]@).status
                == CustomerStatus::Vertiports,
            forall|i: int| 0 <= i < agents@.len() ==> (#[trigger] agents@[i]@).retries
                == INITIAL_RETRIES as int,
            forall|i: int| 0 <= i < agents@.len() ==> wf(#[trigger] agents@[i]@),
            forall|i: int| 0 <= i < agents@.len() ==> exists|j: int|
                0 <= j < config@.customer_types.len() && (#[trigger] agents@[i]@)
                    == spec_generate(
                    config@.customer_types[j],
                    config@.timestamp_start,
                    i as u64,
                ),
        decreases n - agents@.len(),
    {
        let rdraw: u64 = draw_u64();
        let pick: usize = (rdraw % (config.customer_types.len() as u64)) as usize;
        let name: &String = &config.customer_types[pick];
        let c = Customer::generate(name.as_str(), config.timestamp_start, agents.len() as u64);
        agents.push(c);
        proof {
            let i = agents@.len() - 1;
            assert(agents@[i]@ == spec_generate(
                config@.customer_types[pick as int],
                config@.timestamp_start,
                i as u64,
            ));
        }
    }
    Ok(agents)
}

/// Spawning with an unknown archetype name still succeeds: the agent
/// it produces runs the greedy policy.
pub proof fn lemma_unknown_archetype_spawns_greedy(name: Seq<char>, t: int, id: u64)
    requires
        name != "greedy"@,
        name != "mistake"@,
        name != "indecisive"@,
    ensures
        spec_generate(name, t, id).behavior == crate::behavior::Behavior::Greedy,
{
    crate::behavior::lemma_unknown_archetype_defaults(name);
}

} // verus!
