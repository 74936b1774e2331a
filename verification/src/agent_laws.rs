//! Laws of the agent state machine over whole runs.
//!
//! [`agent_run`] folds [`agent_step`] over a sequence of step inputs,
//! giving the agent's state after any number of ticks. The lemmas here
//! state the lifecycle guarantees: the status only moves forward, the
//! policy is never swapped, the failure budget never grows, an agent
//! whose budget is spent is in the terminal state, and an indecisive
//! agent never gets past selection.

use vstd::prelude::*;

use crate::behavior::{Behavior, spec_select};
use crate::customer::{
    AgentView, CustomerStatus, OutcomeView, agent_step, lemma_step_preserves_wf, step_fails,
    wf,
};

verus! {

/// Everything one step consumes: the two random draws and the outcome
/// of the step's network interaction.
pub struct StepInputView {
    pub r1: u64,
    pub r2: u64,
    pub outcome: OutcomeView,
}

/// The agent after consuming `inputs`, one step each.
pub open spec fn agent_run(v: AgentView, inputs: Seq<StepInputView>) -> AgentView
    decreases inputs.len(),
{
    if inputs.len() == 0 {
        v
    } else {
        agent_run(
            agent_step(v, inputs[0].r1, inputs[0].r2, inputs[0].outcome),
            inputs.skip(1),
        )
    }
}

/// How many of the steps along the run of `inputs` fail.
pub open spec fn run_failures(v: AgentView, inputs: Seq<StepInputView>) -> nat
    decreases inputs.len(),
{
    if inputs.len() == 0 {
        0
    } else {
        (if step_fails(v, inputs[0].outcome) {
            1nat
        } else {
            0
        }) + run_failures(
            agent_step(v, inputs[0].r1, inputs[0].r2, inputs[0].outcome),
            inputs.skip(1),
        )
    }
}

/// A run from a well-formed agent stays well-formed.
pub proof fn lemma_run_preserves_wf(v: AgentView, inputs: Seq<StepInputView>)
    requires
        wf(v),
    ensures
        wf(agent_run(v, inputs)),
    decreases inputs.len(),
{
    if inputs.len() > 0 {
        lemma_step_preserves_wf(v, inputs[0].r1, inputs[0].r2, inputs[0].outcome);
        lemma_run_preserves_wf(
            agent_step(v, inputs[0].r1, inputs[0].r2, inputs[0].outcome),
            inputs.skip(1),
        );
    }
}

/// The terminal state really is terminal: a done agent never changes.
pub proof fn lemma_done_stays_done(v: AgentView, inputs: Seq<StepInputView>)
    requires
        v.status == CustomerStatus::Done,
    ensures
        agent_run(v, inputs) == v,
    decreases inputs.len(),
{
    if inputs.len() > 0 {
        lemma_done_stays_done(v, inputs.skip(1));
    }
}

/// The policy is fixed at creation and never swapped: no run changes it.
/// Neither do the agent's identity and clock ever change.
pub proof fn lemma_policy_fixed(v: AgentView, inputs: Seq<StepInputView>)
    ensures
        agent_run(v, inputs).behavior == v.behavior,
        agent_run(v, inputs).id == v.id,
        agent_run(v, inputs).current_time == v.current_time,
    decreases inputs.len(),
{
    if inputs.len() > 0 {
        lemma_policy_fixed(
            agent_step(v, inputs[0].r1, inputs[0].r2, inputs[0].outcome),
            inputs.skip(1),
        );
    }
}

/// Position of a status in the fixed workflow order.
pub open spec fn status_rank(s: CustomerStatus) -> int {
    match s {
        CustomerStatus::Vertiports => 0,
        CustomerStatus::Query => 1,
        CustomerStatus::Confirm => 2,
        CustomerStatus::Cancel => 3,
        CustomerStatus::Done => 4,
    }
}

/// The status never regresses: each step leaves it in place or moves it
/// forward in the workflow order.
pub proof fn lemma_status_never_regresses(v: AgentView, r1: u64, r2: u64, outcome: OutcomeView)
    requires
        wf(v),
    ensures
        status_rank(agent_step(v, r1, r2, outcome).status) >= status_rank(v.status),
{
}

/// A successful step from a live agent advances the status by exactly
/// one position: no phase is ever skipped on success.
pub proof fn lemma_success_advances_one(v: AgentView, r1: u64, r2: u64, outcome: OutcomeView)
    requires
        wf(v),
        v.status != CustomerStatus::Done,
        !step_fails(v, outcome),
    ensures
        status_rank(agent_step(v, r1, r2, outcome).status) == status_rank(v.status) + 1,
{
}

/// The failure budget never grows along a run.
pub proof fn lemma_budget_non_increasing(v: AgentView, inputs: Seq<StepInputView>)
    ensures
        agent_run(v, inputs).retries <= v.retries,
    decreases inputs.len(),
{
    if inputs.len() > 0 {
        lemma_budget_non_increasing(
            agent_step(v, inputs[0].r1, inputs[0].r2, inputs[0].outcome),
            inputs.skip(1),
        );
    }
}

/// Bounded failure budget: an agent that starts with budget R is in the
/// terminal state by the time R of its steps have failed, from whatever
/// phases those failures happened in.
pub proof fn lemma_budget_exhaustion(v: AgentView, inputs: Seq<StepInputView>)
    requires
        wf(v),
        run_failures(v, inputs) >= v.retries,
    ensures
        agent_run(v, inputs).status == CustomerStatus::Done,
    decreases inputs.len(),
{
    if inputs.len() == 0 {
    } else {
        let v1 = agent_step(v, inputs[0].r1, inputs[0].r2, inputs[0].outcome);
        lemma_step_preserves_wf(v, inputs[0].r1, inputs[0].r2, inputs[0].outcome);
        if v.status == CustomerStatus::Done {
            lemma_done_stays_done(v, inputs);
        } else {
            lemma_budget_exhaustion(v1, inputs.skip(1));
        }
    }
}

/// An indecisive agent never leaves the selection phase on its own:
/// every selection step fails, so it either still awaits selection or
/// has been force-terminated by its exhausted budget.
pub proof fn lemma_indecisive_stuck(v: AgentView, inputs: Seq<StepInputView>)
    requires
        wf(v),
        v.behavior == Behavior::Indecisive,
        v.status == CustomerStatus::Confirm || v.status == CustomerStatus::Done,
    ensures
        agent_run(v, inputs).status == CustomerStatus::Confirm || agent_run(
            v,
            inputs,
        ).status == CustomerStatus::Done,
    decreases inputs.len(),
{
    if inputs.len() > 0 {
        let v1 = agent_step(v, inputs[0].r1, inputs[0].r2, inputs[0].outcome);
        lemma_step_preserves_wf(v, inputs[0].r1, inputs[0].r2, inputs[0].outcome);
        assert(v.status == CustomerStatus::Confirm ==> spec_select(v.behavior, v.flights) is None);
        lemma_indecisive_stuck(v1, inputs.skip(1));
    }
}

} // verus!
