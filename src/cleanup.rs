use vstd::prelude::*;
use crate::plan::{
    remove_step, remove_view, run_all, run_step, run_view, steps_view, texts_view, OutcomeView,
    PlanRun, PlanState, Step, StepView,
};
use crate::platform::{platform_of, text};
use crate::service::{agent_service_view, disable_steps, remove_auto_start};

verus! {

pub open spec fn stop_agent_view() -> StepView {
    run_view(
        "pkill"@,
        seq!["lattice-agent"@],
        false,
        "Failed to stop agent"@,
        "Failed to stop agent: "@,
    )
}

/// Every step of a teardown on the operating system `os`: stop the agent,
/// delete its binary and configuration artifact, unregister its service.
pub open spec fn cleanup_steps(os: Seq<char>) -> Seq<StepView> {
    let p = platform_of(os);
    seq![stop_agent_view(), remove_view("lattice-agent"@), remove_view(".lattice-agent.env"@)]
        + disable_steps(p, agent_service_view(p))
}

/// The step that terminates the running agent by name.
pub fn stop_agent_service() -> (r: Vec<Step>)
    ensures
        steps_view(r@) == seq![stop_agent_view()],
{
    let args = vec![text("lattice-agent")];
    assert(texts_view(args@) =~= seq!["lattice-agent"@]);
    let r = vec![run_step("pkill", args, false, "Failed to stop agent", "Failed to stop agent: ")];
    assert(steps_view(r@) =~= seq![stop_agent_view()]);
    r
}

/// The steps that delete the agent binary and its configuration artifact.
pub fn remove_agent_files() -> (r: Vec<Step>)
    ensures
        steps_view(r@) == seq![remove_view("lattice-agent"@), remove_view(".lattice-agent.env"@)],
{
    let r = vec![remove_step("lattice-agent"), remove_step(".lattice-agent.env")];
    assert(steps_view(r@) =~= seq![remove_view("lattice-agent"@), remove_view(".lattice-agent.env"@)]);
    r
}

/// Lets the machine sleep again outside compute hours. Nothing was
/// scheduled by provisioning, so there is nothing to undo.
pub fn remove_caffeine_schedule() -> (r: Result<(), String>)
    ensures
        r is Ok,
{
    Ok(())
}

/// The teardown plan on the operating system `os`; every step of it is
/// best-effort.
pub fn cleanup_plan(os: &str) -> (r: Vec<Step>)
    ensures
        steps_view(r@) == cleanup_steps(os@),
{
    let mut r = stop_agent_service();
    let mut files = remove_agent_files();
    let mut service = remove_auto_start(os);
    let ghost a = steps_view(r@);
    let ghost b = steps_view(files@);
    let ghost c = steps_view(service@);
    r.append(&mut files);
    r.append(&mut service);
    assert(steps_view(r@) =~= a + b + c);
    assert(steps_view(r@) =~= cleanup_steps(os@));
    r
}

/// What a teardown reports: it never fails, whatever its steps met; what
/// they met stays in the run's `ignored` list.
pub fn cleanup_agent(run: &PlanRun) -> (r: Result<String, String>)
    ensures
        r matches Ok(m) && m@ == "Agent cleanup completed"@,
{
    match remove_caffeine_schedule() {
        Ok(()) => {},
        Err(_) => {},
    }
    Ok(text("Agent cleanup completed"))
}

proof fn lemma_best_effort_run_completes(s: PlanState, outs: Seq<OutcomeView>)
    requires
        s.wf(),
        s.failure is None,
        forall|i: int| 0 <= i < s.steps.len() ==> !(#[trigger] s.steps[i]).fatal,
        outs.len() >= s.steps.len() - s.next,
    ensures
        run_all(s, outs).completed(),
    decreases outs.len(),
{
    if outs.len() == 0 || !s.running() {
    } else {
        let t = s.advance(outs[0]);
        assert(!s.steps[s.next as int].fatal);
        lemma_best_effort_run_completes(t, outs.drop_first());
    }
}

/// A teardown never fails: every one of its steps is best-effort, and
/// whatever outcome each step meets, on a host that was provisioned or not,
/// the run reaches its end without error. Calling it again runs the same
/// steps to the same end.
pub proof fn lemma_cleanup_never_fails(os: Seq<char>, outs: Seq<OutcomeView>)
    requires
        outs.len() >= cleanup_steps(os).len(),
    ensures
        forall|i: int| 0 <= i < cleanup_steps(os).len() ==> !(#[trigger] cleanup_steps(os)[i]).fatal,
        run_all(
            PlanState { steps: cleanup_steps(os), next: 0, failure: None, ignored: Seq::empty() },
            outs,
        ).completed(),
{
    let steps = cleanup_steps(os);
    assert forall|i: int| 0 <= i < steps.len() implies !(#[trigger] steps[i]).fatal by {
        let p = platform_of(os);
        let d = agent_service_view(p);
        if i >= 3 {
            assert(steps[i] == disable_steps(p, d)[i - 3]);
        }
    }
    lemma_best_effort_run_completes(
        PlanState { steps, next: 0, failure: None, ignored: Seq::empty() },
        outs,
    );
}

} // verus!
