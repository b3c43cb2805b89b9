use vstd::prelude::*;
use crate::config::{config_text, create_agent_config, AgentConfig, ConfigView};
use crate::installer::download_view;
use crate::plan::{
    steps_view, texts_view, write_step, write_view, PlanRun, Step, StepView,
    Task, TaskView,
};
use crate::platform::{join, platform_of, text, Platform};
use crate::service::{agent_service, agent_service_view, enable_service, enable_steps};

verus! {

/// Where the agent binary for `os` and `arch` is published.
pub open spec fn agent_url(os: Seq<char>, arch: Seq<char>) -> Seq<char> {
    "https://github.com/lattice-console/releases/latest/download/lattice-agent-"@ + os + "-"@ + arch
}

pub open spec fn make_executable_view(path: Seq<char>) -> StepView {
    StepView {
        task: TaskView::MakeExecutable { path },
        fatal: true,
        unsuccessful: "Failed to set permissions"@,
        unavailable: "Failed to set permissions: "@,
    }
}

/// Fetch the agent binary and, on POSIX platforms, make it executable.
pub open spec fn download_agent_steps(os: Seq<char>, arch: Seq<char>) -> Seq<StepView> {
    let fetch = seq![download_view(agent_url(os, arch), "lattice-agent"@)];
    if platform_of(os).is_posix() {
        fetch.push(make_executable_view("lattice-agent"@))
    } else {
        fetch
    }
}

/// Write the configuration artifact and launch the agent detached.
pub open spec fn start_agent_steps(config: Seq<char>) -> Seq<StepView> {
    seq![
        write_view(".lattice-agent.env"@, config, "Failed to write config"@, "Failed to write config: "@),
        StepView {
            task: TaskView::Spawn { program: "./lattice-agent"@, args: seq!["start"@] },
            fatal: true,
            unsuccessful: "Failed to start agent"@,
            unavailable: "Failed to start agent: "@,
        },
    ]
}

pub open spec fn keep_awake_view(schedule: Seq<char>) -> StepView {
    StepView {
        task: TaskView::KeepAwake { schedule },
        fatal: true,
        unsuccessful: "Failed to set up compute hours"@,
        unavailable: "Failed to set up compute hours: "@,
    }
}

/// Every step of a provisioning, in order: the service is enabled once
/// when auto-start is asked for, and then the compute hours, when given, are
/// handed on once, as they are.
pub open spec fn provision_steps(c: ConfigView, os: Seq<char>, arch: Seq<char>) -> Seq<StepView> {
    let p = platform_of(os);
    download_agent_steps(os, arch) + start_agent_steps(config_text(c)) + (if c.auto_start {
        enable_steps(p, agent_service_view(p))
    } else {
        Seq::empty()
    }) + (if c.compute_hours.len() != 0 {
        seq![keep_awake_view(c.compute_hours)]
    } else {
        Seq::empty()
    })
}

/// The steps that fetch the agent binary for `os` and `arch`.
pub fn download_agent(os: &str, arch: &str) -> (r: Vec<Step>)
    ensures
        steps_view(r@) == download_agent_steps(os@, arch@),
{
    let mut url = join(
        "https://github.com/lattice-console/releases/latest/download/lattice-agent-",
        os,
    );
    url.append("-");
    url.append(arch);
    let fetch = Step {
        task: Task::Download { url, dest: text("lattice-agent") },
        fatal: true,
        unsuccessful: text("Failed to download"),
        unavailable: String::new(),
    };
    let mut r = vec![fetch];
    let ghost first = steps_view(r@);
    assert(first =~= seq![download_view(agent_url(os@, arch@), "lattice-agent"@)]);
    let p = Platform::from_os(os);
    if p == Platform::MacOs || p == Platform::Linux {
        r.push(
            Step {
                task: Task::MakeExecutable { path: text("lattice-agent") },
                fatal: true,
                unsuccessful: text("Failed to set permissions"),
                unavailable: text("Failed to set permissions: "),
            },
        );
        assert(steps_view(r@) =~= first.push(make_executable_view("lattice-agent"@)));
    }
    r
}

/// The steps that write the configuration artifact `config` and launch the
/// agent.
pub fn start_agent_service(config: String) -> (r: Vec<Step>)
    ensures
        steps_view(r@) == start_agent_steps(config@),
{
    let a = write_step(".lattice-agent.env", config, "Failed to write config", "Failed to write config: ");
    let args = vec![text("start")];
    assert(texts_view(args@) =~= seq!["start"@]);
    let b = Step {
        task: Task::Spawn { program: text("./lattice-agent"), args },
        fatal: true,
        unsuccessful: text("Failed to start agent"),
        unavailable: text("Failed to start agent: "),
    };
    let r = vec![a, b];
    assert(steps_view(r@) =~= start_agent_steps(config@));
    r
}

/// The step that keeps the machine awake during `schedule`, so that the
/// request reaches the application whether or not the platform can honour
/// it.
pub fn setup_caffeine_schedule(schedule: &str) -> (r: Vec<Step>)
    ensures
        steps_view(r@) == seq![keep_awake_view(schedule@)],
{
    let r = vec![
        Step {
            task: Task::KeepAwake { schedule: text(schedule) },
            fatal: true,
            unsuccessful: text("Failed to set up compute hours"),
            unavailable: text("Failed to set up compute hours: "),
        },
    ];
    assert(steps_view(r@) =~= seq![keep_awake_view(schedule@)]);
    r
}

/// The plan that provisions the agent described by `config` on the
/// operating system `os` and architecture `arch`. A configuration without a
/// backend URL, or auto-start on an unsupported platform, is refused before
/// any step.
pub fn setup_agent(config: &AgentConfig, os: &str, arch: &str) -> (r: Result<Vec<Step>, String>)
    ensures
        config.backend_url@.len() == 0 ==> (r matches Err(e) && e@ == "Backend URL is required"@),
        config.backend_url@.len() != 0 && config.auto_start && platform_of(os@)
            == Platform::Unsupported ==> (r matches Err(e) && e@ == "Auto-start not supported on "@
            + os@),
        config.backend_url@.len() != 0 && !(config.auto_start && platform_of(os@)
            == Platform::Unsupported) ==> (r matches Ok(v) && steps_view(v@) == provision_steps(
            config@,
            os@,
            arch@,
        )),
{
    let agent_config = match create_agent_config(config) {
        Ok(t) => t,
        Err(e) => return Err(e),
    };
    let p = Platform::from_os(os);
    let service = if config.auto_start {
        if p == Platform::Unsupported {
            return Err(join("Auto-start not supported on ", os));
        }
        match enable_service(p, &agent_service(p)) {
            Ok(v) => v,
            Err(e) => return Err(e),
        }
    } else {
        Vec::new()
    };
    let mut awake = if config.compute_hours.as_str().is_empty() {
        Vec::new()
    } else {
        setup_caffeine_schedule(config.compute_hours.as_str())
    };
    let mut steps = download_agent(os, arch);
    let mut start = start_agent_service(agent_config);
    let mut service = service;
    let ghost a = steps_view(steps@);
    let ghost b = steps_view(start@);
    let ghost c = steps_view(service@);
    steps.append(&mut start);
    assert(steps_view(steps@) =~= a + b);
    steps.append(&mut service);
    assert(steps_view(steps@) =~= a + b + c);
    assert(c =~= (if config.auto_start {
        enable_steps(p, agent_service_view(p))
    } else {
        Seq::empty()
    }));
    let ghost d = steps_view(awake@);
    steps.append(&mut awake);
    assert(steps_view(steps@) =~= a + b + c + d);
    assert(d =~= (if config.compute_hours@.len() != 0 {
        seq![keep_awake_view(config.compute_hours@)]
    } else {
        Seq::empty()
    }));
    Ok(steps)
}

/// What a provisioning reports once its plan has stopped: the error of the
/// step that failed, or the success message.
pub fn setup_agent_outcome(run: &PlanRun) -> (r: Result<String, String>)
    ensures
        run@.failure matches Some(e) ==> (r matches Err(m) && m@ == e),
        run@.failure is None ==> (r matches Ok(m) && m@ == "Agent setup completed successfully"@),
{
    match &run.failure {
        Some(e) => Err(e.clone()),
        None => Ok(text("Agent setup completed successfully")),
    }
}

/// Prepares one GPU for use by the agent. No platform needs work for it
/// yet, so every identifier is accepted.
pub fn setup_gpu_support(gpu: &str) -> (r: Result<(), String>)
    ensures
        r is Ok,
{
    Ok(())
}

/// Prepares every GPU in `gpu_config`, stopping at the first refusal.
pub fn configure_cluster(gpu_config: &Vec<String>) -> (r: Result<String, String>)
    ensures
        r matches Ok(m) && m@ == "Cluster configuration completed"@,
{
    let mut i: usize = 0;
    while i < gpu_config.len()
        invariant
            i <= gpu_config.len(),
        decreases gpu_config.len() - i,
    {
        match setup_gpu_support(gpu_config[i].as_str()) {
            Ok(()) => {},
            Err(e) => return Err(e),
        }
        i = i + 1;
    }
    Ok(text("Cluster configuration completed"))
}

} // verus!
