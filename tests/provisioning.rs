use onboarding_agent::cleanup::{cleanup_agent, cleanup_plan};
use onboarding_agent::config::{create_agent_config, parse_agent_config, AgentConfig};
use onboarding_agent::connection::{connection_result, health_url, HealthResponse};
use onboarding_agent::host::{
    check_system_requirements, get_agent_status, get_disk_space, get_memory_info,
    get_running_containers, host_profile,
};
use onboarding_agent::installer::{InstallStep, RuntimeInstaller};
use onboarding_agent::plan::{Outcome, PlanRun, Step, Task};
use onboarding_agent::platform::Platform;
use onboarding_agent::provision::{configure_cluster, setup_agent, setup_agent_outcome};
use onboarding_agent::service::{
    agent_service, remove_auto_start, render_service_descriptor, setup_auto_start,
    setup_windows_service,
};

fn config(url: &str, name: &str, hours: &str, auto_start: bool, gpu: bool) -> AgentConfig {
    AgentConfig {
        backend_url: url.to_string(),
        agent_name: name.to_string(),
        compute_hours: hours.to_string(),
        auto_start,
        gpu_enabled: gpu,
    }
}

fn progress(inst: &RuntimeInstaller) -> Vec<u8> {
    inst.events.iter().map(|e| e.progress).collect()
}

fn run_all_succeeded(steps: Vec<Step>) -> PlanRun {
    let mut run = PlanRun::new(steps);
    while run.is_running() {
        run.report(Outcome::Succeeded);
    }
    run
}

#[test]
fn platform_from_os_names() {
    assert_eq!(Platform::from_os("linux"), Platform::Linux);
    assert_eq!(Platform::from_os("macos"), Platform::MacOs);
    assert_eq!(Platform::from_os("windows"), Platform::Windows);
    assert_eq!(Platform::from_os("freebsd"), Platform::Unsupported);
    assert_eq!(Platform::from_os(""), Platform::Unsupported);
}

#[test]
fn config_text_is_exact() {
    let c = config("http://h:9000", "w1", "9-17", true, false);
    let t = create_agent_config(&c).unwrap();
    assert_eq!(
        t,
        "\nBACKEND_URL=http://h:9000\nAGENT_NAME=w1\nCOMPUTE_HOURS=9-17\nAUTO_START=true\nGPU_ENABLED=false\n"
    );
}

#[test]
fn config_without_backend_is_refused() {
    let c = config("", "w1", "", false, false);
    assert_eq!(create_agent_config(&c), Err("Backend URL is required".to_string()));
}

#[test]
fn config_round_trip() {
    let cases = [
        config("http://h:9000", "w1", "", false, false),
        config("https://x.example/a?b=c", "node=7", "22:00-06:00", true, true),
        config("u", "", "x", false, true),
    ];
    for c in cases.iter() {
        let t = create_agent_config(c).unwrap();
        let back = parse_agent_config(&t).unwrap();
        assert_eq!(back.backend_url, c.backend_url);
        assert_eq!(back.agent_name, c.agent_name);
        assert_eq!(back.compute_hours, c.compute_hours);
        assert_eq!(back.auto_start, c.auto_start);
        assert_eq!(back.gpu_enabled, c.gpu_enabled);
    }
}

#[test]
fn parse_rejects_missing_or_bad_fields() {
    assert!(parse_agent_config("BACKEND_URL=x\nAGENT_NAME=a\n").is_none());
    assert!(parse_agent_config(
        "BACKEND_URL=x\nAGENT_NAME=a\nCOMPUTE_HOURS=\nAUTO_START=yes\nGPU_ENABLED=false\n"
    )
    .is_none());
    let c = parse_agent_config(
        "junk\nBACKEND_URL=x\nBACKEND_URL=y\nAGENT_NAME=a\nCOMPUTE_HOURS=\nAUTO_START=true\nGPU_ENABLED=false",
    )
    .unwrap();
    assert_eq!(c.backend_url, "x");
    assert!(c.auto_start);
    assert!(!c.gpu_enabled);
}

#[test]
fn linux_install_succeeds_with_ordered_progress() {
    let mut inst = RuntimeInstaller::start_with_user("linux", "x86_64", "alice".to_string()).unwrap();
    assert_eq!(inst.platform, Platform::Linux);
    assert_eq!(progress(&inst), vec![10, 20]);
    match &inst.run.steps[2].task {
        Task::Run { program, args } => {
            assert_eq!(program, "sudo");
            assert_eq!(args, &vec!["usermod", "-aG", "docker", "alice"]);
        }
        _ => panic!("expected a command"),
    }
    while inst.run.is_running() {
        inst.report(Outcome::Succeeded);
    }
    assert_eq!(progress(&inst), vec![10, 20, 70, 100]);
    let last = inst.events.last().unwrap();
    assert_eq!(last.step, InstallStep::Completed);
    assert!(last.success);
    assert_eq!(last.message, "Docker installation completed successfully");
    assert!(inst.run.failure.is_none());
    assert_eq!(inst.events[0].step.name(), "preparing");
    assert_eq!(inst.events[1].step.name(), "updating");
}

#[test]
fn progress_never_decreases_on_every_platform() {
    for os in ["windows", "macos", "linux"] {
        let mut inst = RuntimeInstaller::start_with_user(os, "aarch64", "bob".to_string()).unwrap();
        while inst.run.is_running() {
            inst.report(Outcome::Succeeded);
        }
        let p = progress(&inst);
        assert!(p.windows(2).all(|w| w[0] <= w[1]));
        assert_eq!(*p.last().unwrap(), 100);
        assert!(inst.events.iter().all(|e| e.success));
    }
}

#[test]
fn failed_install_keeps_partial_progress() {
    let mut inst = RuntimeInstaller::start_with_user("windows", "x86_64", "u".to_string()).unwrap();
    inst.report(Outcome::Succeeded);
    assert_eq!(progress(&inst), vec![10, 30, 70]);
    inst.report(Outcome::Unsuccessful);
    assert_eq!(inst.run.failure, Some("Docker installation failed".to_string()));
    assert!(!inst.run.is_running());
    assert_eq!(progress(&inst), vec![10, 30, 70]);
    assert_eq!(inst.events[2].step, InstallStep::Installing);
}

#[test]
fn installer_that_cannot_run_reports_cause() {
    let mut inst = RuntimeInstaller::start_with_user("windows", "x86_64", "u".to_string()).unwrap();
    inst.report(Outcome::Succeeded);
    inst.report(Outcome::Unavailable("not found".to_string()));
    assert_eq!(inst.run.failure, Some("Failed to run installer: not found".to_string()));
}

#[test]
fn failed_download_stops_install() {
    let mut inst = RuntimeInstaller::start_with_user("macos", "x86_64", "u".to_string()).unwrap();
    inst.report(Outcome::Unavailable("Failed to download: timeout".to_string()));
    assert_eq!(inst.run.failure, Some("Failed to download: timeout".to_string()));
    assert_eq!(progress(&inst), vec![10, 30]);
}

#[test]
fn macos_download_follows_architecture() {
    let arm = RuntimeInstaller::start_with_user("macos", "aarch64", "u".to_string()).unwrap();
    let intel = RuntimeInstaller::start_with_user("macos", "x86_64", "u".to_string()).unwrap();
    match (&arm.run.steps[0].task, &intel.run.steps[0].task) {
        (Task::Download { url: a, dest: d }, Task::Download { url: b, .. }) => {
            assert_eq!(a, "https://desktop.docker.com/mac/main/arm64/Docker.dmg");
            assert_eq!(b, "https://desktop.docker.com/mac/main/amd64/Docker.dmg");
            assert_eq!(d, "Docker.dmg");
        }
        _ => panic!("expected downloads"),
    }
}

#[test]
fn linux_group_change_is_best_effort() {
    let mut inst = RuntimeInstaller::start_with_user("linux", "x86_64", "u".to_string()).unwrap();
    inst.report(Outcome::Succeeded);
    inst.report(Outcome::Succeeded);
    inst.report(Outcome::Unsuccessful);
    assert!(inst.run.failure.is_none());
    assert_eq!(inst.run.ignored, vec!["Failed to add user to docker group".to_string()]);
    assert_eq!(*progress(&inst).last().unwrap(), 100);
}

#[test]
fn unsupported_os_is_refused_before_work() {
    match RuntimeInstaller::start_with_user("plan9", "x86_64", "u".to_string()) {
        Err(e) => assert_eq!(e, "Unsupported OS: plan9"),
        Ok(_) => panic!("expected an error"),
    }
}

#[test]
fn start_uses_current_account() {
    let inst = RuntimeInstaller::start("linux", "x86_64").unwrap();
    assert_eq!(inst.run.steps.len(), 3);
    assert!(RuntimeInstaller::start("haiku", "x86_64").is_err());
}

#[test]
fn provision_scenario_succeeds() {
    let c = config("http://h:9000", "w1", "", false, false);
    let steps = setup_agent(&c, "linux", "x86_64").unwrap();
    assert_eq!(steps.len(), 4);
    match &steps[0].task {
        Task::Download { url, dest } => {
            assert_eq!(url, "https://github.com/lattice-console/releases/latest/download/lattice-agent-linux-x86_64");
            assert_eq!(dest, "lattice-agent");
        }
        _ => panic!("expected a download"),
    }
    assert!(matches!(&steps[1].task, Task::MakeExecutable { path } if path == "lattice-agent"));
    match &steps[2].task {
        Task::WriteFile { path, contents } => {
            assert_eq!(path, ".lattice-agent.env");
            assert_eq!(contents, &create_agent_config(&c).unwrap());
        }
        _ => panic!("expected a write"),
    }
    assert!(matches!(&steps[3].task, Task::Spawn { program, args } if program == "./lattice-agent" && args == &vec!["start".to_string()]));
    let run = run_all_succeeded(steps);
    assert_eq!(setup_agent_outcome(&run), Ok("Agent setup completed successfully".to_string()));
}

#[test]
fn provision_with_auto_start_enables_service_once() {
    let c = config("http://h:9000", "w1", "", true, false);
    let steps = setup_agent(&c, "linux", "x86_64").unwrap();
    let unit_writes = steps
        .iter()
        .filter(|s| matches!(&s.task, Task::WriteFile { path, .. } if path == "/etc/systemd/system/lattice-agent.service"))
        .count();
    assert_eq!(unit_writes, 1);
    assert_eq!(steps.len(), 7);
    let windows = setup_agent(&c, "windows", "x86_64").unwrap();
    assert_eq!(windows.len(), 3);
}

#[test]
fn provision_hands_on_compute_hours() {
    let c = config("http://h:9000", "w1", "22:00-06:00", true, false);
    let steps = setup_agent(&c, "macos", "aarch64").unwrap();
    let keep_awake: Vec<&String> = steps
        .iter()
        .filter_map(|s| match &s.task {
            Task::KeepAwake { schedule } => Some(schedule),
            _ => None,
        })
        .collect();
    assert_eq!(keep_awake, vec!["22:00-06:00"]);
    assert!(matches!(&steps.last().unwrap().task, Task::KeepAwake { .. }));
    assert_eq!(steps.len(), 7);
    let none = setup_agent(&config("http://h:9000", "w1", "", false, false), "macos", "aarch64").unwrap();
    assert!(none.iter().all(|s| !matches!(&s.task, Task::KeepAwake { .. })));
}

#[test]
fn provision_refusals() {
    let c = config("http://h:9000", "w1", "", true, false);
    assert_eq!(setup_agent(&c, "plan9", "x86_64").err(), Some("Auto-start not supported on plan9".to_string()));
    let c = config("http://h:9000", "w1", "", false, false);
    assert!(setup_agent(&c, "plan9", "x86_64").is_ok());
    let c = config("", "w1", "", false, false);
    assert_eq!(setup_agent(&c, "linux", "x86_64").err(), Some("Backend URL is required".to_string()));
}

#[test]
fn provision_stops_at_failed_launch() {
    let c = config("http://h:9000", "w1", "9-17", false, true);
    let mut run = PlanRun::new(setup_agent(&c, "macos", "aarch64").unwrap());
    run.report(Outcome::Succeeded);
    run.report(Outcome::Succeeded);
    run.report(Outcome::Succeeded);
    run.report(Outcome::Unavailable("no such file".to_string()));
    assert!(!run.is_running());
    assert_eq!(run.next, 3);
    assert_eq!(run.steps.len(), 5);
    assert_eq!(setup_agent_outcome(&run), Err("Failed to start agent: no such file".to_string()));
}

#[test]
fn cleanup_never_fails_and_repeats() {
    for os in ["linux", "macos", "windows", "plan9"] {
        for _ in 0..2 {
            let steps = cleanup_plan(os);
            assert!(steps.iter().all(|s| !s.fatal));
            let mut run = PlanRun::new(steps);
            while run.is_running() {
                run.report(Outcome::Unavailable("not there".to_string()));
            }
            assert!(run.failure.is_none());
            assert_eq!(cleanup_agent(&run), Ok("Agent cleanup completed".to_string()));
        }
    }
    assert_eq!(cleanup_plan("linux").len(), 5);
    assert_eq!(cleanup_plan("windows").len(), 3);
}

#[test]
fn service_descriptors_render_deterministically() {
    let d = agent_service(Platform::Linux);
    let a = render_service_descriptor(Platform::Linux, &d).unwrap();
    let b = render_service_descriptor(Platform::Linux, &d).unwrap();
    assert_eq!(a, b);
    assert!(a.contains("[Unit]") && a.contains("[Service]") && a.contains("[Install]"));
    assert!(a.contains("ExecStart=/usr/local/bin/lattice-agent start\nRestart=always\nRestartSec=10\n"));
    let m = agent_service(Platform::MacOs);
    let plist = render_service_descriptor(Platform::MacOs, &m).unwrap();
    assert!(plist.starts_with("<?xml version=\"1.0\" encoding=\"UTF-8\"?>\n<!DOCTYPE plist"));
    assert!(plist.ends_with("</plist>\n"));
    assert!(plist.contains("<key>Label</key>\n    <string>com.lattice-console.agent</string>"));
    assert!(plist.contains("<key>ProgramArguments</key>"));
    assert!(plist.contains("<key>RunAtLoad</key>\n    <true/>"));
    assert!(plist.contains("<key>KeepAlive</key>\n    <true/>"));
    assert!(render_service_descriptor(Platform::Unsupported, &d).is_none());
}

#[test]
fn auto_start_plans() {
    let linux = setup_auto_start("linux").unwrap();
    assert_eq!(linux.len(), 3);
    match &linux[1].task {
        Task::Run { program, args } => {
            assert_eq!(program, "sudo");
            assert_eq!(args, &vec!["systemctl", "enable", "lattice-agent.service"]);
        }
        _ => panic!("expected a command"),
    }
    assert_eq!(setup_auto_start("macos").unwrap().len(), 2);
    assert!(setup_auto_start("windows").unwrap().is_empty());
    assert_eq!(setup_auto_start("beos").err(), Some("Auto-start not supported on beos".to_string()));
    assert_eq!(setup_windows_service(), Ok(()));
    let off = remove_auto_start("macos");
    assert_eq!(off.len(), 2);
    assert!(off.iter().all(|s| !s.fatal));
}

#[test]
fn connection_verdicts() {
    assert_eq!(health_url("http://unreachable:1"), "http://unreachable:1/health");
    assert_eq!(
        connection_result(HealthResponse::Failed("dns error".to_string())),
        Err("Connection failed: dns error".to_string())
    );
    assert_eq!(connection_result(HealthResponse::Status(200)), Ok(true));
    assert_eq!(connection_result(HealthResponse::Status(299)), Ok(true));
    assert_eq!(connection_result(HealthResponse::Status(300)), Ok(false));
    assert_eq!(connection_result(HealthResponse::Status(503)), Ok(false));
}

#[test]
fn host_profile_defaults() {
    let p = host_profile("linux", "x86_64", false, true, 8, (1, 2), 3);
    assert!(!p.runtime_running);
    assert_eq!(p.cpu_cores, 8);
    assert_eq!((p.total_memory, p.available_memory, p.disk_space), (1, 2, 3));
    let big = host_profile("linux", "x86_64", true, true, usize::MAX, (0, 0), 0);
    assert!(big.runtime_running);
    assert_eq!(big.cpu_cores, u32::MAX);
    let h = check_system_requirements("linux", "x86_64", true, false);
    assert!(h.cpu_cores >= 1);
    assert_eq!(h.total_memory, 8_000_000_000);
    assert_eq!(get_memory_info(), (8_000_000_000, 4_000_000_000));
    assert_eq!(get_disk_space(), 100_000_000_000);
}

#[test]
fn status_and_cluster() {
    assert_eq!(get_running_containers(), vec!["postgres".to_string(), "minio".to_string()]);
    let s = get_agent_status(true);
    assert!(s.running);
    assert_eq!(s.containers, 2);
    assert_eq!(
        configure_cluster(&vec!["gpu0".to_string(), "gpu1".to_string()]),
        Ok("Cluster configuration completed".to_string())
    );
}
