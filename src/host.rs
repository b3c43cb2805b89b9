use vstd::prelude::*;
use crate::plan::texts_view;
use crate::platform::text;

verus! {

/// Total memory assumed when the host cannot report it.
pub const DEFAULT_TOTAL_MEMORY: u64 = 8_000_000_000;

/// Available memory assumed when the host cannot report it.
pub const DEFAULT_AVAILABLE_MEMORY: u64 = 4_000_000_000;

/// Free disk space assumed when the host cannot report it.
pub const DEFAULT_DISK_SPACE: u64 = 100_000_000_000;

/// A snapshot of the host's facts.
pub struct HostProfile {
    pub os: String,
    pub arch: String,
    pub runtime_installed: bool,
    pub runtime_running: bool,
    pub cpu_cores: u32,
    pub total_memory: u64,
    pub available_memory: u64,
    pub disk_space: u64,
}

/// Total and available memory in bytes; no probe is wired in, so the
/// conservative defaults stand.
pub fn get_memory_info() -> (r: (u64, u64))
    ensures
        r == (DEFAULT_TOTAL_MEMORY, DEFAULT_AVAILABLE_MEMORY),
{
    (DEFAULT_TOTAL_MEMORY, DEFAULT_AVAILABLE_MEMORY)
}

/// Free disk space in bytes; no probe is wired in, so the conservative
/// default stands.
pub fn get_disk_space() -> (r: u64)
    ensures
        r == DEFAULT_DISK_SPACE,
{
    DEFAULT_DISK_SPACE
}

/// Relies on num_cpus::get: the number of CPUs this process may use, which
/// its documentation promises is at least 1.
#[verifier::external_body]
fn cpu_count() -> (r: usize)
    ensures
        r >= 1,
{
    num_cpus::get()
}

/// The profile of a host from its facts. The runtime counts as running only
/// when it is installed; a CPU count beyond `u32` is capped.
pub fn host_profile(
    os: &str,
    arch: &str,
    runtime_installed: bool,
    runtime_running: bool,
    cpus: usize,
    memory: (u64, u64),
    disk_space: u64,
) -> (r: HostProfile)
    ensures
        r.os@ == os@,
        r.arch@ == arch@,
        r.runtime_installed == runtime_installed,
        r.runtime_running == (runtime_installed && runtime_running),
        r.cpu_cores as int == if cpus > u32::MAX { u32::MAX as int } else { cpus as int },
        r.total_memory == memory.0,
        r.available_memory == memory.1,
        r.disk_space == disk_space,
{
    let cpu_cores: u32 = if cpus > u32::MAX as usize {
        u32::MAX
    } else {
        cpus as u32
    };
    HostProfile {
        os: text(os),
        arch: text(arch),
        runtime_installed,
        runtime_running: runtime_installed && runtime_running,
        cpu_cores,
        total_memory: memory.0,
        available_memory: memory.1,
        disk_space,
    }
}

/// The profile of this host, given its operating system, architecture and
/// what the runtime probes found. It never fails: facts that cannot be read
/// take their defaults.
pub fn check_system_requirements(
    os: &str,
    arch: &str,
    runtime_installed: bool,
    runtime_running: bool,
) -> (r: HostProfile)
    ensures
        r.os@ == os@,
        r.arch@ == arch@,
        r.runtime_installed == runtime_installed,
        r.runtime_running == (runtime_installed && runtime_running),
        r.cpu_cores >= 1,
        r.total_memory == DEFAULT_TOTAL_MEMORY,
        r.available_memory == DEFAULT_AVAILABLE_MEMORY,
        r.disk_space == DEFAULT_DISK_SPACE,
{
    let cpus = cpu_count();
    host_profile(os, arch, runtime_installed, runtime_running, cpus, get_memory_info(), get_disk_space())
}

/// The containers that the agent runs; no probe is wired in, so the
/// agent's default set stands.
pub fn get_running_containers() -> (r: Vec<String>)
    ensures
        texts_view(r@) == seq!["postgres"@, "minio"@],
{
    let r = vec![text("postgres"), text("minio")];
    assert(texts_view(r@) =~= seq!["postgres"@, "minio"@]);
    r
}

/// The agent's status as far as it can be told without measuring.
pub struct AgentStatus {
    pub running: bool,
    pub containers: usize,
}

/// The agent's status, given whether a process of it was found.
pub fn get_agent_status(running: bool) -> (r: AgentStatus)
    ensures
        r.running == running,
        r.containers == 2,
{
    let containers = get_running_containers();
    assert(containers@.len() == texts_view(containers@).len());
    AgentStatus { running, containers: containers.len() }
}

} // verus!
