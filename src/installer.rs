use vstd::prelude::*;
use crate::plan::{
    run_step, run_view,
    steps_view, texts_view, Outcome, OutcomeView, PlanRun, PlanState, Step, StepView, Task,
    TaskView,
};
use crate::platform::{is_arm64, join, platform_of, text, Platform};

verus! {

/// The phases of a container-runtime installation.
#[derive(Clone, Copy, Debug, PartialEq, Eq, Structural)]
pub enum InstallStep {
    Preparing,
    Updating,
    Downloading,
    Installing,
    Completed,
}

pub open spec fn install_step_name(s: InstallStep) -> Seq<char> {
    match s {
        InstallStep::Preparing => "preparing"@,
        InstallStep::Updating => "updating"@,
        InstallStep::Downloading => "downloading"@,
        InstallStep::Installing => "installing"@,
        InstallStep::Completed => "completed"@,
    }
}

impl InstallStep {
    /// The identifier under which the phase is reported.
    pub fn name(&self) -> (r: String)
        ensures
            r@ == install_step_name(*self),
    {
        match self {
            InstallStep::Preparing => text("preparing"),
            InstallStep::Updating => text("updating"),
            InstallStep::Downloading => text("downloading"),
            InstallStep::Installing => text("installing"),
            InstallStep::Completed => text("completed"),
        }
    }
}

/// One progress report of an installation run.
pub struct ProgressEvent {
    pub step: InstallStep,
    /// Percentage of the run done, 0 to 100.
    pub progress: u8,
    pub message: String,
    pub success: bool,
}

pub ghost struct EventView {
    pub step: InstallStep,
    pub progress: u8,
    pub message: Seq<char>,
    pub success: bool,
}

impl View for ProgressEvent {
    type V = EventView;

    open spec fn view(&self) -> EventView {
        EventView {
            step: self.step,
            progress: self.progress,
            message: self.message@,
            success: self.success,
        }
    }
}

pub open spec fn events_view(v: Seq<ProgressEvent>) -> Seq<EventView> {
    v.map_values(|e: ProgressEvent| e@)
}

pub open spec fn event(step: InstallStep, progress: u8, message: Seq<char>) -> EventView {
    EventView { step, progress, message, success: true }
}

pub open spec fn preparing_event() -> EventView {
    event(InstallStep::Preparing, 10, "Preparing Docker installation..."@)
}

pub open spec fn completed_event() -> EventView {
    event(InstallStep::Completed, 100, "Docker installation completed successfully"@)
}

/// The event announced when stage `i` of the platform's plan begins.
pub open spec fn stage_event(p: Platform, i: int) -> Option<EventView> {
    if i == 0 {
        match p {
            Platform::Windows => Some(
                event(InstallStep::Downloading, 30, "Downloading Docker Desktop for Windows..."@),
            ),
            Platform::MacOs => Some(
                event(InstallStep::Downloading, 30, "Downloading Docker Desktop for macOS..."@),
            ),
            _ => Some(event(InstallStep::Updating, 20, "Updating package repositories..."@)),
        }
    } else if i == 1 {
        match p {
            Platform::Linux => Some(event(InstallStep::Installing, 70, "Installing Docker Engine..."@)),
            _ => Some(event(InstallStep::Installing, 70, "Installing Docker Desktop..."@)),
        }
    } else {
        None
    }
}

pub open spec fn download_view(url: Seq<char>, dest: Seq<char>) -> StepView {
    StepView {
        task: TaskView::Download { url, dest },
        fatal: true,
        unsuccessful: "Failed to download"@,
        unavailable: Seq::empty(),
    }
}

pub open spec fn runtime_url(p: Platform, arm: bool) -> Seq<char> {
    match p {
        Platform::Windows => "https://desktop.docker.com/win/main/amd64/Docker%20Desktop%20Installer.exe"@,
        _ => if arm {
            "https://desktop.docker.com/mac/main/arm64/Docker.dmg"@
        } else {
            "https://desktop.docker.com/mac/main/amd64/Docker.dmg"@
        },
    }
}

/// The steps that install the container runtime on a supported platform;
/// `arm` tells whether the machine is 64-bit ARM and `user` is the account
/// that joins the runtime's group on Linux.
pub open spec fn runtime_steps(p: Platform, arm: bool, user: Seq<char>) -> Seq<StepView> {
    match p {
        Platform::Windows => seq![
            download_view(runtime_url(p, arm), "DockerDesktopInstaller.exe"@),
            run_view(
                "DockerDesktopInstaller.exe"@,
                seq!["install"@, "--quiet"@],
                true,
                "Docker installation failed"@,
                "Failed to run installer: "@,
            ),
        ],
        Platform::MacOs => seq![
            download_view(runtime_url(p, arm), "Docker.dmg"@),
            run_view(
                "hdiutil"@,
                seq!["attach"@, "Docker.dmg"@],
                true,
                "Failed to mount DMG"@,
                "Failed to mount DMG: "@,
            ),
            run_view(
                "cp"@,
                seq!["-R"@, "/Volumes/Docker/Docker.app"@, "/Applications/"@],
                true,
                "Failed to copy app"@,
                "Failed to copy app: "@,
            ),
        ],
        _ => seq![
            run_view(
                "sudo"@,
                seq!["apt"@, "update"@],
                true,
                "Failed to update package repositories"@,
                "Failed to update packages: "@,
            ),
            run_view(
                "sudo"@,
                seq!["apt"@, "install"@, "-y"@, "docker.io"@, "docker-compose"@],
                true,
                "Docker installation failed"@,
                "Failed to install Docker: "@,
            ),
            run_view(
                "sudo"@,
                seq!["usermod"@, "-aG"@, "docker"@, user],
                false,
                "Failed to add user to docker group"@,
                "Failed to add user to docker group: "@,
            ),
        ],
    }
}

/// Relies on whoami::username: the name of the account that runs this
/// process, or a fixed default where the system cannot tell.
#[verifier::external_body]
fn current_username() -> (r: String) {
    whoami::username()
}

/// The installation steps for the architecture identifier `arch`.
pub open spec fn runtime_steps_on(p: Platform, arch: Seq<char>, user: Seq<char>) -> Seq<StepView> {
    runtime_steps(p, arch == "aarch64"@, user)
}

fn download_step(url: &str, dest: &str) -> (r: Step)
    ensures
        r@ == download_view(url@, dest@),
{
    Step {
        task: Task::Download { url: text(url), dest: text(dest) },
        fatal: true,
        unsuccessful: text("Failed to download"),
        unavailable: String::new(),
    }
}

fn runtime_steps_exec(p: Platform, arm: bool, user: String) -> (r: Vec<Step>)
    requires
        p != Platform::Unsupported,
    ensures
        steps_view(r@) == runtime_steps(p, arm, user@),
{
    match p {
        Platform::Windows => {
            let a = download_step(
                "https://desktop.docker.com/win/main/amd64/Docker%20Desktop%20Installer.exe",
                "DockerDesktopInstaller.exe",
            );
            let args = vec![text("install"), text("--quiet")];
            assert(texts_view(args@) =~= seq!["install"@, "--quiet"@]);
            let b = run_step(
                "DockerDesktopInstaller.exe",
                args,
                true,
                "Docker installation failed",
                "Failed to run installer: ",
            );
            let r = vec![a, b];
            assert(steps_view(r@) =~= runtime_steps(p, arm, user@));
            r
        },
        Platform::MacOs => {
            let a = if arm {
                download_step("https://desktop.docker.com/mac/main/arm64/Docker.dmg", "Docker.dmg")
            } else {
                download_step("https://desktop.docker.com/mac/main/amd64/Docker.dmg", "Docker.dmg")
            };
            let args = vec![text("attach"), text("Docker.dmg")];
            assert(texts_view(args@) =~= seq!["attach"@, "Docker.dmg"@]);
            let b = run_step(
                "hdiutil",
                args,
                true,
                "Failed to mount DMG",
                "Failed to mount DMG: ",
            );
            let args = vec![text("-R"), text("/Volumes/Docker/Docker.app"), text("/Applications/")];
            assert(texts_view(args@) =~= seq!["-R"@, "/Volumes/Docker/Docker.app"@, "/Applications/"@]);
            let c = run_step(
                "cp",
                args,
                true,
                "Failed to copy app",
                "Failed to copy app: ",
            );
            let r = vec![a, b, c];
            assert(steps_view(r@) =~= runtime_steps(p, arm, user@));
            r
        },
        _ => {
            let args = vec![text("apt"), text("update")];
            assert(texts_view(args@) =~= seq!["apt"@, "update"@]);
            let a = run_step(
                "sudo",
                args,
                true,
                "Failed to update package repositories",
                "Failed to update packages: ",
            );
            let args = vec![text("apt"), text("install"), text("-y"), text("docker.io"), text("docker-compose")];
            assert(texts_view(args@) =~= seq!["apt"@, "install"@, "-y"@, "docker.io"@, "docker-compose"@]);
            let b = run_step(
                "sudo",
                args,
                true,
                "Docker installation failed",
                "Failed to install Docker: ",
            );
            let ghost u = user@;
            let args = vec![text("usermod"), text("-aG"), text("docker"), user];
            assert(texts_view(args@) =~= seq!["usermod"@, "-aG"@, "docker"@, u]);
            let c = run_step(
                "sudo",
                args,
                false,
                "Failed to add user to docker group",
                "Failed to add user to docker group: ",
            );
            let r = vec![a, b, c];
            assert(steps_view(r@) =~= runtime_steps(p, arm, user@));
            r
        },
    }
}

fn make_event(step: InstallStep, progress: u8, message: &str) -> (r: ProgressEvent)
    ensures
        r@ == event(step, progress, message@),
{
    ProgressEvent { step, progress, message: text(message), success: true }
}

fn stage_event_exec(p: Platform, i: usize) -> (r: Option<ProgressEvent>)
    ensures
        r matches Some(e) ==> stage_event(p, i as int) == Some(e@),
        r is None <==> stage_event(p, i as int) is None,
{
    if i == 0 {
        match p {
            Platform::Windows => Some(
                make_event(InstallStep::Downloading, 30, "Downloading Docker Desktop for Windows..."),
            ),
            Platform::MacOs => Some(
                make_event(InstallStep::Downloading, 30, "Downloading Docker Desktop for macOS..."),
            ),
            _ => Some(make_event(InstallStep::Updating, 20, "Updating package repositories...")),
        }
    } else if i == 1 {
        match p {
            Platform::Linux => Some(make_event(InstallStep::Installing, 70, "Installing Docker Engine...")),
            _ => Some(make_event(InstallStep::Installing, 70, "Installing Docker Desktop...")),
        }
    } else {
        None
    }
}

/// Highest progress announced once stage `i` has begun, before completion.
pub open spec fn progress_cap(p: Platform, i: int) -> int {
    if i == 0 {
        if p == Platform::Linux { 20 } else { 30 }
    } else {
        70
    }
}

/// Progress never goes down along `ev`.
pub open spec fn nondecreasing(ev: Seq<EventView>) -> bool {
    forall|i: int, j: int| 0 <= i <= j < ev.len() ==> ev[i].progress <= ev[j].progress
}

/// An installation run: the plan being carried out and the progress reported
/// so far.
pub struct RuntimeInstaller {
    pub platform: Platform,
    pub run: PlanRun,
    pub events: Vec<ProgressEvent>,
}

pub ghost struct InstallerState {
    pub platform: Platform,
    pub run: PlanState,
    pub events: Seq<EventView>,
}

impl View for RuntimeInstaller {
    type V = InstallerState;

    open spec fn view(&self) -> InstallerState {
        InstallerState { platform: self.platform, run: self.run@, events: events_view(self.events@) }
    }
}

impl InstallerState {
    pub open spec fn wf(self) -> bool {
        &&& self.platform != Platform::Unsupported
        &&& self.run.wf()
        &&& self.run.steps.len() == (if self.platform == Platform::Windows { 2int } else { 3int })
        &&& self.events.len() >= 1
        &&& nondecreasing(self.events)
        &&& forall|i: int| 0 <= i < self.events.len() ==> #[trigger] self.events[i].success
        &&& self.run.completed() ==> self.events.last() == completed_event()
        &&& !self.run.completed() ==> forall|i: int|
            0 <= i < self.events.len() ==> #[trigger] self.events[i].progress <= progress_cap(
                self.platform,
                self.run.next as int,
            )
    }

    /// The state after the current step was carried out with outcome `o`:
    /// moving on to a stage announces it, finishing the last one announces
    /// completion, and a failure announces nothing.
    pub open spec fn advance(self, o: OutcomeView) -> InstallerState {
        let run = self.run.advance(o);
        let events = if run.completed() {
            self.events.push(completed_event())
        } else if run.running() && run.next != self.run.next {
            match stage_event(self.platform, run.next as int) {
                Some(e) => self.events.push(e),
                None => self.events,
            }
        } else {
            self.events
        };
        InstallerState { run, events, ..self }
    }
}

impl RuntimeInstaller {
    /// Starts an installation for the operating system `os` on architecture
    /// `arch`; on Linux `user` joins the runtime's group. The preparing event
    /// and the announcement of the first stage are reported at once.
    pub fn start_with_user(os: &str, arch: &str, user: String) -> (r: Result<RuntimeInstaller, String>)
        ensures
            platform_of(os@) == Platform::Unsupported <==> r is Err,
            r matches Err(e) ==> e@ == "Unsupported OS: "@ + os@,
            r matches Ok(inst) ==> {
                &&& inst@.wf()
                &&& inst.platform == platform_of(os@)
                &&& inst@.run.steps == runtime_steps(inst.platform, arch@ == "aarch64"@, user@)
                &&& inst@.run.next == 0
                &&& inst@.run.failure is None
                &&& inst@.events == seq![preparing_event(), stage_event(inst.platform, 0).unwrap()]
            },
    {
        let p = Platform::from_os(os);
        if p == Platform::Unsupported {
            return Err(join("Unsupported OS: ", os));
        }
        let arm = is_arm64(arch);
        let steps = runtime_steps_exec(p, arm, user);
        let run = PlanRun::new(steps);
        let first = make_event(InstallStep::Preparing, 10, "Preparing Docker installation...");
        let mut events = vec![first];
        match stage_event_exec(p, 0) {
            Some(e) => events.push(e),
            None => {},
        }
        let r = RuntimeInstaller { platform: p, run, events };
        assert(r@.events =~= seq![preparing_event(), stage_event(p, 0).unwrap()]);
        Ok(r)
    }

    /// Starts an installation for `os` on `arch`, with the account that runs
    /// this process as the one that joins the runtime's group on Linux.
    pub fn start(os: &str, arch: &str) -> (r: Result<RuntimeInstaller, String>)
        ensures
            platform_of(os@) == Platform::Unsupported <==> r is Err,
            r matches Err(e) ==> e@ == "Unsupported OS: "@ + os@,
            r matches Ok(inst) ==> {
                &&& inst@.wf()
                &&& inst.platform == platform_of(os@)
                &&& exists|user: Seq<char>|
                    inst@.run.steps == #[trigger] runtime_steps_on(inst.platform, arch@, user)
                &&& inst@.run.next == 0
                &&& inst@.run.failure is None
                &&& inst@.events == seq![preparing_event(), stage_event(inst.platform, 0).unwrap()]
            },
    {
        let user = current_username();
        let ghost u = user@;
        let r = RuntimeInstaller::start_with_user(os, arch, user);
        assert(r matches Ok(inst) ==> inst@.run.steps == runtime_steps_on(inst.platform, arch@, u));
        r
    }

    /// Records the outcome of the current step and reports the progress that
    /// follows from it.
    pub fn report(&mut self, outcome: Outcome)
        requires
            old(self)@.wf(),
            old(self)@.run.running(),
        ensures
            final(self)@ == old(self)@.advance(outcome@),
            final(self)@.wf(),
    {
        let ghost before = self@;
        let prev = self.run.next;
        self.run.report(outcome);
        assert(self.run@ == before.run.advance(outcome@));
        if self.run.failure.is_none() && self.run.next == self.run.steps.len() {
            self.events.push(make_event(InstallStep::Completed, 100, "Docker installation completed successfully"));
        } else if self.run.is_running() && self.run.next != prev {
            match stage_event_exec(self.platform, self.run.next) {
                Some(e) => self.events.push(e),
                None => {},
            }
        }
        assert(self@.events =~= before.advance(outcome@).events);
    }
}

/// Every state of an installation run that has completed reports
/// progress that never goes down and ends at 100 with success.
pub proof fn lemma_completed_run_progress(s: InstallerState)
    requires
        s.wf(),
        s.run.completed(),
    ensures
        nondecreasing(s.events),
        s.events.last().progress == 100,
        s.events.last().success,
        s.events.last().step == InstallStep::Completed,
{
}

/// From every state of a run, carrying out the current step keeps the run
/// well formed.
pub proof fn lemma_advance_keeps_wf(s: InstallerState, o: OutcomeView)
    requires
        s.wf(),
        s.run.running(),
    ensures
        s.advance(o).wf(),
{
    let t = s.advance(o);
    let n = s.run.next as int;
    if t.run.completed() {
        assert forall|i: int, j: int| 0 <= i <= j < t.events.len() implies t.events[i].progress
            <= t.events[j].progress by {
            if j < s.events.len() as int {
            } else if i < s.events.len() as int {
                assert(s.events[i].progress <= progress_cap(s.platform, n));
            }
        }
    } else if t.run.running() && t.run.next != s.run.next {
        let e = stage_event(s.platform, n + 1);
        if e is Some {
            assert forall|i: int, j: int| 0 <= i <= j < t.events.len() implies t.events[i].progress
                <= t.events[j].progress by {
                if j < s.events.len() as int {
                } else if i < s.events.len() as int {
                    assert(s.events[i].progress <= progress_cap(s.platform, n));
                }
            }
            assert forall|i: int| 0 <= i < t.events.len() implies #[trigger] t.events[i].progress
                <= progress_cap(s.platform, n + 1) by {
                if i < s.events.len() as int {
                    assert(s.events[i].progress <= progress_cap(s.platform, n));
                }
            }
        } else {
            assert forall|i: int| 0 <= i < t.events.len() implies #[trigger] t.events[i].progress
                <= progress_cap(s.platform, n + 1) by {
                assert(s.events[i].progress <= progress_cap(s.platform, n));
            }
        }
    }
}

/// When a fatal step of a run fails, the run stops with an error and every
/// progress event reported before it is kept as it was.
pub proof fn lemma_failed_step_keeps_progress(s: InstallerState, o: OutcomeView)
    requires
        s.wf(),
        s.run.running(),
        s.run.steps[s.run.next as int].fatal,
        o != OutcomeView::Succeeded,
    ensures
        s.advance(o).run.failure is Some,
        !s.advance(o).run.running(),
        s.advance(o).events == s.events,
{
}

} // verus!
