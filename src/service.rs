use vstd::prelude::*;
use crate::plan::{
    remove_step, remove_view, run_step, run_view, steps_view, texts_view, write_step, write_view,
    Step, StepView,
};
use crate::platform::{join, platform_of, text, Platform};

verus! {

/// How the agent is registered with a platform's service manager.
pub struct ServiceDescriptor {
    /// The unit or label under which the service manager knows the agent.
    pub name: String,
    /// The agent executable, started with the argument `start`.
    pub executable: String,
    /// Where the descriptor file is written.
    pub path: String,
}

pub ghost struct ServiceView {
    pub name: Seq<char>,
    pub executable: Seq<char>,
    pub path: Seq<char>,
}

impl View for ServiceDescriptor {
    type V = ServiceView;

    open spec fn view(&self) -> ServiceView {
        ServiceView { name: self.name@, executable: self.executable@, path: self.path@ }
    }
}

/// The agent's service registration on each platform.
pub open spec fn agent_service_view(p: Platform) -> ServiceView {
    match p {
        Platform::MacOs => ServiceView {
            name: "com.lattice-console.agent"@,
            executable: "/usr/local/bin/lattice-agent"@,
            path: "/Library/LaunchDaemons/com.lattice-console.agent.plist"@,
        },
        Platform::Windows => ServiceView {
            name: "lattice-agent"@,
            executable: "/path/to/lattice-agent"@,
            path: "lattice-agent.service"@,
        },
        _ => ServiceView {
            name: "lattice-agent.service"@,
            executable: "/usr/local/bin/lattice-agent"@,
            path: "/etc/systemd/system/lattice-agent.service"@,
        },
    }
}

/// The descriptor under which the agent runs as a service on `p`.
pub fn agent_service(p: Platform) -> (r: ServiceDescriptor)
    ensures
        r@ == agent_service_view(p),
{
    match p {
        Platform::MacOs => ServiceDescriptor {
            name: text("com.lattice-console.agent"),
            executable: text("/usr/local/bin/lattice-agent"),
            path: text("/Library/LaunchDaemons/com.lattice-console.agent.plist"),
        },
        Platform::Windows => ServiceDescriptor {
            name: text("lattice-agent"),
            executable: text("/path/to/lattice-agent"),
            path: text("lattice-agent.service"),
        },
        _ => ServiceDescriptor {
            name: text("lattice-agent.service"),
            executable: text("/usr/local/bin/lattice-agent"),
            path: text("/etc/systemd/system/lattice-agent.service"),
        },
    }
}

pub open spec fn systemd_unit(d: ServiceView) -> Seq<char> {
    "\n[Unit]\nDescription=Lattice Console Agent\nAfter=docker.service\nRequires=docker.service\n\n[Service]\nType=simple\nExecStart="@
        + d.executable
        + " start\nRestart=always\nRestartSec=10\nUser=lattice\nGroup=docker\n\n[Install]\nWantedBy=multi-user.target\n"@
}

/// The XML declaration that opens a property list.
pub open spec fn xml_declaration() -> Seq<char> {
    "<?xml version=\"1.0\" encoding=\"UTF-8\"?>\n"@
}

pub open spec fn launchd_plist(d: ServiceView) -> Seq<char> {
    xml_declaration() + "<!DOCTYPE plist PUBLIC \"-//Apple//DTD PLIST 1.0//EN\" \"http://www.apple.com/DTDs/PropertyList-1.0.dtd\">\n<plist version=\"1.0\">\n<dict>\n    <key>Label</key>\n    <string>"@
        + d.name
        + "</string>\n    <key>ProgramArguments</key>\n    <array>\n        <string>"@
        + d.executable
        + "</string>\n        <string>start</string>\n    </array>\n    <key>RunAtLoad</key>\n    <true/>\n    <key>KeepAlive</key>\n    <true/>\n</dict>\n</plist>\n"@
}

pub open spec fn windows_unit(d: ServiceView) -> Seq<char> {
    "\n[Unit]\nDescription=Lattice Console Agent\nAfter=docker.service\n\n[Service]\nExecStart="@
        + d.executable
        + " start\nRestart=always\nRestartSec=10\n\n[Install]\nWantedBy=multi-user.target\n"@
}

/// The descriptor text for `d` on `p`; none where the platform has no
/// service manager that provisioning knows.
pub open spec fn service_text(p: Platform, d: ServiceView) -> Option<Seq<char>> {
    match p {
        Platform::Linux => Some(systemd_unit(d)),
        Platform::MacOs => Some(launchd_plist(d)),
        Platform::Windows => Some(windows_unit(d)),
        Platform::Unsupported => None,
    }
}

/// Renders the service descriptor text for `d` on `p`.
pub fn render_service_descriptor(p: Platform, d: &ServiceDescriptor) -> (r: Option<String>)
    ensures
        match r {
            Some(t) => service_text(p, d@) == Some(t@),
            None => service_text(p, d@) is None,
        },
        p == Platform::MacOs ==> (r matches Some(t) && t@.take(5) == "<?xml"@),
{
    proof {
        lemma_plist_starts_with_declaration(d@);
    }
    match p {
        Platform::Linux => {
            let mut t = text(
                "\n[Unit]\nDescription=Lattice Console Agent\nAfter=docker.service\nRequires=docker.service\n\n[Service]\nType=simple\nExecStart=",
            );
            t.append(d.executable.as_str());
            t.append(
                " start\nRestart=always\nRestartSec=10\nUser=lattice\nGroup=docker\n\n[Install]\nWantedBy=multi-user.target\n",
            );
            Some(t)
        },
        Platform::MacOs => {
            let mut t = text("<?xml version=\"1.0\" encoding=\"UTF-8\"?>\n");
            t.append(
                "<!DOCTYPE plist PUBLIC \"-//Apple//DTD PLIST 1.0//EN\" \"http://www.apple.com/DTDs/PropertyList-1.0.dtd\">\n<plist version=\"1.0\">\n<dict>\n    <key>Label</key>\n    <string>",
            );
            t.append(d.name.as_str());
            t.append("</string>\n    <key>ProgramArguments</key>\n    <array>\n        <string>");
            t.append(d.executable.as_str());
            t.append(
                "</string>\n        <string>start</string>\n    </array>\n    <key>RunAtLoad</key>\n    <true/>\n    <key>KeepAlive</key>\n    <true/>\n</dict>\n</plist>\n",
            );
            Some(t)
        },
        Platform::Windows => {
            let mut t = text(
                "\n[Unit]\nDescription=Lattice Console Agent\nAfter=docker.service\n\n[Service]\nExecStart=",
            );
            t.append(d.executable.as_str());
            t.append(" start\nRestart=always\nRestartSec=10\n\n[Install]\nWantedBy=multi-user.target\n");
            Some(t)
        },
        Platform::Unsupported => None,
    }
}

/// The launchd property list opens with the XML declaration, at its very
/// first character.
pub proof fn lemma_plist_starts_with_declaration(d: ServiceView)
    ensures
        launchd_plist(d).take(5) == "<?xml"@,
        launchd_plist(d).subrange(0, xml_declaration().len() as int) == xml_declaration(),
{
    reveal_strlit("<?xml");
    reveal_strlit("<?xml version=\"1.0\" encoding=\"UTF-8\"?>\n");
    let rest = launchd_plist(d).subrange(xml_declaration().len() as int, launchd_plist(d).len() as int);
    assert(launchd_plist(d) =~= xml_declaration() + rest);
    assert(launchd_plist(d).subrange(0, xml_declaration().len() as int) =~= xml_declaration());
    assert(launchd_plist(d).take(5) =~= "<?xml"@);
}

/// Rendering depends on the platform and the descriptor alone: equal
/// inputs give the same text.
pub proof fn lemma_render_is_pure(p: Platform, a: ServiceView, b: ServiceView)
    requires
        a == b,
    ensures
        service_text(p, a) == service_text(p, b),
{
}

/// The steps that register and start the agent's service on `p`.
pub open spec fn enable_steps(p: Platform, d: ServiceView) -> Seq<StepView> {
    match p {
        Platform::Linux => seq![
            write_view(
                d.path,
                systemd_unit(d),
                "Failed to create service file"@,
                "Failed to create service file: "@,
            ),
            run_view(
                "sudo"@,
                seq!["systemctl"@, "enable"@, d.name],
                true,
                "Failed to enable service"@,
                "Failed to enable service: "@,
            ),
            run_view(
                "sudo"@,
                seq!["systemctl"@, "start"@, d.name],
                true,
                "Failed to start service"@,
                "Failed to start service: "@,
            ),
        ],
        Platform::MacOs => seq![
            write_view(d.path, launchd_plist(d), "Failed to create plist"@, "Failed to create plist: "@),
            run_view(
                "sudo"@,
                seq!["launchctl"@, "load"@, d.path],
                true,
                "Failed to load service"@,
                "Failed to load service: "@,
            ),
        ],
        _ => Seq::empty(),
    }
}

/// The best-effort steps that stop and unregister the agent's service on
/// `p`.
pub open spec fn disable_steps(p: Platform, d: ServiceView) -> Seq<StepView> {
    match p {
        Platform::Linux => seq![
            run_view(
                "sudo"@,
                seq!["systemctl"@, "disable"@, d.name],
                false,
                "Failed to disable service"@,
                "Failed to disable service: "@,
            ),
            remove_view(d.path),
        ],
        Platform::MacOs => seq![
            run_view(
                "sudo"@,
                seq!["launchctl"@, "unload"@, d.path],
                false,
                "Failed to unload service"@,
                "Failed to unload service: "@,
            ),
            remove_view(d.path),
        ],
        _ => Seq::empty(),
    }
}

/// Registration of the agent with systemd.
pub fn setup_linux_systemd(d: &ServiceDescriptor) -> (r: Vec<Step>)
    ensures
        steps_view(r@) == enable_steps(Platform::Linux, d@),
{
    let unit = render_service_descriptor(Platform::Linux, d);
    let unit = match unit {
        Some(t) => t,
        None => text(""),
    };
    let a = write_step(
        d.path.as_str(),
        unit,
        "Failed to create service file",
        "Failed to create service file: ",
    );
    let args = vec![text("systemctl"), text("enable"), d.name.clone()];
    assert(texts_view(args@) =~= seq!["systemctl"@, "enable"@, d.name@]);
    let b = run_step("sudo", args, true, "Failed to enable service", "Failed to enable service: ");
    let args = vec![text("systemctl"), text("start"), d.name.clone()];
    assert(texts_view(args@) =~= seq!["systemctl"@, "start"@, d.name@]);
    let c = run_step("sudo", args, true, "Failed to start service", "Failed to start service: ");
    let r = vec![a, b, c];
    assert(steps_view(r@) =~= enable_steps(Platform::Linux, d@));
    r
}

/// Registration of the agent with launchd.
pub fn setup_macos_launchd(d: &ServiceDescriptor) -> (r: Vec<Step>)
    ensures
        steps_view(r@) == enable_steps(Platform::MacOs, d@),
{
    let plist = render_service_descriptor(Platform::MacOs, d);
    let plist = match plist {
        Some(t) => t,
        None => text(""),
    };
    let a = write_step(d.path.as_str(), plist, "Failed to create plist", "Failed to create plist: ");
    let args = vec![text("launchctl"), text("load"), d.path.clone()];
    assert(texts_view(args@) =~= seq!["launchctl"@, "load"@, d.path@]);
    let b = run_step("sudo", args, true, "Failed to load service", "Failed to load service: ");
    let r = vec![a, b];
    assert(steps_view(r@) =~= enable_steps(Platform::MacOs, d@));
    r
}

/// Registration of the agent as a Windows service: the platform offers no
/// hook here yet, so there is nothing to do and it succeeds.
pub fn setup_windows_service() -> (r: Result<(), String>)
    ensures
        r is Ok,
{
    Ok(())
}

/// The steps that enable `d` on a supported platform `p`; an error of the
/// platform's registration hook is handed on.
pub fn enable_service(p: Platform, d: &ServiceDescriptor) -> (r: Result<Vec<Step>, String>)
    requires
        p != Platform::Unsupported,
    ensures
        r matches Ok(v) && steps_view(v@) == enable_steps(p, d@),
{
    match p {
        Platform::Linux => Ok(setup_linux_systemd(d)),
        Platform::MacOs => Ok(setup_macos_launchd(d)),
        _ => {
            match setup_windows_service() {
                Ok(()) => {},
                Err(e) => return Err(e),
            }
            let v: Vec<Step> = Vec::new();
            assert(steps_view(v@) =~= enable_steps(p, d@));
            Ok(v)
        },
    }
}

/// The steps that make the agent start with the machine running the
/// operating system `os`.
pub fn setup_auto_start(os: &str) -> (r: Result<Vec<Step>, String>)
    ensures
        platform_of(os@) == Platform::Unsupported <==> r is Err,
        r matches Err(e) ==> e@ == "Auto-start not supported on "@ + os@,
        r matches Ok(v) ==> steps_view(v@) == enable_steps(
            platform_of(os@),
            agent_service_view(platform_of(os@)),
        ),
{
    let p = Platform::from_os(os);
    if p == Platform::Unsupported {
        return Err(join("Auto-start not supported on ", os));
    }
    enable_service(p, &agent_service(p))
}

/// The steps that disable `d` on `p`, all of them best-effort.
pub fn disable_service(p: Platform, d: &ServiceDescriptor) -> (r: Vec<Step>)
    ensures
        steps_view(r@) == disable_steps(p, d@),
{
    match p {
        Platform::Linux => {
            let args = vec![text("systemctl"), text("disable"), d.name.clone()];
            assert(texts_view(args@) =~= seq!["systemctl"@, "disable"@, d.name@]);
            let a = run_step("sudo", args, false, "Failed to disable service", "Failed to disable service: ");
            let b = remove_step(d.path.as_str());
            let r = vec![a, b];
            assert(steps_view(r@) =~= disable_steps(p, d@));
            r
        },
        Platform::MacOs => {
            let args = vec![text("launchctl"), text("unload"), d.path.clone()];
            assert(texts_view(args@) =~= seq!["launchctl"@, "unload"@, d.path@]);
            let a = run_step("sudo", args, false, "Failed to unload service", "Failed to unload service: ");
            let b = remove_step(d.path.as_str());
            let r = vec![a, b];
            assert(steps_view(r@) =~= disable_steps(p, d@));
            r
        },
        _ => {
            let r: Vec<Step> = Vec::new();
            assert(steps_view(r@) =~= disable_steps(p, d@));
            r
        },
    }
}

/// The steps that stop the agent from starting with the machine running the
/// operating system `os`.
pub fn remove_auto_start(os: &str) -> (r: Vec<Step>)
    ensures
        steps_view(r@) == disable_steps(platform_of(os@), agent_service_view(platform_of(os@))),
{
    let p = Platform::from_os(os);
    let d = agent_service(p);
    disable_service(p, &d)
}

} // verus!
