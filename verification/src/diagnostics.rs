//! Troubleshooting: one diagnostic item per probed signal, each with a
//! severity, a message and a remediation hint, aggregated into a report.

use vstd::prelude::*;
use vstd::string::StringExecFns;

use crate::portal::has_gnome_portal_backend_spec;
use crate::portal::has_portal_frontend_spec;
use crate::portal::PortalAdapter;
use crate::system::SystemAdapter;

verus! {

#[verifier::external_type_specification]
#[verifier::external_body]
pub struct ExOffsetDateTime(time::OffsetDateTime);

/// Relies on `time::OffsetDateTime::now_local`: the current time in the
/// local offset, or no value when that offset cannot be determined. The
/// clock decides the value, so nothing is promised of it.
#[verifier::external_body]
fn now_local() -> Option<time::OffsetDateTime> {
    match time::OffsetDateTime::now_local() {
        Ok(t) => Some(t),
        Err(_) => None,
    }
}

/// Relies on `time::OffsetDateTime::now_utc`: the current time in UTC. The
/// clock decides the value, so nothing is promised of it.
#[verifier::external_body]
fn now_utc() -> time::OffsetDateTime {
    time::OffsetDateTime::now_utc()
}

/// How serious one diagnostic finding is.
#[derive(Clone, Copy, Debug, PartialEq, Eq, Structural)]
pub enum Severity {
    Okay,
    Warn,
    Error,
}

impl Severity {
    pub fn as_str(self) -> (r: &'static str)
        ensures
            self is Okay ==> r@ == "OK"@,
            self is Warn ==> r@ == "WARN"@,
            self is Error ==> r@ == "ERROR"@,
    {
        match self {
            Severity::Okay => "OK",
            Severity::Warn => "WARN",
            Severity::Error => "ERROR",
        }
    }
}

/// One diagnostic finding.
pub struct DiagnosticItem {
    pub title: String,
    pub severity: Severity,
    pub message: String,
    pub remediation: String,
}

/// The mathematical value of a [`DiagnosticItem`].
pub struct DiagnosticItemView {
    pub title: Seq<char>,
    pub severity: Severity,
    pub message: Seq<char>,
    pub remediation: Seq<char>,
}

impl View for DiagnosticItem {
    type V = DiagnosticItemView;

    open spec fn view(&self) -> DiagnosticItemView {
        DiagnosticItemView {
            title: self.title@,
            severity: self.severity,
            message: self.message@,
            remediation: self.remediation@,
        }
    }
}

/// The views of a sequence of diagnostic items.
pub open spec fn item_views(v: Seq<DiagnosticItem>) -> Seq<DiagnosticItemView> {
    Seq::new(v.len(), |i: int| v[i]@)
}

/// How many items carry the given severity.
pub open spec fn count_severity(items: Seq<DiagnosticItemView>, sev: Severity) -> nat
    decreases items.len(),
{
    if items.len() == 0 {
        0
    } else {
        (if items[0].severity == sev {
            1nat
        } else {
            0nat
        }) + count_severity(items.drop_first(), sev)
    }
}

/// A completed troubleshooting run: when it was generated and what it found.
pub struct TroubleshootReport {
    pub generated_at: time::OffsetDateTime,
    pub items: Vec<DiagnosticItem>,
}

impl TroubleshootReport {
    /// Stamp the findings with the current time (local when the offset can
    /// be determined, else UTC).
    pub fn new(items: Vec<DiagnosticItem>) -> (r: TroubleshootReport)
        ensures
            r.items == items,
    {
        let generated_at = match now_local() {
            Some(t) => t,
            None => now_utc(),
        };
        TroubleshootReport { generated_at, items }
    }

    fn count_with(&self, sev: Severity) -> (r: usize)
        ensures
            r == count_severity(item_views(self.items@), sev),
    {
        let ghost iv = item_views(self.items@);
        let mut n: usize = 0;
        let mut i: usize = 0;
        proof {
            assert(iv.skip(0) =~= iv);
        }
        while i < self.items.len()
            invariant
                0 <= i <= self.items@.len(),
                n <= i,
                iv == item_views(self.items@),
                count_severity(iv, sev) == n + count_severity(iv.skip(i as int), sev),
            decreases self.items@.len() - i,
        {
            let ghost rest = iv.skip(i as int);
            proof {
                assert(rest.len() > 0);
                assert(rest[0] == iv[i as int]);
                assert(rest.drop_first() =~= iv.skip(i + 1));
            }
            if self.items[i].severity == sev {
                n += 1;
            }
            i += 1;
        }
        n
    }

    /// How many findings are fine.
    pub fn ok_count(&self) -> (r: usize)
        ensures
            r == count_severity(item_views(self.items@), Severity::Okay),
    {
        self.count_with(Severity::Okay)
    }

    /// How many findings are warnings.
    pub fn warn_count(&self) -> (r: usize)
        ensures
            r == count_severity(item_views(self.items@), Severity::Warn),
    {
        self.count_with(Severity::Warn)
    }

    /// How many findings are errors.
    pub fn error_count(&self) -> (r: usize)
        ensures
            r == count_severity(item_views(self.items@), Severity::Error),
    {
        self.count_with(Severity::Error)
    }
}

// ---------------------------------------------------------------------------
// The troubleshooting run
// ---------------------------------------------------------------------------

/// The finding for one required command.
pub open spec fn command_item(name: Seq<char>, ok: bool) -> DiagnosticItemView {
    DiagnosticItemView {
        title: "Command: "@ + name,
        severity: if ok {
            Severity::Okay
        } else {
            Severity::Error
        },
        message: if ok {
            "available"@
        } else {
            "missing"@
        },
        remediation: "Install package that provides `"@ + name + "` on Arch Linux."@,
    }
}

/// The finding for the portal frontend.
pub open spec fn frontend_item(present: bool) -> DiagnosticItemView {
    DiagnosticItemView {
        title: "Portal frontend"@,
        severity: if present {
            Severity::Okay
        } else {
            Severity::Error
        },
        message: if present {
            "xdg-desktop-portal detected (service, PATH, or known system path)"@
        } else {
            "xdg-desktop-portal not detected"@
        },
        remediation: "Install xdg-desktop-portal and ensure xdg-desktop-portal.service can run as a user service."@,
    }
}

/// The finding for one background user service.
pub open spec fn service_item(svc: Seq<char>, active: bool) -> DiagnosticItemView {
    DiagnosticItemView {
        title: "Service: "@ + svc,
        severity: if active {
            Severity::Okay
        } else {
            Severity::Warn
        },
        message: if active {
            "active"@
        } else {
            "inactive"@
        },
        remediation: "Enable/start user service: `systemctl --user enable --now "@ + svc + "`."@,
    }
}

/// The finding for one required environment variable.
pub open spec fn env_item(
    title: Seq<char>,
    value: Option<Seq<char>>,
    missing_severity: Severity,
    remediation: Seq<char>,
) -> DiagnosticItemView {
    DiagnosticItemView {
        title: title,
        severity: match value {
            Some(_) => Severity::Okay,
            None => missing_severity,
        },
        message: match value {
            Some(v) => v,
            None => "not set"@,
        },
        remediation: remediation,
    }
}

/// The finding for the desktop portal backend.
pub open spec fn backend_item(ready: bool) -> DiagnosticItemView {
    DiagnosticItemView {
        title: "Portal backend (GNOME)"@,
        severity: if ready {
            Severity::Okay
        } else {
            Severity::Error
        },
        message: if ready {
            "xdg-desktop-portal-gnome detected (binary or portal metadata)"@
        } else {
            "expected screencast portal backend not detected"@
        },
        remediation: "Install/configure xdg-desktop-portal-gnome and restart user portal services; PATH is optional if backend exists in /usr/lib or /usr/libexec."@,
    }
}

/// The fixed list of findings for one troubleshooting run, in probe order.
pub open spec fn troubleshoot_items_spec(sys: &SystemAdapter) -> Seq<DiagnosticItemView> {
    seq![
        command_item("niri"@, sys.has_command("niri"@)),
        command_item("wpctl"@, sys.has_command("wpctl"@)),
        command_item("wl-mirror"@, sys.has_command("wl-mirror"@)),
        frontend_item(has_portal_frontend_spec(sys)),
        service_item("pipewire.service"@, sys.has_service("pipewire.service"@)),
        service_item("wireplumber.service"@, sys.has_service("wireplumber.service"@)),
        service_item(
            "xdg-desktop-portal.service"@,
            sys.has_service("xdg-desktop-portal.service"@),
        ),
        env_item(
            "Env: WAYLAND_DISPLAY"@,
            sys.env_lookup("WAYLAND_DISPLAY"@),
            Severity::Error,
            "Start niri as a proper Wayland session (display manager or niri-session)."@,
        ),
        env_item(
            "Env: XDG_CURRENT_DESKTOP"@,
            sys.env_lookup("XDG_CURRENT_DESKTOP"@),
            Severity::Warn,
            "Import environment into systemd user session so portals see desktop vars."@,
        ),
        backend_item(has_gnome_portal_backend_spec(sys)),
    ]
}

fn make_command_item(name: &str, remediation_name: &str, ok: bool) -> (r: DiagnosticItem)
    requires
        name@ == remediation_name@,
    ensures
        r@ == command_item(name@, ok),
{
    let mut title = String::new();
    title.append("Command: ");
    title.append(name);
    let mut remediation = String::new();
    remediation.append("Install package that provides `");
    remediation.append(remediation_name);
    remediation.append("` on Arch Linux.");
    let mut message = String::new();
    if ok {
        message.append("available");
    } else {
        message.append("missing");
    }
    DiagnosticItem {
        title,
        severity: if ok {
            Severity::Okay
        } else {
            Severity::Error
        },
        message,
        remediation,
    }
}

fn make_service_item(svc: &str, active: bool) -> (r: DiagnosticItem)
    ensures
        r@ == service_item(svc@, active),
{
    let mut title = String::new();
    title.append("Service: ");
    title.append(svc);
    let mut remediation = String::new();
    remediation.append("Enable/start user service: `systemctl --user enable --now ");
    remediation.append(svc);
    remediation.append("`.");
    let mut message = String::new();
    if active {
        message.append("active");
    } else {
        message.append("inactive");
    }
    DiagnosticItem {
        title,
        severity: if active {
            Severity::Okay
        } else {
            Severity::Warn
        },
        message,
        remediation,
    }
}

/// Probe every diagnostic signal and collect the findings into a report.
#[verifier::rlimit(60)]
pub fn run_troubleshooting(system: &SystemAdapter, portal: &PortalAdapter) -> (r:
    TroubleshootReport)
    ensures
        item_views(r.items@) == troubleshoot_items_spec(system),
{
    let ghost target = troubleshoot_items_spec(system);
    let mut items: Vec<DiagnosticItem> = Vec::new();

    items.push(make_command_item("niri", "niri", system.command_exists("niri")));
    items.push(make_command_item("wpctl", "wpctl", system.command_exists("wpctl")));
    items.push(make_command_item("wl-mirror", "wl-mirror", system.command_exists("wl-mirror")));
    proof {
        assert(item_views(items@) =~= target.take(3));
    }

    let frontend = portal.has_portal_frontend(system);
    let mut front_message = String::new();
    if frontend {
        front_message.append("xdg-desktop-portal detected (service, PATH, or known system path)");
    } else {
        front_message.append("xdg-desktop-portal not detected");
    }
    let mut front_title = String::new();
    front_title.append("Portal frontend");
    let mut front_remediation = String::new();
    front_remediation.append(
        "Install xdg-desktop-portal and ensure xdg-desktop-portal.service can run as a user service.",
    );
    items.push(
        DiagnosticItem {
            title: front_title,
            severity: if frontend {
                Severity::Okay
            } else {
                Severity::Error
            },
            message: front_message,
            remediation: front_remediation,
        },
    );
    proof {
        assert(item_views(items@) =~= target.take(4));
    }

    items.push(make_service_item("pipewire.service", system.service_is_active("pipewire.service")));
    items.push(
        make_service_item("wireplumber.service", system.service_is_active("wireplumber.service")),
    );
    items.push(
        make_service_item(
            "xdg-desktop-portal.service",
            system.service_is_active("xdg-desktop-portal.service"),
        ),
    );
    proof {
        assert(item_views(items@) =~= target.take(7));
    }

    let wayland = system.env_var("WAYLAND_DISPLAY");
    let mut wayland_title = String::new();
    wayland_title.append("Env: WAYLAND_DISPLAY");
    let mut wayland_remediation = String::new();
    wayland_remediation.append(
        "Start niri as a proper Wayland session (display manager or niri-session).",
    );
    let wayland_severity = match &wayland {
        Some(_) => Severity::Okay,
        None => Severity::Error,
    };
    let wayland_message = match wayland {
        Some(v) => v,
        None => {
            let mut m = String::new();
            m.append("not set");
            m
        },
    };
    items.push(
        DiagnosticItem {
            title: wayland_title,
            severity: wayland_severity,
            message: wayland_message,
            remediation: wayland_remediation,
        },
    );
    proof {
        assert(item_views(items@) =~= target.take(8));
    }

    let desktop = system.env_var("XDG_CURRENT_DESKTOP");
    let mut desktop_title = String::new();
    desktop_title.append("Env: XDG_CURRENT_DESKTOP");
    let mut desktop_remediation = String::new();
    desktop_remediation.append(
        "Import environment into systemd user session so portals see desktop vars.",
    );
    let desktop_severity = match &desktop {
        Some(_) => Severity::Okay,
        None => Severity::Warn,
    };
    let desktop_message = match desktop {
        Some(v) => v,
        None => {
            let mut m = String::new();
            m.append("not set");
            m
        },
    };
    items.push(
        DiagnosticItem {
            title: desktop_title,
            severity: desktop_severity,
            message: desktop_message,
            remediation: desktop_remediation,
        },
    );
    proof {
        assert(item_views(items@) =~= target.take(9));
    }

    let portal_ready = portal.has_gnome_portal_backend(system);
    let mut backend_title = String::new();
    backend_title.append("Portal backend (GNOME)");
    let mut backend_message = String::new();
    if portal_ready {
        backend_message.append("xdg-desktop-portal-gnome detected (binary or portal metadata)");
    } else {
        backend_message.append("expected screencast portal backend not detected");
    }
    let mut backend_remediation = String::new();
    backend_remediation.append(
        "Install/configure xdg-desktop-portal-gnome and restart user portal services; PATH is optional if backend exists in /usr/lib or /usr/libexec.",
    );
    items.push(
        DiagnosticItem {
            title: backend_title,
            severity: if portal_ready {
                Severity::Okay
            } else {
                Severity::Error
            },
            message: backend_message,
            remediation: backend_remediation,
        },
    );
    proof {
        assert(item_views(items@) =~= target.take(10));
        assert(target.take(10) =~= target);
    }

    TroubleshootReport::new(items)
}

} // verus!
