use niri_cast::cast::preflight;
use niri_cast::cast::CastPreflight;
use niri_cast::diagnostics::run_troubleshooting;
use niri_cast::diagnostics::Severity;
use niri_cast::errors::CastError;
use niri_cast::portal::PortalAdapter;
use niri_cast::system::SystemAdapter;

fn strings(items: &[&str]) -> Vec<String> {
    items.iter().map(|s| s.to_string()).collect()
}

fn full_system() -> SystemAdapter {
    SystemAdapter {
        commands: strings(&[
            "niri",
            "wpctl",
            "wl-mirror",
            "xdg-desktop-portal",
            "xdg-desktop-portal-gnome",
        ]),
        services: strings(&[
            "pipewire.service",
            "wireplumber.service",
            "xdg-desktop-portal.service",
        ]),
        env: vec![
            ("WAYLAND_DISPLAY".to_string(), "wayland-1".to_string()),
            ("XDG_CURRENT_DESKTOP".to_string(), "niri".to_string()),
        ],
        paths: vec![],
    }
}

fn empty_system() -> SystemAdapter {
    SystemAdapter { commands: vec![], services: vec![], env: vec![], paths: vec![] }
}

#[test]
fn preflight_ready_when_everything_present() {
    let system = full_system();
    let verdict = preflight(&system, &PortalAdapter);
    assert!(verdict.ready);
    assert!(verdict.missing_items.is_empty());
    assert_eq!(verdict.summary_line(), "cast preflight: ready");
}

#[test]
fn preflight_lists_every_missing_item_in_order() {
    let system = empty_system();
    let verdict = preflight(&system, &PortalAdapter);
    assert!(!verdict.ready);
    assert_eq!(
        verdict.missing_items,
        strings(&[
            "missing command: niri",
            "missing command: wpctl",
            "portal frontend not detected",
            "portal gnome backend not detected",
            "user service not active: pipewire.service",
            "user service not active: wireplumber.service",
            "user service not active: xdg-desktop-portal.service",
            "WAYLAND_DISPLAY is not set",
            "XDG_CURRENT_DESKTOP is not set",
        ])
    );
    assert_eq!(verdict.summary_line(), "cast preflight: not ready (9 issue(s))");
}

#[test]
fn readiness_is_a_conjunction_with_the_composite_signal() {
    // The itemized list and the composite stack check are separate signals;
    // a verdict with an empty list but a false composite stays not ready.
    let verdict = CastPreflight { ready: false, missing_items: vec![] };
    assert!(!verdict.ready);
    assert!(verdict.missing_items.is_empty());
    assert_eq!(verdict.summary_line(), "cast preflight: not ready (0 issue(s))");
}

#[test]
fn portal_detection_from_paths_alone() {
    let mut system = empty_system();
    system.paths = strings(&[
        "/usr/libexec/xdg-desktop-portal",
        "/usr/share/xdg-desktop-portal/portals/gnome.portal",
    ]);
    let portal = PortalAdapter;
    assert!(portal.has_portal_frontend(&system));
    assert!(portal.has_gnome_portal_backend(&system));
    assert!(!portal.screencast_stack_ready(&system));
}

#[test]
fn troubleshoot_counts_by_severity() {
    let portal = PortalAdapter;
    let good = run_troubleshooting(&full_system(), &portal);
    assert_eq!(good.items.len(), 10);
    assert_eq!(good.ok_count(), 10);
    assert_eq!(good.warn_count(), 0);
    assert_eq!(good.error_count(), 0);

    let bad = run_troubleshooting(&empty_system(), &portal);
    assert_eq!(bad.items.len(), 10);
    assert_eq!(bad.ok_count(), 0);
    assert_eq!(bad.warn_count(), 4);
    assert_eq!(bad.error_count(), 6);
}

#[test]
fn troubleshoot_items_carry_titles_and_messages() {
    let report = run_troubleshooting(&empty_system(), &PortalAdapter);
    assert_eq!(report.items[0].title, "Command: niri");
    assert_eq!(report.items[0].message, "missing");
    assert_eq!(report.items[3].title, "Portal frontend");
    assert_eq!(report.items[7].title, "Env: WAYLAND_DISPLAY");
    assert_eq!(report.items[7].message, "not set");
    assert_eq!(report.items[9].title, "Portal backend (GNOME)");

    let good = run_troubleshooting(&full_system(), &PortalAdapter);
    assert_eq!(good.items[0].message, "available");
    assert_eq!(good.items[7].message, "wayland-1");
}

#[test]
fn severity_renders_as_text() {
    assert_eq!(Severity::Okay.as_str(), "OK");
    assert_eq!(Severity::Warn.as_str(), "WARN");
    assert_eq!(Severity::Error.as_str(), "ERROR");
}

#[test]
fn error_messages_are_single_lines() {
    assert_eq!(CastError::NoHdmiOutput.message(), "no HDMI output available");
    assert_eq!(CastError::NoConnectedOutputs.message(), "no connected outputs found");
    assert_eq!(CastError::ToolUnavailable.message(), "external tool unavailable");
    assert_eq!(CastError::ParseError.message(), "tool output did not match the expected shape");
}
