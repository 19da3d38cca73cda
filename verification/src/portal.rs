//! Screen-capture portal presence: whether the portal frontend and its
//! desktop backend can be found among the probed commands, services and
//! well-known installation paths.

use vstd::prelude::*;

use crate::system::SystemAdapter;

verus! {

/// The portal frontend is present: its command resolves, its user service is
/// active, or its binary sits at a known system path.
pub open spec fn has_portal_frontend_spec(sys: &SystemAdapter) -> bool {
    ||| sys.has_command("xdg-desktop-portal"@)
    ||| sys.has_service("xdg-desktop-portal.service"@)
    ||| sys.has_path("/usr/lib/xdg-desktop-portal"@)
    ||| sys.has_path("/usr/libexec/xdg-desktop-portal"@)
    ||| sys.has_path("/usr/bin/xdg-desktop-portal"@)
}

/// The desktop portal backend is present on top of the frontend: its command
/// resolves, its binary sits at a known path, or its portal metadata does.
pub open spec fn has_gnome_portal_backend_spec(sys: &SystemAdapter) -> bool {
    &&& has_portal_frontend_spec(sys)
    &&& {
        ||| sys.has_command("xdg-desktop-portal-gnome"@)
        ||| sys.has_path("/usr/lib/xdg-desktop-portal-gnome"@)
        ||| sys.has_path("/usr/libexec/xdg-desktop-portal-gnome"@)
        ||| sys.has_path("/usr/bin/xdg-desktop-portal-gnome"@)
        ||| sys.has_path("/usr/share/xdg-desktop-portal/portals/gnome.portal"@)
        ||| sys.has_path("/usr/share/xdg-desktop-portal/gnome-portals.conf"@)
    }
}

/// The whole screencast stack is ready: the three background services are
/// active and both portal layers are present.
pub open spec fn screencast_stack_ready_spec(sys: &SystemAdapter) -> bool {
    &&& sys.has_service("pipewire.service"@)
    &&& sys.has_service("wireplumber.service"@)
    &&& sys.has_service("xdg-desktop-portal.service"@)
    &&& has_portal_frontend_spec(sys)
    &&& has_gnome_portal_backend_spec(sys)
}

/// Read-only presence checks for the screen-capture portal stack.
pub struct PortalAdapter;

impl PortalAdapter {
    pub fn has_portal_frontend(&self, system: &SystemAdapter) -> (r: bool)
        ensures
            r == has_portal_frontend_spec(system),
    {
        system.command_exists("xdg-desktop-portal") || system.service_is_active(
            "xdg-desktop-portal.service",
        ) || system.any_path_exists(
            &[
                "/usr/lib/xdg-desktop-portal",
                "/usr/libexec/xdg-desktop-portal",
                "/usr/bin/xdg-desktop-portal",
            ],
        )
    }

    pub fn has_gnome_portal_backend(&self, system: &SystemAdapter) -> (r: bool)
        ensures
            r == has_gnome_portal_backend_spec(system),
    {
        self.has_portal_frontend(system) && (system.command_exists("xdg-desktop-portal-gnome")
            || system.any_path_exists(
            &[
                "/usr/lib/xdg-desktop-portal-gnome",
                "/usr/libexec/xdg-desktop-portal-gnome",
                "/usr/bin/xdg-desktop-portal-gnome",
            ],
        ) || system.any_path_exists(
            &[
                "/usr/share/xdg-desktop-portal/portals/gnome.portal",
                "/usr/share/xdg-desktop-portal/gnome-portals.conf",
            ],
        ))
    }

    pub fn screencast_stack_ready(&self, system: &SystemAdapter) -> (r: bool)
        ensures
            r == screencast_stack_ready_spec(system),
    {
        system.service_is_active("pipewire.service") && system.service_is_active(
            "wireplumber.service",
        ) && system.service_is_active("xdg-desktop-portal.service") && self.has_portal_frontend(
            system,
        ) && self.has_gnome_portal_backend(system)
    }
}

} // verus!
