//! The preflight gate: aggregates command, portal, service and environment
//! signals into a ready/not-ready verdict consumed before casting.

use vstd::prelude::*;
use vstd::string::StringExecFns;

use crate::portal::has_gnome_portal_backend_spec;
use crate::portal::has_portal_frontend_spec;
use crate::portal::screencast_stack_ready_spec;
use crate::portal::PortalAdapter;
use crate::system::SystemAdapter;
use crate::text::dec_rep;
use crate::text::string_views;
use crate::text::usize_to_string;

verus! {

/// The itemized list of what is missing for a cast: required commands, the
/// two portal layers, the three background services, and the two required
/// environment variables, in that fixed order.
pub open spec fn preflight_missing_spec(sys: &SystemAdapter) -> Seq<Seq<char>> {
    (if !sys.has_command("niri"@) {
        seq!["missing command: niri"@]
    } else {
        Seq::empty()
    }) + (if !sys.has_command("wpctl"@) {
        seq!["missing command: wpctl"@]
    } else {
        Seq::empty()
    }) + (if !has_portal_frontend_spec(sys) {
        seq!["portal frontend not detected"@]
    } else {
        Seq::empty()
    }) + (if !has_gnome_portal_backend_spec(sys) {
        seq!["portal gnome backend not detected"@]
    } else {
        Seq::empty()
    }) + (if !sys.has_service("pipewire.service"@) {
        seq!["user service not active: pipewire.service"@]
    } else {
        Seq::empty()
    }) + (if !sys.has_service("wireplumber.service"@) {
        seq!["user service not active: wireplumber.service"@]
    } else {
        Seq::empty()
    }) + (if !sys.has_service("xdg-desktop-portal.service"@) {
        seq!["user service not active: xdg-desktop-portal.service"@]
    } else {
        Seq::empty()
    }) + (if sys.env_lookup("WAYLAND_DISPLAY"@) is None {
        seq!["WAYLAND_DISPLAY is not set"@]
    } else {
        Seq::empty()
    }) + (if sys.env_lookup("XDG_CURRENT_DESKTOP"@) is None {
        seq!["XDG_CURRENT_DESKTOP is not set"@]
    } else {
        Seq::empty()
    })
}

/// The outcome of one preflight run.
pub struct CastPreflight {
    pub ready: bool,
    pub missing_items: Vec<String>,
}

impl CastPreflight {
    /// The one-line summary of the verdict.
    pub fn summary_line(&self) -> (r: String)
        ensures
            self.ready ==> r@ == "cast preflight: ready"@,
            !self.ready ==> r@ == "cast preflight: not ready ("@ + dec_rep(
                self.missing_items@.len(),
            ) + " issue(s))"@,
    {
        if self.ready {
            let mut r = String::new();
            r.append("cast preflight: ready");
            r
        } else {
            let mut r = String::new();
            r.append("cast preflight: not ready (");
            let n = usize_to_string(self.missing_items.len());
            r.append(n.as_str());
            r.append(" issue(s))");
            r
        }
    }
}

/// Compute the preflight verdict from the probed environment. `ready` holds
/// only when the itemized list is empty **and** the holistic screencast-stack
/// signal holds; the two can diverge, and `ready == false` is authoritative
/// even when the itemized list is empty.
#[verifier::rlimit(60)]
pub fn preflight(system: &SystemAdapter, portal: &PortalAdapter) -> (r: CastPreflight)
    ensures
        string_views(r.missing_items@) == preflight_missing_spec(system),
        r.ready == (preflight_missing_spec(system).len() == 0 && screencast_stack_ready_spec(
            system,
        )),
{
    let ghost c1: Seq<Seq<char>> = if !system.has_command("niri"@) {
        seq!["missing command: niri"@]
    } else {
        Seq::empty()
    };
    let ghost c2: Seq<Seq<char>> = if !system.has_command("wpctl"@) {
        seq!["missing command: wpctl"@]
    } else {
        Seq::empty()
    };
    let ghost c3: Seq<Seq<char>> = if !has_portal_frontend_spec(system) {
        seq!["portal frontend not detected"@]
    } else {
        Seq::empty()
    };
    let ghost c4: Seq<Seq<char>> = if !has_gnome_portal_backend_spec(system) {
        seq!["portal gnome backend not detected"@]
    } else {
        Seq::empty()
    };
    let ghost c5: Seq<Seq<char>> = if !system.has_service("pipewire.service"@) {
        seq!["user service not active: pipewire.service"@]
    } else {
        Seq::empty()
    };
    let ghost c6: Seq<Seq<char>> = if !system.has_service("wireplumber.service"@) {
        seq!["user service not active: wireplumber.service"@]
    } else {
        Seq::empty()
    };
    let ghost c7: Seq<Seq<char>> = if !system.has_service("xdg-desktop-portal.service"@) {
        seq!["user service not active: xdg-desktop-portal.service"@]
    } else {
        Seq::empty()
    };
    let ghost c8: Seq<Seq<char>> = if system.env_lookup("WAYLAND_DISPLAY"@) is None {
        seq!["WAYLAND_DISPLAY is not set"@]
    } else {
        Seq::empty()
    };
    let ghost c9: Seq<Seq<char>> = if system.env_lookup("XDG_CURRENT_DESKTOP"@) is None {
        seq!["XDG_CURRENT_DESKTOP is not set"@]
    } else {
        Seq::empty()
    };
    let mut missing: Vec<String> = Vec::new();
    if !system.command_exists("niri") {
        missing.push(String::from_str("missing command: niri"));
    }
    proof {
        assert(string_views(missing@) =~= c1);
    }
    if !system.command_exists("wpctl") {
        missing.push(String::from_str("missing command: wpctl"));
    }
    proof {
        assert(string_views(missing@) =~= c1 + c2);
    }
    if !portal.has_portal_frontend(system) {
        missing.push(String::from_str("portal frontend not detected"));
    }
    proof {
        assert(string_views(missing@) =~= c1 + c2 + c3);
    }
    if !portal.has_gnome_portal_backend(system) {
        missing.push(String::from_str("portal gnome backend not detected"));
    }
    proof {
        assert(string_views(missing@) =~= c1 + c2 + c3 + c4);
    }
    if !system.service_is_active("pipewire.service") {
        missing.push(String::from_str("user service not active: pipewire.service"));
    }
    proof {
        assert(string_views(missing@) =~= c1 + c2 + c3 + c4 + c5);
    }
    if !system.service_is_active("wireplumber.service") {
        missing.push(String::from_str("user service not active: wireplumber.service"));
    }
    proof {
        assert(string_views(missing@) =~= c1 + c2 + c3 + c4 + c5 + c6);
    }
    if !system.service_is_active("xdg-desktop-portal.service") {
        missing.push(String::from_str("user service not active: xdg-desktop-portal.service"));
    }
    proof {
        assert(string_views(missing@) =~= c1 + c2 + c3 + c4 + c5 + c6 + c7);
    }
    match system.env_var("WAYLAND_DISPLAY") {
        Some(_) => {},
        None => {
            missing.push(String::from_str("WAYLAND_DISPLAY is not set"));
        },
    }
    proof {
        assert(string_views(missing@) =~= c1 + c2 + c3 + c4 + c5 + c6 + c7 + c8);
    }
    match system.env_var("XDG_CURRENT_DESKTOP") {
        Some(_) => {},
        None => {
            missing.push(String::from_str("XDG_CURRENT_DESKTOP is not set"));
        },
    }
    proof {
        assert(string_views(missing@) =~= c1 + c2 + c3 + c4 + c5 + c6 + c7 + c8 + c9);
        assert(preflight_missing_spec(system) == c1 + c2 + c3 + c4 + c5 + c6 + c7 + c8 + c9);
    }
    let ready = missing.is_empty() && portal.screencast_stack_ready(system);
    CastPreflight { ready, missing_items: missing }
}

} // verus!
