//! Orchestration core for redirecting a Wayland desktop's video and audio to a
//! secondary HDMI display and restoring the original layout afterward.
//!
//! The library holds the verified logic: topology parsing, cast-mode planning,
//! audio routing decisions, the mirror-process supervisor state machine, and
//! the preflight readiness gate. Issuing the external commands that these
//! decisions call for is left to the surrounding application.

use vstd::prelude::*;

pub mod audio;
pub mod cast;
pub mod diagnostics;
pub mod errors;
pub mod mirror;
pub mod monitors;
pub mod niri;
pub mod orchestrator;
pub mod profiles;
pub mod portal;
pub mod system;
pub mod text;

verus! {

/// True iff the sequence holds the letters "hdmi" in order at position `i`,
/// ignoring ASCII case.
pub open spec fn hdmi_at(s: Seq<char>, i: int) -> bool {
    &&& 0 <= i
    &&& i + 4 <= s.len()
    &&& (s[i] == 'h' || s[i] == 'H')
    &&& (s[i + 1] == 'd' || s[i + 1] == 'D')
    &&& (s[i + 2] == 'm' || s[i + 2] == 'M')
    &&& (s[i + 3] == 'i' || s[i + 3] == 'I')
}

/// True iff the sequence contains "hdmi" ignoring ASCII case.
pub open spec fn contains_hdmi(s: Seq<char>) -> bool {
    exists|i: int| hdmi_at(s, i)
}

} // verus!
