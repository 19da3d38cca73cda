//! The error taxonomy shared by the topology readers, the command ports, the
//! mirror supervisor and the cast mode engine.

use vstd::prelude::*;

verus! {

/// Why an orchestration step failed.
///
/// `ToolUnavailable` and `CommandFailed` describe the external tools and are
/// produced by the callers that invoke them; the remaining variants are
/// decided by the library itself.
#[derive(Clone, Copy, Debug, PartialEq, Eq, Structural)]
pub enum CastError {
    /// An external binary is missing or could not be spawned.
    ToolUnavailable,
    /// An external command spawned but exited with a failure status.
    CommandFailed,
    /// Tool output did not match the expected shape.
    ParseError,
    /// No output whose name contains "HDMI" is known to the compositor.
    NoHdmiOutput,
    /// Mirror mode needs a non-HDMI source output and none exists.
    NoSourceOutput,
    /// No connected outputs were discovered at all.
    NoConnectedOutputs,
    /// The mirroring child did not exit cleanly when stopped.
    ProcessStopFailed,
}

impl CastError {
    /// The descriptive line shown to the user for this failure.
    pub open spec fn message_spec(self) -> Seq<char> {
        match self {
            CastError::ToolUnavailable => "external tool unavailable"@,
            CastError::CommandFailed => "external command exited with non-zero status"@,
            CastError::ParseError => "tool output did not match the expected shape"@,
            CastError::NoHdmiOutput => "no HDMI output available"@,
            CastError::NoSourceOutput => "no non-HDMI source output available"@,
            CastError::NoConnectedOutputs => "no connected outputs found"@,
            CastError::ProcessStopFailed => "mirror process exited with non-zero status while stopping"@,
        }
    }

    pub fn message(&self) -> (r: String)
        ensures
            r@ == self.message_spec(),
    {
        let mut r = String::new();
        match self {
            CastError::ToolUnavailable => r.append("external tool unavailable"),
            CastError::CommandFailed => r.append("external command exited with non-zero status"),
            CastError::ParseError => r.append("tool output did not match the expected shape"),
            CastError::NoHdmiOutput => r.append("no HDMI output available"),
            CastError::NoSourceOutput => r.append("no non-HDMI source output available"),
            CastError::NoConnectedOutputs => r.append("no connected outputs found"),
            CastError::ProcessStopFailed => r.append(
                "mirror process exited with non-zero status while stopping",
            ),
        }
        r
    }
}

} // verus!
