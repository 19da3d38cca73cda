//! Monitor discovery entry point.

use vstd::prelude::*;

use crate::niri::hdmi_lines_spec;
use crate::niri::NiriAdapter;
use crate::text::string_views;

verus! {

/// The display lines of the snapshot that mention an HDMI connector.
pub fn list_hdmi_outputs(niri: &NiriAdapter) -> (r: Vec<String>)
    ensures
        string_views(r@) == hdmi_lines_spec(string_views(niri.lines@)),
{
    niri.list_hdmi_outputs()
}

} // verus!
