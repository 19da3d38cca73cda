//! The cast mode engine: given a requested mode and the current topology
//! snapshots, compute the exact sequence of idempotent display commands, the
//! mirror session to start, and the summary line. The surrounding
//! application performs the commands in order and aborts at the first
//! failure; nothing is rolled back, a partially applied layout is a visible,
//! accepted outcome.

use vstd::prelude::*;
use vstd::string::StringExecFns;

use crate::audio::display_line_spec;
use crate::audio::first_class_idx;
use crate::audio::sink_view_opt;
use crate::audio::sink_views;
use crate::audio::AudioAdapter;
use crate::audio::AudioSink;
use crate::contains_hdmi;
use crate::errors::CastError;
use crate::niri::connected_names_spec;
use crate::niri::hdmi_lines_spec;
use crate::niri::output_views;
use crate::niri::NiriAdapter;
use crate::niri::NiriOutput;
use crate::niri::NiriOutputView;
use crate::text::contains_hdmi_str;
use crate::text::dec_rep;
use crate::text::join_strings;
use crate::text::join_with;
use crate::text::str_eq;
use crate::text::string_views;
use crate::text::usize_to_string;

verus! {

/// The four cast modes. Mirror is exclusive with the layout-positioning
/// modes: entering any other mode stops a running mirror session first.
#[derive(Clone, Copy, Debug, PartialEq, Eq, Structural)]
pub enum LayoutCastMode {
    ExtendRight,
    ExtendLeft,
    Mirror,
    HdmiOnly,
}

/// One idempotent mutation of the display command port.
pub enum DisplayCommand {
    PowerOn { name: String },
    PowerOff { name: String },
    SetPosition { name: String, x: i64, y: i64 },
    SetPositionAuto { name: String },
}

/// The mathematical value of a [`DisplayCommand`].
pub enum DisplayCommandView {
    PowerOn { name: Seq<char> },
    PowerOff { name: Seq<char> },
    SetPosition { name: Seq<char>, x: int, y: int },
    SetPositionAuto { name: Seq<char> },
}

impl View for DisplayCommand {
    type V = DisplayCommandView;

    open spec fn view(&self) -> DisplayCommandView {
        match self {
            DisplayCommand::PowerOn { name } => DisplayCommandView::PowerOn { name: name@ },
            DisplayCommand::PowerOff { name } => DisplayCommandView::PowerOff { name: name@ },
            DisplayCommand::SetPosition { name, x, y } => DisplayCommandView::SetPosition {
                name: name@,
                x: *x as int,
                y: *y as int,
            },
            DisplayCommand::SetPositionAuto { name } => DisplayCommandView::SetPositionAuto {
                name: name@,
            },
        }
    }
}

/// The views of a sequence of display commands.
pub open spec fn command_views(v: Seq<DisplayCommand>) -> Seq<DisplayCommandView> {
    Seq::new(v.len(), |i: int| v[i]@)
}

// ---------------------------------------------------------------------------
// Topology searches
// ---------------------------------------------------------------------------

/// Index of the first output at or after `i` whose name mentions HDMI
/// (ignoring case) iff `want_hdmi`, else `ov.len()`.
pub open spec fn first_output_idx_by_class(
    ov: Seq<NiriOutputView>,
    want_hdmi: bool,
    i: int,
) -> int
    decreases ov.len() - i,
{
    if i < 0 || i >= ov.len() {
        ov.len() as int
    } else if contains_hdmi(ov[i].name) == want_hdmi {
        i
    } else {
        first_output_idx_by_class(ov, want_hdmi, i + 1)
    }
}

/// Index of the first output at or after `i` named exactly `name`, else
/// `ov.len()`.
pub open spec fn find_output_idx(ov: Seq<NiriOutputView>, name: Seq<char>, i: int) -> int
    decreases ov.len() - i,
{
    if i < 0 || i >= ov.len() {
        ov.len() as int
    } else if ov[i].name == name {
        i
    } else {
        find_output_idx(ov, name, i + 1)
    }
}

/// Index of the first name at or after `i` that does not mention HDMI, else
/// `names.len()`.
pub open spec fn first_non_hdmi_name_idx(names: Seq<Seq<char>>, i: int) -> int
    decreases names.len() - i,
{
    if i < 0 || i >= names.len() {
        names.len() as int
    } else if !contains_hdmi(names[i]) {
        i
    } else {
        first_non_hdmi_name_idx(names, i + 1)
    }
}

fn find_output_by_class(outputs: &Vec<NiriOutput>, want_hdmi: bool) -> (r: usize)
    ensures
        r == first_output_idx_by_class(output_views(outputs@), want_hdmi, 0),
        r <= outputs@.len(),
{
    let ghost ov = output_views(outputs@);
    let mut i: usize = 0;
    while i < outputs.len()
        invariant
            0 <= i <= outputs@.len(),
            ov == output_views(outputs@),
            first_output_idx_by_class(ov, want_hdmi, 0) == first_output_idx_by_class(
                ov,
                want_hdmi,
                i as int,
            ),
        decreases outputs@.len() - i,
    {
        if contains_hdmi_str(outputs[i].name.as_str()) == want_hdmi {
            return i;
        }
        i += 1;
    }
    i
}

fn find_output_by_name(outputs: &Vec<NiriOutput>, name: &str) -> (r: usize)
    ensures
        r == find_output_idx(output_views(outputs@), name@, 0),
        r <= outputs@.len(),
{
    let ghost ov = output_views(outputs@);
    let mut i: usize = 0;
    while i < outputs.len()
        invariant
            0 <= i <= outputs@.len(),
            ov == output_views(outputs@),
            find_output_idx(ov, name@, 0) == find_output_idx(ov, name@, i as int),
        decreases outputs@.len() - i,
    {
        if str_eq(outputs[i].name.as_str(), name) {
            return i;
        }
        i += 1;
    }
    i
}

fn find_non_hdmi_name(names: &Vec<String>) -> (r: usize)
    ensures
        r == first_non_hdmi_name_idx(string_views(names@), 0),
        r <= names@.len(),
{
    let ghost nv = string_views(names@);
    let mut i: usize = 0;
    while i < names.len()
        invariant
            0 <= i <= names@.len(),
            nv == string_views(names@),
            first_non_hdmi_name_idx(nv, 0) == first_non_hdmi_name_idx(nv, i as int),
        decreases names@.len() - i,
    {
        if !contains_hdmi_str(names[i].as_str()) {
            return i;
        }
        i += 1;
    }
    i
}

// ---------------------------------------------------------------------------
// Step 1: mirror exclusivity
// ---------------------------------------------------------------------------

/// Whether entering `mode` must stop a running mirror session first: every
/// mode but Mirror itself.
pub fn requires_mirror_stop(mode: LayoutCastMode) -> (r: bool)
    ensures
        r == !(mode is Mirror),
{
    !matches!(mode, LayoutCastMode::Mirror)
}

// ---------------------------------------------------------------------------
// Step 2-4: preparation from the initial topology
// ---------------------------------------------------------------------------

/// The outputs to power on before placement: always the HDMI output; in
/// Mirror mode additionally the first non-HDMI connected output, if any.
pub open spec fn power_on_spec(
    mode: LayoutCastMode,
    hdmi_name: Seq<char>,
    connected: Seq<Seq<char>>,
) -> Seq<Seq<char>> {
    let j = first_non_hdmi_name_idx(connected, 0);
    seq![hdmi_name] + if mode is Mirror && j < connected.len() {
        seq![connected[j]]
    } else {
        Seq::empty()
    }
}

/// The preparation phase of a cast: which output is the HDMI target, what to
/// power on, and whether the topology must be re-fetched before placement.
pub struct CastPrep {
    pub hdmi_name: String,
    pub power_on: Vec<String>,
    pub refetch: bool,
}

/// Resolve the HDMI target and the power-on commands from the initial
/// topology. Fails with `NoHdmiOutput` exactly when no output name mentions
/// HDMI; nothing is handed to the runner in that case, so no display or
/// audio command is issued. In Mirror mode the positions may change after
/// power-on, so the plan demands a fresh topology for placement.
pub fn prepare_layout_cast(mode: LayoutCastMode, niri: &NiriAdapter) -> (r: Result<
    CastPrep,
    CastError,
>)
    ensures
        ({
            let ov = output_views(niri.outputs@);
            let k = first_output_idx_by_class(ov, true, 0);
            let connected = connected_names_spec(string_views(niri.lines@));
            &&& (r is Err <==> k == ov.len())
            &&& (r matches Err(e) ==> e == CastError::NoHdmiOutput)
            &&& (r matches Ok(prep) ==> {
                &&& prep.hdmi_name@ == ov[k].name
                &&& string_views(prep.power_on@) == power_on_spec(mode, ov[k].name, connected)
                &&& prep.refetch == (mode is Mirror)
            })
        }),
{
    let k = find_output_by_class(&niri.outputs, true);
    if k == niri.outputs.len() {
        return Err(CastError::NoHdmiOutput);
    }
    let hdmi_name = niri.outputs[k].name.clone();
    let mut power_on: Vec<String> = Vec::new();
    power_on.push(hdmi_name.clone());
    let refetch = matches!(mode, LayoutCastMode::Mirror);
    if refetch {
        let connected = niri.connected_output_names();
        let j = find_non_hdmi_name(&connected);
        if j < connected.len() {
            power_on.push(connected[j].clone());
        }
    }
    proof {
        let ov = output_views(niri.outputs@);
        let connected = connected_names_spec(string_views(niri.lines@));
        assert(string_views(power_on@) =~= power_on_spec(mode, ov[k as int].name, connected));
    }
    Ok(CastPrep { hdmi_name, power_on, refetch })
}

// ---------------------------------------------------------------------------
// Step 5-7: placement from the (fresh) topology
// ---------------------------------------------------------------------------

/// The mirror session to start: the source output shown full-screen on the
/// target output.
pub struct MirrorStart {
    pub source: String,
    pub target: String,
}

/// The view of an optional mirror start as a (source, target) pair.
pub open spec fn mirror_view(m: Option<MirrorStart>) -> Option<(Seq<char>, Seq<char>)> {
    match m {
        Some(ms) => Some((ms.source@, ms.target@)),
        None => None,
    }
}

/// The placement phase of a cast: the display commands in order, the mirror
/// session to start (Mirror mode only), and the summary line.
pub struct CastPlacement {
    pub commands: Vec<DisplayCommand>,
    pub mirror: Option<MirrorStart>,
    pub summary: String,
}

/// The commands of an extend placement: position the HDMI output, and keep
/// the primary on when it is a different output.
pub open spec fn extend_commands(
    hdmi: NiriOutputView,
    prim: NiriOutputView,
    x: int,
    y: int,
) -> Seq<DisplayCommandView> {
    seq![DisplayCommandView::SetPosition { name: hdmi.name, x, y }] + if prim.name != hdmi.name {
        seq![DisplayCommandView::PowerOn { name: prim.name }]
    } else {
        Seq::empty()
    }
}

/// The commands of an HDMI-only placement: over all known outputs, power on
/// the one named like the HDMI target and power off every other.
pub open spec fn hdmi_only_commands(ov: Seq<NiriOutputView>, hdmi_name: Seq<char>) -> Seq<
    DisplayCommandView,
> {
    Seq::new(
        ov.len(),
        |i: int|
            if ov[i].name == hdmi_name {
                DisplayCommandView::PowerOn { name: ov[i].name }
            } else {
                DisplayCommandView::PowerOff { name: ov[i].name }
            },
    )
}

/// Re-resolve the HDMI output in the (fresh) topology and compute the
/// mode-specific placement. The primary is the first non-HDMI output, or the
/// HDMI output itself when there is nothing else to anchor against. Fails
/// with `NoHdmiOutput` when the resolved name is no longer present, and with
/// `NoSourceOutput` when Mirror mode finds no non-HDMI primary.
#[verifier::rlimit(60)]
pub fn place_layout_cast(mode: LayoutCastMode, hdmi_name: &str, outputs: &Vec<NiriOutput>) -> (r:
    Result<CastPlacement, CastError>)
    ensures
        ({
            let ov = output_views(outputs@);
            let h = find_output_idx(ov, hdmi_name@, 0);
            let p = first_output_idx_by_class(ov, false, 0);
            &&& (r is Err <==> (h == ov.len() || (mode is Mirror && p == ov.len())))
            &&& (r matches Err(e) ==> if h == ov.len() {
                e == CastError::NoHdmiOutput
            } else {
                e == CastError::NoSourceOutput
            })
            &&& (r matches Ok(plan) ==> h < ov.len() && {
                let hv = ov[h];
                let prim = if p < ov.len() {
                    ov[p]
                } else {
                    hv
                };
                match mode {
                    LayoutCastMode::ExtendRight => {
                        &&& command_views(plan.commands@) == extend_commands(
                            hv,
                            prim,
                            prim.logical.x + prim.logical.width,
                            prim.logical.y as int,
                        )
                        &&& plan.mirror is None
                        &&& plan.summary@ == "cast mode set: extend-right ("@ + hv.name
                            + " right of "@ + prim.name + ")"@
                    },
                    LayoutCastMode::ExtendLeft => {
                        &&& command_views(plan.commands@) == extend_commands(
                            hv,
                            prim,
                            prim.logical.x - hv.logical.width,
                            prim.logical.y as int,
                        )
                        &&& plan.mirror is None
                        &&& plan.summary@ == "cast mode set: extend-left ("@ + hv.name
                            + " left of "@ + prim.name + ")"@
                    },
                    LayoutCastMode::Mirror => {
                        &&& p < ov.len()
                        &&& command_views(plan.commands@) == seq![
                            DisplayCommandView::PowerOn { name: prim.name },
                        ]
                        &&& mirror_view(plan.mirror) == Some((prim.name, hv.name))
                        &&& plan.summary@ == "cast mode set: wl-mirror (source="@ + prim.name
                            + ", target="@ + hv.name + ")"@
                    },
                    LayoutCastMode::HdmiOnly => {
                        &&& command_views(plan.commands@) == hdmi_only_commands(ov, hdmi_name@)
                        &&& plan.mirror is None
                        &&& plan.summary@ == "cast mode set: hdmi-only ("@ + hv.name + ")"@
                    },
                }
            })
        }),
{
    let ghost ov = output_views(outputs@);
    let h = find_output_by_name(outputs, hdmi_name);
    if h == outputs.len() {
        return Err(CastError::NoHdmiOutput);
    }
    let p = find_output_by_class(outputs, false);
    let has_primary = p < outputs.len();
    match mode {
        LayoutCastMode::ExtendRight => {
            let pi = if has_primary {
                p
            } else {
                h
            };
            let x: i64 = outputs[pi].logical.x as i64 + outputs[pi].logical.width as i64;
            let y: i64 = outputs[pi].logical.y as i64;
            let mut commands: Vec<DisplayCommand> = Vec::new();
            commands.push(DisplayCommand::SetPosition { name: outputs[h].name.clone(), x, y });
            if !str_eq(outputs[pi].name.as_str(), outputs[h].name.as_str()) {
                commands.push(DisplayCommand::PowerOn { name: outputs[pi].name.clone() });
            }
            let mut summary = String::new();
            summary.append("cast mode set: extend-right (");
            summary.append(outputs[h].name.as_str());
            summary.append(" right of ");
            summary.append(outputs[pi].name.as_str());
            summary.append(")");
            proof {
                let hv = ov[h as int];
                let prim = if p < ov.len() {
                    ov[p as int]
                } else {
                    hv
                };
                assert(command_views(commands@) =~= extend_commands(
                    hv,
                    prim,
                    prim.logical.x + prim.logical.width,
                    prim.logical.y as int,
                ));
            }
            Ok(CastPlacement { commands, mirror: None, summary })
        },
        LayoutCastMode::ExtendLeft => {
            let pi = if has_primary {
                p
            } else {
                h
            };
            let x: i64 = outputs[pi].logical.x as i64 - outputs[h].logical.width as i64;
            let y: i64 = outputs[pi].logical.y as i64;
            let mut commands: Vec<DisplayCommand> = Vec::new();
            commands.push(DisplayCommand::SetPosition { name: outputs[h].name.clone(), x, y });
            if !str_eq(outputs[pi].name.as_str(), outputs[h].name.as_str()) {
                commands.push(DisplayCommand::PowerOn { name: outputs[pi].name.clone() });
            }
            let mut summary = String::new();
            summary.append("cast mode set: extend-left (");
            summary.append(outputs[h].name.as_str());
            summary.append(" left of ");
            summary.append(outputs[pi].name.as_str());
            summary.append(")");
            proof {
                let hv = ov[h as int];
                let prim = if p < ov.len() {
                    ov[p as int]
                } else {
                    hv
                };
                assert(command_views(commands@) =~= extend_commands(
                    hv,
                    prim,
                    prim.logical.x - hv.logical.width,
                    prim.logical.y as int,
                ));
            }
            Ok(CastPlacement { commands, mirror: None, summary })
        },
        LayoutCastMode::Mirror => {
            if !has_primary {
                return Err(CastError::NoSourceOutput);
            }
            let mut commands: Vec<DisplayCommand> = Vec::new();
            commands.push(DisplayCommand::PowerOn { name: outputs[p].name.clone() });
            let mirror = MirrorStart {
                source: outputs[p].name.clone(),
                target: outputs[h].name.clone(),
            };
            let mut summary = String::new();
            summary.append("cast mode set: wl-mirror (source=");
            summary.append(outputs[p].name.as_str());
            summary.append(", target=");
            summary.append(outputs[h].name.as_str());
            summary.append(")");
            proof {
                assert(command_views(commands@) =~= seq![
                    DisplayCommandView::PowerOn { name: ov[p as int].name },
                ]);
            }
            Ok(CastPlacement { commands, mirror: Some(mirror), summary })
        },
        LayoutCastMode::HdmiOnly => {
            let mut commands: Vec<DisplayCommand> = Vec::new();
            let mut i: usize = 0;
            while i < outputs.len()
                invariant
                    0 <= i <= outputs@.len(),
                    ov == output_views(outputs@),
                    commands@.len() == i,
                    forall|k: int|
                        0 <= k < i ==> commands@[k]@ == hdmi_only_commands(ov, hdmi_name@)[k],
                decreases outputs@.len() - i,
            {
                if str_eq(outputs[i].name.as_str(), hdmi_name) {
                    commands.push(DisplayCommand::PowerOn { name: outputs[i].name.clone() });
                } else {
                    commands.push(DisplayCommand::PowerOff { name: outputs[i].name.clone() });
                }
                i += 1;
            }
            let mut summary = String::new();
            summary.append("cast mode set: hdmi-only (");
            summary.append(outputs[h].name.as_str());
            summary.append(")");
            proof {
                assert(command_views(commands@) =~= hdmi_only_commands(ov, hdmi_name@));
            }
            Ok(CastPlacement { commands, mirror: None, summary })
        },
    }
}

// ---------------------------------------------------------------------------
// Restore
// ---------------------------------------------------------------------------

/// The commands of a restore: power every connected output on, then release
/// every one back to automatic positioning, in that fixed two-pass order.
pub open spec fn restore_commands_spec(names: Seq<Seq<char>>) -> Seq<DisplayCommandView> {
    Seq::new(names.len(), |i: int| DisplayCommandView::PowerOn { name: names[i] }) + Seq::new(
        names.len(),
        |i: int| DisplayCommandView::SetPositionAuto { name: names[i] },
    )
}

/// The restore plan: the two-pass command list and the summary line.
pub struct RestorePlan {
    pub commands: Vec<DisplayCommand>,
    pub summary: String,
}

/// Plan the restore of all connected outputs. Fails with
/// `NoConnectedOutputs` exactly when no names were discovered, and then no
/// commands are handed to the runner at all.
pub fn plan_restore_all(names: &Vec<String>) -> (r: Result<RestorePlan, CastError>)
    ensures
        r is Err <==> names@.len() == 0,
        r matches Err(e) ==> e == CastError::NoConnectedOutputs,
        r matches Ok(plan) ==> {
            &&& command_views(plan.commands@) == restore_commands_spec(string_views(names@))
            &&& plan.summary@ == "restored outputs: "@ + join_with(string_views(names@), ", "@)
        },
{
    if names.len() == 0 {
        return Err(CastError::NoConnectedOutputs);
    }
    let ghost nv = string_views(names@);
    let n = names.len();
    let mut commands: Vec<DisplayCommand> = Vec::new();
    let mut i: usize = 0;
    while i < n
        invariant
            0 <= i <= n,
            n == names@.len(),
            nv == string_views(names@),
            commands@.len() == i,
            forall|k: int| 0 <= k < i ==> commands@[k]@ == restore_commands_spec(nv)[k],
        decreases n - i,
    {
        commands.push(DisplayCommand::PowerOn { name: names[i].clone() });
        i += 1;
    }
    let mut j: usize = 0;
    while j < n
        invariant
            0 <= j <= n,
            n == names@.len(),
            nv == string_views(names@),
            commands@.len() == n + j,
            forall|k: int| 0 <= k < n + j ==> commands@[k]@ == restore_commands_spec(nv)[k],
        decreases n - j,
    {
        commands.push(DisplayCommand::SetPositionAuto { name: names[j].clone() });
        j += 1;
    }
    let mut summary = String::new();
    summary.append("restored outputs: ");
    let joined = join_strings(names, ", ");
    summary.append(joined.as_str());
    proof {
        assert(command_views(commands@) =~= restore_commands_spec(nv));
    }
    Ok(RestorePlan { commands, summary })
}

// ---------------------------------------------------------------------------
// TV mode
// ---------------------------------------------------------------------------

/// The TV-mode decision: the summary line and the sink to make the new
/// default, if an HDMI sink exists.
pub struct TvModeSwitch {
    pub summary: String,
    pub sink: Option<AudioSink>,
}

/// Combine the display and audio snapshots into the TV-mode switch: the
/// first HDMI sink (if any) becomes the new default, and the summary names
/// how many display lines mention HDMI and which sink was selected.
pub fn switch_to_tv_mode(niri: &NiriAdapter, audio: &AudioAdapter) -> (r: TvModeSwitch)
    ensures
        ({
            let sv = sink_views(audio.sinks@);
            let k = first_class_idx(sv, true, 0);
            &&& sink_view_opt(r.sink) == (if k < sv.len() {
                Some(sv[k])
            } else {
                None
            })
            &&& r.summary@ == "tv mode updated: hdmi_outputs="@ + dec_rep(
                hdmi_lines_spec(string_views(niri.lines@)).len(),
            ) + ", selected_sink="@ + (if k < sv.len() {
                display_line_spec(sv[k])
            } else {
                "none"@
            })
        }),
{
    let outs = niri.list_hdmi_outputs();
    let sink = audio.select_first_hdmi_sink();
    let mut summary = String::new();
    summary.append("tv mode updated: hdmi_outputs=");
    let n = usize_to_string(outs.len());
    summary.append(n.as_str());
    summary.append(", selected_sink=");
    match &sink {
        Some(s) => {
            let line = s.display_line();
            summary.append(line.as_str());
        },
        None => {
            summary.append("none");
        },
    }
    TvModeSwitch { summary, sink }
}

} // verus!
