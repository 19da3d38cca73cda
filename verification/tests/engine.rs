use niri_cast::errors::CastError;
use niri_cast::mirror::MirrorSupervisor;
use niri_cast::monitors::list_hdmi_outputs;
use niri_cast::niri::NiriAdapter;
use niri_cast::niri::NiriLogical;
use niri_cast::niri::NiriOutput;
use niri_cast::orchestrator::place_layout_cast;
use niri_cast::orchestrator::plan_restore_all;
use niri_cast::orchestrator::prepare_layout_cast;
use niri_cast::orchestrator::requires_mirror_stop;
use niri_cast::orchestrator::switch_to_tv_mode;
use niri_cast::orchestrator::DisplayCommand;
use niri_cast::orchestrator::LayoutCastMode;
use niri_cast::audio::AudioAdapter;

fn out(name: &str, x: i32, y: i32, w: i32, h: i32) -> NiriOutput {
    NiriOutput {
        name: name.to_string(),
        logical: NiriLogical { x, y, width: w, height: h },
    }
}

#[test]
fn extend_right_positions_hdmi_after_primary() {
    let outputs = vec![out("HDMI-1", 0, 0, 1920, 1080), out("eDP-1", 0, 0, 1280, 800)];
    let niri = NiriAdapter { lines: vec![], outputs };
    let prep = prepare_layout_cast(LayoutCastMode::ExtendRight, &niri).unwrap();
    assert_eq!(prep.hdmi_name, "HDMI-1");
    assert_eq!(prep.power_on, vec!["HDMI-1".to_string()]);
    assert!(!prep.refetch);
    assert!(requires_mirror_stop(LayoutCastMode::ExtendRight));

    let plan = place_layout_cast(LayoutCastMode::ExtendRight, "HDMI-1", &niri.outputs).unwrap();
    assert_eq!(plan.commands.len(), 2);
    match &plan.commands[0] {
        DisplayCommand::SetPosition { name, x, y } => {
            assert_eq!(name, "HDMI-1");
            assert_eq!(*x, 1280);
            assert_eq!(*y, 0);
        }
        _ => panic!("expected a position command first"),
    }
    match &plan.commands[1] {
        DisplayCommand::PowerOn { name } => assert_eq!(name, "eDP-1"),
        _ => panic!("expected the primary to be kept on"),
    }
    assert!(plan.mirror.is_none());
    assert_eq!(plan.summary, "cast mode set: extend-right (HDMI-1 right of eDP-1)");
    assert!(plan.summary.contains("HDMI-1") && plan.summary.contains("eDP-1"));
}

#[test]
fn extend_left_offsets_by_hdmi_width() {
    let outputs = vec![out("eDP-1", 100, 50, 1280, 800), out("HDMI-A-2", 0, 0, 1920, 1080)];
    let plan = place_layout_cast(LayoutCastMode::ExtendLeft, "HDMI-A-2", &outputs).unwrap();
    match &plan.commands[0] {
        DisplayCommand::SetPosition { name, x, y } => {
            assert_eq!(name, "HDMI-A-2");
            assert_eq!(*x, 100 - 1920);
            assert_eq!(*y, 50);
        }
        _ => panic!("expected a position command first"),
    }
    assert_eq!(plan.summary, "cast mode set: extend-left (HDMI-A-2 left of eDP-1)");
}

#[test]
fn extend_right_self_anchors_without_primary() {
    let outputs = vec![out("HDMI-1", 10, 20, 1920, 1080)];
    let plan = place_layout_cast(LayoutCastMode::ExtendRight, "HDMI-1", &outputs).unwrap();
    assert_eq!(plan.commands.len(), 1);
    match &plan.commands[0] {
        DisplayCommand::SetPosition { name, x, y } => {
            assert_eq!(name, "HDMI-1");
            assert_eq!(*x, 10 + 1920);
            assert_eq!(*y, 20);
        }
        _ => panic!("expected a position command"),
    }
}

#[test]
fn no_hdmi_output_fails_every_mode() {
    let outputs = vec![out("eDP-1", 0, 0, 1280, 800), out("DP-3", 0, 0, 2560, 1440)];
    let niri = NiriAdapter { lines: vec![], outputs };
    for mode in [
        LayoutCastMode::ExtendRight,
        LayoutCastMode::ExtendLeft,
        LayoutCastMode::Mirror,
        LayoutCastMode::HdmiOnly,
    ] {
        match prepare_layout_cast(mode, &niri) {
            Err(e) => assert_eq!(e, CastError::NoHdmiOutput),
            Ok(_) => panic!("a cast without an HDMI output must fail"),
        }
    }
}

#[test]
fn mirror_needs_a_source_output() {
    let outputs = vec![out("HDMI-1", 0, 0, 1920, 1080)];
    match place_layout_cast(LayoutCastMode::Mirror, "HDMI-1", &outputs) {
        Err(e) => assert_eq!(e, CastError::NoSourceOutput),
        Ok(_) => panic!("mirroring an output onto itself must fail"),
    }
}

#[test]
fn mirror_starts_session_with_source_and_target() {
    let lines = vec![
        "Output Some Maker (HDMI-1)".to_string(),
        "Output Other Maker (eDP-1)".to_string(),
    ];
    let outputs = vec![out("HDMI-1", 0, 0, 1920, 1080), out("eDP-1", 0, 0, 1280, 800)];
    let niri = NiriAdapter { lines, outputs };
    assert!(!requires_mirror_stop(LayoutCastMode::Mirror));
    let prep = prepare_layout_cast(LayoutCastMode::Mirror, &niri).unwrap();
    assert!(prep.refetch);
    assert_eq!(prep.power_on, vec!["HDMI-1".to_string(), "eDP-1".to_string()]);

    let plan = place_layout_cast(LayoutCastMode::Mirror, "HDMI-1", &niri.outputs).unwrap();
    let start = plan.mirror.expect("mirror mode starts a session");
    assert_eq!(start.source, "eDP-1");
    assert_eq!(start.target, "HDMI-1");
    assert_eq!(plan.summary, "cast mode set: wl-mirror (source=eDP-1, target=HDMI-1)");
}

#[test]
fn hdmi_only_powers_everything_else_off() {
    let outputs = vec![
        out("eDP-1", 0, 0, 1280, 800),
        out("HDMI-1", 0, 0, 1920, 1080),
        out("DP-3", 0, 0, 2560, 1440),
    ];
    let plan = place_layout_cast(LayoutCastMode::HdmiOnly, "HDMI-1", &outputs).unwrap();
    assert_eq!(plan.commands.len(), 3);
    match &plan.commands[0] {
        DisplayCommand::PowerOff { name } => assert_eq!(name, "eDP-1"),
        _ => panic!("expected the first output off"),
    }
    match &plan.commands[1] {
        DisplayCommand::PowerOn { name } => assert_eq!(name, "HDMI-1"),
        _ => panic!("expected the HDMI output on"),
    }
    match &plan.commands[2] {
        DisplayCommand::PowerOff { name } => assert_eq!(name, "DP-3"),
        _ => panic!("expected the last output off"),
    }
    assert_eq!(plan.summary, "cast mode set: hdmi-only (HDMI-1)");
}

#[test]
fn stale_hdmi_name_fails_placement() {
    let outputs = vec![out("eDP-1", 0, 0, 1280, 800)];
    match place_layout_cast(LayoutCastMode::ExtendRight, "HDMI-1", &outputs) {
        Err(e) => assert_eq!(e, CastError::NoHdmiOutput),
        Ok(_) => panic!("a vanished HDMI output must fail placement"),
    }
}

#[test]
fn restore_with_no_outputs_fails_and_plans_nothing() {
    match plan_restore_all(&vec![]) {
        Err(e) => assert_eq!(e, CastError::NoConnectedOutputs),
        Ok(_) => panic!("restore with zero outputs must fail"),
    }
}

#[test]
fn restore_powers_all_then_positions_all() {
    let names = vec!["eDP-1".to_string(), "HDMI-1".to_string()];
    let plan = plan_restore_all(&names).unwrap();
    assert_eq!(plan.commands.len(), 4);
    match &plan.commands[0] {
        DisplayCommand::PowerOn { name } => assert_eq!(name, "eDP-1"),
        _ => panic!("expected power-on first"),
    }
    match &plan.commands[1] {
        DisplayCommand::PowerOn { name } => assert_eq!(name, "HDMI-1"),
        _ => panic!("expected power-on second"),
    }
    match &plan.commands[2] {
        DisplayCommand::SetPositionAuto { name } => assert_eq!(name, "eDP-1"),
        _ => panic!("expected auto position third"),
    }
    match &plan.commands[3] {
        DisplayCommand::SetPositionAuto { name } => assert_eq!(name, "HDMI-1"),
        _ => panic!("expected auto position last"),
    }
    assert_eq!(plan.summary, "restored outputs: eDP-1, HDMI-1");
}

#[test]
fn supervisor_stop_twice_is_a_no_op() {
    let mut sup = MirrorSupervisor::new();
    sup.confirm_started(41);
    let first = sup.begin_stop();
    assert_eq!(first, Some(41));
    assert_eq!(
        MirrorSupervisor::stop_result(first.is_some(), false, true),
        Ok(())
    );
    let second = sup.begin_stop();
    assert_eq!(second, None);
    assert_eq!(
        MirrorSupervisor::stop_result(second.is_some(), false, false),
        Ok(())
    );
}

#[test]
fn supervisor_start_twice_tracks_one_child() {
    let mut sup = MirrorSupervisor::new();
    assert_eq!(sup.begin_start(), None);
    sup.confirm_started(7);
    let handed_out = sup.begin_start();
    assert_eq!(handed_out, Some(7));
    sup.confirm_started(8);
    assert_eq!(sup.begin_stop(), Some(8));
}

#[test]
fn supervisor_stop_outcomes() {
    assert_eq!(MirrorSupervisor::stop_result(true, true, false), Ok(()));
    assert_eq!(MirrorSupervisor::stop_result(true, false, true), Ok(()));
    assert_eq!(
        MirrorSupervisor::stop_result(true, false, false),
        Err(CastError::ProcessStopFailed)
    );
}

#[test]
fn tv_mode_summary_names_sink_and_count() {
    let lines = vec![
        "Output Some Maker (HDMI-1)".to_string(),
        "Output Other Maker (eDP-1)".to_string(),
    ];
    let outputs = vec![out("HDMI-1", 0, 0, 1920, 1080)];
    let niri = NiriAdapter { lines, outputs };
    assert_eq!(list_hdmi_outputs(&niri), vec!["Output Some Maker (HDMI-1)".to_string()]);
    let audio = AudioAdapter::from_status(
        "Audio\n ├─ Sinks:\n │   7. HDMI Audio [vol: 1.0]\n ├─ Sources:\n",
    );
    let switch = switch_to_tv_mode(&niri, &audio);
    assert_eq!(switch.summary, "tv mode updated: hdmi_outputs=1, selected_sink=  7. HDMI Audio");
    assert_eq!(switch.sink.unwrap().id, "7");

    let no_audio = AudioAdapter::new(vec![]);
    let empty_niri = NiriAdapter { lines: vec![], outputs: vec![] };
    let switch2 = switch_to_tv_mode(&empty_niri, &no_audio);
    assert_eq!(switch2.summary, "tv mode updated: hdmi_outputs=0, selected_sink=none");
    assert!(switch2.sink.is_none());
}

#[test]
fn connected_names_come_from_last_paren_pair() {
    let lines = vec![
        "Output Maker Model 2020 (HDMI-A-1)".to_string(),
        "not an output line (X-1)".to_string(),
        "Output broken line".to_string(),
        "Output empty parens ()".to_string(),
        "Output (a) twice (eDP-1)".to_string(),
    ];
    let niri = NiriAdapter { lines, outputs: vec![] };
    assert_eq!(
        niri.connected_output_names(),
        vec!["HDMI-A-1".to_string(), "eDP-1".to_string()]
    );
}
