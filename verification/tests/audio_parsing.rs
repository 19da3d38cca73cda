use niri_cast::audio::extract_first_number;
use niri_cast::audio::parse_audio_sinks;
use niri_cast::audio::parse_node_name_from_wpctl_inspect;
use niri_cast::audio::parse_pactl_cards;
use niri_cast::audio::parse_sink_input_ids;
use niri_cast::audio::parse_sink_line;
use niri_cast::audio::stream_migration_result;
use niri_cast::audio::switch_to_hdmi;
use niri_cast::audio::AudioAdapter;
use niri_cast::audio::AudioSink;
use niri_cast::errors::CastError;

#[test]
fn extracts_digits() {
    assert_eq!(extract_first_number(" 42. HDMI Output"), Some("42".to_string()));
    assert_eq!(extract_first_number("sink id 103 ready"), Some("103".to_string()));
    assert_eq!(extract_first_number("no digits"), None);
}

#[test]
fn parses_audio_sinks_section() {
    let status = r#"
Audio
 ├─ Devices:
 │      52. Built-in Audio                      [alsa]
 │
 ├─ Sinks:
 │  *   83. Built-in Audio Digital Stereo (HDMI) [vol: 0.34]
 │      91. Built-in Audio Analog Stereo [vol: 0.20]
 │
 ├─ Sources:
 │  *   71. Built-in Audio Analog Stereo        [vol: 1.00]
"#;

    let sinks = parse_audio_sinks(status);
    assert_eq!(sinks.len(), 2);
    assert_eq!(sinks[0].id, "83");
    assert!(sinks[0].is_default);
    assert!(sinks[0].is_hdmi);
    assert_eq!(sinks[1].id, "91");
    assert!(!sinks[1].is_default);
}

#[test]
fn parses_node_name_from_inspect() {
    let inspect = r#"
id 83, type PipeWire:Interface:Node
  * media.class = "Audio/Sink"
  * node.name = "alsa_output.pci-0000_00_1f.3.hdmi-stereo"
"#;
    assert_eq!(
        parse_node_name_from_wpctl_inspect(inspect),
        Some("alsa_output.pci-0000_00_1f.3.hdmi-stereo".to_string())
    );
}

#[test]
fn sink_section_two_entries_classified() {
    let status = "Audio\n ├─ Sinks:\n │  *  12. Speakers [vol: 0.5]\n │   7. HDMI Audio [vol: 1.0]\n ├─ Sources:\n │  *  71. Mic [vol: 1.0]\n";
    let sinks = parse_audio_sinks(status);
    assert_eq!(sinks.len(), 2);
    assert_eq!(sinks[0].id, "12");
    assert_eq!(sinks[0].name, "Speakers");
    assert!(sinks[0].is_default);
    assert!(!sinks[0].is_hdmi);
    assert_eq!(sinks[1].id, "7");
    assert_eq!(sinks[1].name, "HDMI Audio");
    assert!(!sinks[1].is_default);
    assert!(sinks[1].is_hdmi);
}

#[test]
fn sink_lines_outside_section_ignored() {
    let status = "Video\n │  *  12. Speakers [vol: 0.5]\n";
    assert!(parse_audio_sinks(status).is_empty());
    let status2 = "Audio\n │  *  12. Speakers [vol: 0.5]\n";
    assert!(parse_audio_sinks(status2).is_empty());
}

#[test]
fn malformed_sink_lines_skipped() {
    let status = "Audio\n ├─ Sinks:\n │\n │  no digits here\n │  99 missing separator\n │  15. \n │  31. Headphones\n ├─ Streams:\n";
    let sinks = parse_audio_sinks(status);
    assert_eq!(sinks.len(), 1);
    assert_eq!(sinks[0].id, "31");
    assert_eq!(sinks[0].name, "Headphones");
}

#[test]
fn sink_line_trims_annotation_and_name() {
    let sink = parse_sink_line("*   83. Built-in Audio Digital Stereo (HDMI) [vol: 0.34]").unwrap();
    assert_eq!(sink.id, "83");
    assert_eq!(sink.name, "Built-in Audio Digital Stereo (HDMI)");
    assert!(sink.is_default);
    assert!(sink.is_hdmi);
    assert!(parse_sink_line("no separator").is_none());
}

#[test]
fn hdmi_match_is_case_insensitive() {
    let lower = parse_sink_line(" 5. hdmi out").unwrap();
    assert!(lower.is_hdmi);
    let mixed = parse_sink_line(" 6. HdMi thing").unwrap();
    assert!(mixed.is_hdmi);
    let plain = parse_sink_line(" 8. Speakers").unwrap();
    assert!(!plain.is_hdmi);
}

#[test]
fn node_name_empty_value_excluded() {
    let inspect = "  * node.name = \"\"\n  * node.name = \"real_sink\"\n";
    assert_eq!(parse_node_name_from_wpctl_inspect(inspect), Some("real_sink".to_string()));
    assert_eq!(parse_node_name_from_wpctl_inspect("nothing here"), None);
}

#[test]
fn display_line_formats_default_marker() {
    let sink = AudioSink {
        id: "12".to_string(),
        name: "Speakers".to_string(),
        is_default: true,
        is_hdmi: false,
    };
    assert_eq!(sink.display_line(), "* 12. Speakers");
    let other = AudioSink {
        id: "7".to_string(),
        name: "HDMI Audio".to_string(),
        is_default: false,
        is_hdmi: true,
    };
    assert_eq!(other.display_line(), "  7. HDMI Audio");
}

#[test]
fn adapter_selects_first_hdmi_sink() {
    let status = "Audio\n ├─ Sinks:\n │  *  12. Speakers [vol: 0.5]\n │   7. HDMI Audio [vol: 1.0]\n │   9. HDMI Other [vol: 1.0]\n ├─ Sources:\n";
    let adapter = AudioAdapter::from_status(status);
    let chosen = adapter.select_first_hdmi_sink().unwrap();
    assert_eq!(chosen.id, "7");
    let line = adapter.find_first_hdmi_sink().unwrap();
    assert_eq!(line, "  7. HDMI Audio");
    let also = switch_to_hdmi(&adapter).unwrap();
    assert_eq!(also.id, "7");
    assert_eq!(adapter.list_sinks(), vec!["* 12. Speakers".to_string(), "  7. HDMI Audio".to_string(), "  9. HDMI Other".to_string()]);
}

#[test]
fn adapter_without_hdmi_sink_selects_none() {
    let adapter = AudioAdapter::from_status("Audio\n ├─ Sinks:\n │  *  12. Speakers\n ├─ Sources:\n");
    assert!(adapter.select_first_hdmi_sink().is_none());
    assert!(adapter.find_first_hdmi_sink().is_none());
}

#[test]
fn set_default_by_name_extracts_id() {
    let adapter = AudioAdapter::new(vec![]);
    assert_eq!(adapter.set_default_by_name("* 83. Built-in"), Ok("83".to_string()));
    assert_eq!(adapter.set_default_by_name("no id at all"), Err(CastError::ParseError));
}

#[test]
fn migration_counts_only_successful_moves() {
    assert_eq!(stream_migration_result(true, &vec![true, false, true, true]), Ok(3));
    assert_eq!(stream_migration_result(true, &vec![false, false]), Ok(0));
    assert_eq!(stream_migration_result(true, &vec![]), Ok(0));
    assert_eq!(stream_migration_result(false, &vec![true, true]), Err(CastError::CommandFailed));
}

#[test]
fn card_profile_plan_orders_attempts() {
    let adapter = AudioAdapter::new(vec![]);
    let cards = vec!["card_a".to_string(), "card_b".to_string()];
    let plan = adapter.try_switch_card_profile_to_tv(true, &cards);
    assert_eq!(plan.len(), 6);
    assert_eq!(plan[0], ("card_a".to_string(), "output:hdmi-stereo+input:analog-stereo".to_string()));
    assert_eq!(plan[1], ("card_a".to_string(), "output:hdmi-stereo".to_string()));
    assert_eq!(plan[2], ("card_a".to_string(), "hdmi-stereo".to_string()));
    assert_eq!(plan[3], ("card_b".to_string(), "output:hdmi-stereo+input:analog-stereo".to_string()));
    let laptop = adapter.try_switch_card_profile_to_laptop(true, &cards);
    assert_eq!(laptop[0], ("card_a".to_string(), "output:analog-stereo+input:analog-stereo".to_string()));
    assert_eq!(laptop[5], ("card_b".to_string(), "analog-stereo".to_string()));
}

#[test]
fn card_profile_plan_empty_without_tool_or_cards() {
    let adapter = AudioAdapter::new(vec![]);
    let cards = vec!["card_a".to_string()];
    assert!(adapter.try_switch_card_profile_to_tv(false, &cards).is_empty());
    assert!(adapter.try_switch_card_profile_to_laptop(true, &vec![]).is_empty());
}

#[test]
fn tabular_output_tokens() {
    let streams = parse_sink_input_ids("55\tsink\n  62 other fields here\n\n");
    assert_eq!(streams, vec!["55".to_string(), "62".to_string()]);
    let cards = parse_pactl_cards("0\talsa_card.pci-0000_00_1f.3\tmodule-alsa-card.c\nbroken\n");
    assert_eq!(cards, vec!["alsa_card.pci-0000_00_1f.3".to_string()]);
}
