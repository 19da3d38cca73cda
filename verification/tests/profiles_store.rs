use niri_cast::profiles::choose_profile_for_outputs;
use niri_cast::profiles::ProfileCollection;
use niri_cast::profiles::ProfileStore;
use niri_cast::profiles::TvProfile;

#[test]
fn matches_hdmi_output_name() {
    let profiles = vec![TvProfile {
        name: "tv".to_string(),
        hdmi_output: Some("HDMI-A-1".to_string()),
        audio_sink: None,
    }];

    let outputs = vec!["DP-1".to_string(), "HDMI-A-1 connected".to_string()];
    assert!(choose_profile_for_outputs(&profiles, &outputs).is_some());
}

#[test]
fn profile_without_hdmi_output_never_matches() {
    let profiles = vec![
        TvProfile { name: "a".to_string(), hdmi_output: None, audio_sink: None },
        TvProfile {
            name: "b".to_string(),
            hdmi_output: Some("HDMI-2".to_string()),
            audio_sink: None,
        },
    ];
    let outputs = vec!["HDMI-2 connected".to_string()];
    let chosen = choose_profile_for_outputs(&profiles, &outputs).unwrap();
    assert_eq!(chosen.name, "b");
    let no_outputs: Vec<String> = vec![];
    assert!(choose_profile_for_outputs(&profiles, &no_outputs).is_none());
}

#[test]
fn store_replaces_profile_with_same_name() {
    let mut store = ProfileStore::new(ProfileCollection { profiles: vec![] });
    store.save_profile(TvProfile {
        name: "default-tv".to_string(),
        hdmi_output: Some("HDMI-1".to_string()),
        audio_sink: None,
    });
    store.save_profile(TvProfile {
        name: "other".to_string(),
        hdmi_output: None,
        audio_sink: None,
    });
    store.save_profile(TvProfile {
        name: "default-tv".to_string(),
        hdmi_output: Some("HDMI-2".to_string()),
        audio_sink: Some("* 83. HDMI".to_string()),
    });

    assert_eq!(store.collection.profiles.len(), 2);
    let loaded = store.load_profile("default-tv").unwrap();
    assert_eq!(loaded.hdmi_output, Some("HDMI-2".to_string()));
    assert_eq!(loaded.audio_sink, Some("* 83. HDMI".to_string()));
    assert!(store.load_profile("missing").is_none());
}
