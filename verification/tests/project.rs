use live_player::types::{
    Cue, MediaItem, MediaType, OutputTarget, OutputType, PlayerState, PlayerStatus, PreviewQuality,
    Project, ProjectSettings,
};

fn output(id: &str) -> OutputTarget {
    OutputTarget {
        id: id.to_string(),
        name: "Output".to_string(),
        output_type: OutputType::Display,
        brightness: Some(90_000),
        display_index: Some(1),
        fullscreen: Some(true),
        ndi_name: Some("n".to_string()),
        audio_driver: None,
        audio_device: Some("dev".to_string()),
        audio_channels: Some(vec![1, 2]),
        syphon_name: None,
        spout_name: Some("s".to_string()),
    }
}

#[test]
fn default_project_is_untitled_with_fresh_id() {
    let first = Project::default();
    let second = Project::default();
    assert_eq!(first.name, "Untitled Project");
    assert_eq!(first.master_brightness, 100_000);
    assert_eq!(first.master_volume, 100_000);
    assert!(first.outputs.is_empty());
    assert!(first.cues.is_empty());
    assert_eq!(first.settings, ProjectSettings::default());
    assert_eq!(first.id.chars().count(), 36);
    for at in [8, 13, 18, 23] {
        assert_eq!(first.id.chars().nth(at), Some('-'));
    }
    assert!(first.id.chars().all(|c| c == '-' || c.is_ascii_hexdigit()));
    assert_ne!(first.id, second.id);
    let named = Project::named("Gala".to_string());
    assert_eq!(named.name, "Gala");
    assert_eq!(named.id.len(), 36);
    assert_ne!(named.id, first.id);
}

#[test]
fn default_settings_and_state() {
    assert_eq!(
        ProjectSettings::default(),
        ProjectSettings {
            default_brightness: 100_000,
            auto_save: true,
            preview_quality: PreviewQuality::Medium
        }
    );
    assert_eq!(
        PlayerState::default(),
        PlayerState {
            status: PlayerStatus::Idle,
            current_cue_index: -1,
            current_time: 0,
            duration: 0,
            error: None
        }
    );
}

#[test]
fn clones_are_equal() {
    let item = MediaItem {
        id: "i".to_string(),
        media_type: MediaType::Audio,
        name: "n".to_string(),
        path: "/p".to_string(),
        output_id: "o".to_string(),
        offset: Some(-1),
        trim_start: Some(2),
        trim_end: Some(3),
    };
    assert_eq!(item.clone(), item);
    let cue = Cue {
        id: "c".to_string(),
        name: "Cue".to_string(),
        items: vec![item.clone(), item],
        duration: 9,
        loop_playback: true,
        auto_advance: false,
        color: Some("#fff".to_string()),
    };
    assert_eq!(cue.clone(), cue);
    assert_eq!(output("a").clone(), output("a"));
    let mut project = Project::new("id".to_string(), "Show".to_string());
    project.outputs = vec![output("a"), output("b")];
    project.cues = vec![cue];
    assert_eq!(project.clone(), project);
    let state = PlayerState {
        status: PlayerStatus::Error,
        current_cue_index: 2,
        current_time: 3,
        duration: 4,
        error: Some("bad".to_string()),
    };
    assert_eq!(state.clone(), state);
}

#[test]
fn project_output_brightness_changes_first_match() {
    let mut project = Project::new("id".to_string(), "Show".to_string());
    project.outputs = vec![output("a"), output("b"), output("b")];
    project.set_output_brightness("b", None);
    assert_eq!(project.outputs[0].brightness, Some(90_000));
    assert_eq!(project.outputs[1].brightness, None);
    assert_eq!(project.outputs[2].brightness, Some(90_000));
    project.set_output_brightness("a", Some(5));
    assert_eq!(project.outputs[0].brightness, Some(5));
    project.set_output_brightness("zzz", Some(6));
    assert_eq!(
        project.outputs.iter().map(|o| o.brightness).collect::<Vec<_>>(),
        vec![Some(5), None, Some(90_000)]
    );
}
