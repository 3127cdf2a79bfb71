use live_player::output::native_handle::NativeHandle;
use live_player::output::standby::{
    standby_font_name, standby_text, StandbyManager, StandbyPipeline, STANDBY_FRAME_RATE,
};

#[test]
fn standby_text_lines() {
    assert_eq!(
        standby_text("Stage", 1920, 1080, "Waiting for input...", None),
        "Stage\n1920x1080\nWaiting for input..."
    );
    assert_eq!(
        standby_text("Stage", 0, 7, "Playing", Some("cue 3")),
        "Stage\n0x7\nPlaying\ncue 3"
    );
    assert_eq!(STANDBY_FRAME_RATE, 30);
    assert_eq!(standby_font_name(), "Sans Bold 48");
}

#[test]
fn standby_pipeline_lifecycle() {
    let handle = NativeHandle::X11Window(3);
    let mut pipeline = StandbyPipeline::new("out-1", "Stage", &handle, 1280, 720);
    assert_eq!(pipeline.text(), "Stage\n1280x720\nWaiting for input...");
    assert_eq!(pipeline.resolution(), (1280, 720));
    assert_eq!(pipeline.handle(), handle);
    assert!(!pipeline.is_running());
    pipeline.start();
    assert!(pipeline.is_running());
    pipeline.update_debug_info("Loading", None);
    assert_eq!(pipeline.text(), "Stage\n1280x720\nLoading");
    pipeline.update_debug_info("Error", Some("file missing"));
    assert_eq!(pipeline.text(), "Stage\n1280x720\nError\nfile missing");
    pipeline.set_text("plain");
    assert_eq!(pipeline.text(), "plain");
    pipeline.stop();
    assert!(!pipeline.is_running());
    assert_eq!(pipeline.clone(), pipeline);
}

#[test]
fn one_standby_per_output() {
    let handle = NativeHandle::X11Window(3);
    let mut manager = StandbyManager::new();
    assert!(!manager.has_standby("a"));
    assert!(!manager.create_standby("a", "First", &handle, 800, 600));
    assert!(!manager.create_standby("b", "Second", &handle, 800, 600));
    assert!(manager.has_standby("a"));
    assert_eq!(manager.text_of("a"), Some("First\n800x600\nWaiting for input...".to_string()));
    let copy = manager.pipeline_of("a").unwrap();
    assert_eq!(copy.resolution(), (800, 600));
    assert_eq!(copy.handle(), handle);
    assert!(copy.is_running());
    assert_eq!(manager.pipeline_of("zzz"), None);
    // Creating it again replaces the old one.
    assert!(manager.create_standby("a", "Renamed", &handle, 1024, 768));
    assert_eq!(manager.text_of("a"), Some("Renamed\n1024x768\nWaiting for input...".to_string()));
    assert_eq!(manager.stop_all(), vec!["b".to_string(), "a".to_string()]);
    assert!(!manager.has_standby("a"));
    assert!(!manager.has_standby("b"));
    assert_eq!(manager.stop_all(), Vec::<String>::new());
}

#[test]
fn standby_update_and_stop() {
    let handle = NativeHandle::Hwnd(9);
    let mut manager = StandbyManager::default();
    manager.create_standby("a", "Stage", &handle, 640, 480);
    assert_eq!(
        manager.update_info("a", "Playing", Some("00:10")),
        Some("Stage\n640x480\nPlaying\n00:10".to_string())
    );
    assert_eq!(manager.text_of("a"), Some("Stage\n640x480\nPlaying\n00:10".to_string()));
    assert_eq!(manager.update_info("missing", "Playing", None), None);
    assert_eq!(manager.text_of("missing"), None);
    assert!(manager.stop_standby("a"));
    assert!(!manager.stop_standby("a"));
    assert!(!manager.has_standby("a"));
}
