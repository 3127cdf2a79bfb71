use live_player::error::AppError;
use live_player::id_map::IdMap;
use live_player::output::native_handle::{NativeHandle, Platform};
use live_player::pipeline::cue_player::{
    BusMessage, CuePlayer, GainUpdate, PadTicket, PipelineState, PrerollStep, SeekRequest,
    StateChange, TimeoutPolicy,
};
use live_player::pipeline::graph::{Branch, Link, Node, PixelFormat};
use live_player::pipeline::media_handler::{DropReason, PadOutcome};
use live_player::pipeline::ndi_sender::{FlowError, Pulled, SampleInfo, VideoFormat};
use live_player::types::{Cue, MediaItem, MediaType, MonitorInfo, OutputTarget, OutputType};

fn output(id: &str, kind: OutputType) -> OutputTarget {
    OutputTarget {
        id: id.to_string(),
        name: format!("Output {}", id),
        output_type: kind,
        brightness: None,
        display_index: None,
        fullscreen: None,
        ndi_name: None,
        audio_driver: None,
        audio_device: None,
        audio_channels: None,
        syphon_name: None,
        spout_name: None,
    }
}

fn item(id: &str, kind: MediaType, path: &str, output_id: &str) -> MediaItem {
    MediaItem {
        id: id.to_string(),
        media_type: kind,
        name: id.to_string(),
        path: path.to_string(),
        output_id: output_id.to_string(),
        offset: None,
        trim_start: None,
        trim_end: None,
    }
}

fn cue(items: Vec<MediaItem>) -> Cue {
    Cue {
        id: "cue".to_string(),
        name: "Cue".to_string(),
        items,
        duration: 30_000_000_000,
        loop_playback: false,
        auto_advance: false,
        color: None,
    }
}

fn monitor(index: usize) -> MonitorInfo {
    MonitorInfo {
        index,
        name: format!("Monitor {}", index),
        width: 1920,
        height: 1080,
        x: 0,
        y: 0,
        is_primary: index == 0,
    }
}

fn buffer(pts: u64) -> Pulled {
    Pulled::Buffer(SampleInfo {
        pts: Some(pts),
        video: Some(VideoFormat { width: 1920, height: 1080, fps_numer: 30, fps_denom: 1 }),
        mapped_len: Some(1920 * 1080 * 2),
    })
}

#[test]
fn new_player_is_idle() {
    let player = CuePlayer::new(Platform::Linux);
    assert_eq!(player.state(), PipelineState::Null);
    assert_eq!(player.graph().node_count(), 0);
    assert_eq!(player.master_brightness(), 100_000);
    assert_eq!(player.master_volume(), 100_000);
    assert_eq!(player.latency_ms(), 0);
    assert_eq!(player.item_count(), 0);
    assert_eq!(player.pad_context(0), None);
    assert_eq!(player.graph().node(0), None);
    assert_eq!(player.position(None), None);
}

#[test]
fn load_video_into_display_without_surface() {
    let mut player = CuePlayer::new(Platform::Linux);
    let outputs = vec![output("display-1", OutputType::Display)];
    let the_cue = cue(vec![item("a", MediaType::Video, "/media/a.mp4", "display-1")]);
    let handles: IdMap<NativeHandle> = IdMap::new();
    assert_eq!(player.load_cue(&the_cue, &outputs, &vec![monitor(0)], &handles), Ok(()));
    assert_eq!(player.state(), PipelineState::Ready);
    assert_eq!(player.graph().node_count(), 2);
    assert_eq!(
        *player.graph().node(0).unwrap(),
        Node::FileSource { location: "/media/a.mp4".to_string() }
    );
    assert_eq!(*player.graph().node(1).unwrap(), Node::Decoder);
    assert_eq!(player.graph().link(0).unwrap(), Link { from: 0, to: 1 });
    assert_eq!(player.latency_ms(), 0);

    // The decoder reports the video stream while the graph prerolls.
    let ticket = player.pad_ticket(0);
    let outcome = player.pad_added(ticket, Some("video/x-raw"));
    assert_eq!(
        outcome,
        PadOutcome::Attached(Branch { first_node: 2, node_count: 3, first_link: 1, link_count: 3 })
    );
    assert_eq!(*player.graph().node(2).unwrap(), Node::VideoConvert);
    assert_eq!(
        *player.graph().node(3).unwrap(),
        Node::VideoBalance { output_id: "display-1".to_string(), gain: 0 }
    );
    assert_eq!(
        *player.graph().node(4).unwrap(),
        Node::VideoSink { output_id: "display-1".to_string(), handle: None }
    );
    assert_eq!(player.graph().link(1).unwrap(), Link { from: 2, to: 3 });
    assert_eq!(player.graph().link(2).unwrap(), Link { from: 3, to: 4 });
    assert_eq!(player.graph().link(3).unwrap(), Link { from: 1, to: 2 });

    assert_eq!(player.preroll_message(&BusMessage::StateChanged), PrerollStep::Continue);
    assert_eq!(player.preroll_message(&BusMessage::AsyncDone), PrerollStep::Complete);
    assert_eq!(player.state(), PipelineState::Paused);
    assert_eq!(player.adjust_initial_position(Some(0)), None);
    assert_eq!(player.position(Some(0)), Some(0));
}

#[test]
fn load_with_unknown_output_fails_and_leaves_null() {
    let mut player = CuePlayer::new(Platform::Linux);
    let outputs = vec![output("display-1", OutputType::Display)];
    let the_cue = cue(vec![
        item("a", MediaType::Video, "/media/a.mp4", "display-1"),
        item("b", MediaType::Video, "/media/b.mp4", "nowhere"),
        item("c", MediaType::Video, "/media/c.mp4", "elsewhere"),
    ]);
    let handles: IdMap<NativeHandle> = IdMap::new();
    let result = player.load_cue(&the_cue, &outputs, &vec![], &handles);
    assert_eq!(result, Err(AppError::NotFound("Output not found: nowhere".to_string())));
    assert_eq!(result.unwrap_err().message(), "Not found: Output not found: nowhere");
    assert_eq!(player.state(), PipelineState::Null);
    assert_eq!(player.graph().node_count(), 0);
    assert_eq!(player.graph().link_count(), 0);
    assert_eq!(player.item_count(), 0);
}

#[test]
fn failed_load_tears_down_previous_graph() {
    let mut player = CuePlayer::new(Platform::Linux);
    let outputs = vec![output("display-1", OutputType::Display)];
    let handles: IdMap<NativeHandle> = IdMap::new();
    let good = cue(vec![item("a", MediaType::Video, "/media/a.mp4", "display-1")]);
    assert!(player.load_cue(&good, &outputs, &vec![], &handles).is_ok());
    assert_eq!(player.graph().node_count(), 2);
    let bad = cue(vec![item("b", MediaType::Video, "/media/b.mp4", "nowhere")]);
    assert!(player.load_cue(&bad, &outputs, &vec![], &handles).is_err());
    assert_eq!(player.state(), PipelineState::Null);
    assert_eq!(player.graph().node_count(), 0);
}

#[test]
fn seek_keeps_state_and_is_accurate() {
    let mut player = CuePlayer::new(Platform::Linux);
    let outputs = vec![output("display-1", OutputType::Display)];
    let the_cue = cue(vec![item("a", MediaType::Video, "/media/a.mp4", "display-1")]);
    let handles: IdMap<NativeHandle> = IdMap::new();
    player.load_cue(&the_cue, &outputs, &vec![], &handles).unwrap();
    assert_eq!(player.preroll_pipeline(&vec![BusMessage::AsyncDone]), Ok(()));
    let before = player.state();
    let request = player.seek(10_500_000_000);
    assert_eq!(
        request,
        SeekRequest { position_ns: 10_500_000_000, flush: true, accurate: true }
    );
    assert_eq!(player.state(), before);
    assert_eq!(player.state(), PipelineState::Paused);
    assert_eq!(player.position(Some(10_500_000_000)), Some(10_500_000_000));
    assert_eq!(player.duration(Some(30_000_000_000)), Some(30_000_000_000));
}

#[test]
fn loading_second_cue_leaves_nothing_of_the_first() {
    let mut player = CuePlayer::new(Platform::Linux);
    let outputs = vec![output("audio-1", OutputType::Audio), output("ndi-1", OutputType::Ndi)];
    let handles: IdMap<NativeHandle> = IdMap::new();
    let first = cue(vec![
        item("a", MediaType::Audio, "/media/a.wav", "audio-1"),
        item("v", MediaType::Video, "/media/v.mp4", "ndi-1"),
    ]);
    player.load_cue(&first, &outputs, &vec![], &handles).unwrap();
    let old_ticket = player.pad_ticket(0);
    assert!(matches!(player.pad_added(old_ticket, Some("audio/x-raw")), PadOutcome::Attached(_)));
    assert_eq!(player.graph().node_count(), 9);

    let second = cue(vec![item("b", MediaType::Audio, "/media/b.wav", "audio-1")]);
    player.load_cue(&second, &outputs, &vec![], &handles).unwrap();
    assert_eq!(player.graph().node_count(), 3);
    assert_eq!(
        *player.graph().node(0).unwrap(),
        Node::ForwarderSink { output_id: "ndi-1".to_string(), format: PixelFormat::Uyvy }
    );
    assert_eq!(
        *player.graph().node(1).unwrap(),
        Node::FileSource { location: "/media/b.wav".to_string() }
    );
    assert_eq!(*player.graph().node(2).unwrap(), Node::Decoder);
    assert!(!player.graph().has_volume("volume_audio-1"));

    // A stream reported for the first cue is stale now.
    assert_eq!(player.pad_added(old_ticket, Some("audio/x-raw")), PadOutcome::Ignored);
    assert_eq!(player.graph().node_count(), 3);

    // The second cue gets its own gain node, once.
    let ticket = player.pad_ticket(0);
    assert!(matches!(player.pad_added(ticket, Some("audio/x-raw")), PadOutcome::Attached(_)));
    assert!(player.graph().has_volume("volume_audio-1"));
    assert_eq!(
        player.pad_added(ticket, Some("audio/x-raw")),
        PadOutcome::Dropped(DropReason::DuplicateGainName)
    );
    assert_eq!(player.graph().node_count(), 7);
}

#[test]
fn ndi_output_gets_forwarder_and_latency() {
    let mut player = CuePlayer::new(Platform::Linux);
    let mut ndi = output("ndi-1", OutputType::Ndi);
    ndi.ndi_name = Some("Stage".to_string());
    let outputs = vec![output("display-1", OutputType::Display), ndi];
    let handles: IdMap<NativeHandle> = IdMap::new();
    let the_cue = cue(vec![item("v", MediaType::Video, "/media/v.mp4", "ndi-1")]);
    player.load_cue(&the_cue, &outputs, &vec![], &handles).unwrap();
    assert_eq!(player.latency_ms(), 100);
    assert_eq!(player.pad_context(0).unwrap().appsink, Some(0));
    assert_eq!(player.pad_context(0).unwrap().decoder, 2);
    let ticket = player.pad_ticket(0);
    assert_eq!(
        player.pad_added(ticket, Some("video/x-raw")),
        PadOutcome::Attached(Branch { first_node: 3, node_count: 3, first_link: 1, link_count: 4 })
    );
    assert_eq!(*player.graph().node(5).unwrap(), Node::FormatFilter { format: PixelFormat::Uyvy });
    assert_eq!(player.graph().link(3).unwrap(), Link { from: 5, to: 0 });
    assert_eq!(player.graph().link(4).unwrap(), Link { from: 2, to: 3 });
    // The embedded audio of a video item is discarded.
    assert_eq!(
        player.pad_added(ticket, Some("audio/x-raw")),
        PadOutcome::Attached(Branch { first_node: 6, node_count: 1, first_link: 5, link_count: 1 })
    );
    assert_eq!(*player.graph().node(6).unwrap(), Node::DiscardSink);
    assert_eq!(player.pad_added(ticket, Some("text/x-raw")), PadOutcome::Ignored);
    assert_eq!(player.pad_added(ticket, None), PadOutcome::Ignored);
}

#[test]
fn position_prefers_forwarder_once_it_delivered() {
    let mut player = CuePlayer::new(Platform::Linux);
    let outputs = vec![output("ndi-1", OutputType::Ndi)];
    let handles: IdMap<NativeHandle> = IdMap::new();
    let the_cue = cue(vec![item("v", MediaType::Video, "/media/v.mp4", "ndi-1")]);
    player.load_cue(&the_cue, &outputs, &vec![], &handles).unwrap();
    assert_eq!(player.forwarder_position("ndi-1"), Some(0));
    assert_eq!(player.forwarder_position("display-1"), None);
    assert_eq!(player.position(Some(5)), Some(5));
    let mut seen = vec![player.forwarder_position("ndi-1").unwrap()];
    for pts in [0u64, 33_000_000, 66_000_000] {
        let frame = player.handle_new_sample("ndi-1", &buffer(pts)).unwrap();
        assert_eq!(frame.width, 1920);
        assert_eq!(frame.height, 1080);
        assert_eq!(frame.format, PixelFormat::Uyvy);
        seen.push(player.forwarder_position("ndi-1").unwrap());
    }
    assert_eq!(seen, vec![0, 0, 33_000_000, 66_000_000]);
    assert_eq!(player.position(Some(5)), Some(66_000_000));
    assert_eq!(player.handle_new_sample("other", &buffer(1)), Err(FlowError::Error));
    assert_eq!(player.handle_new_sample("ndi-1", &Pulled::NoSample), Err(FlowError::Error));
    assert_eq!(player.position(None), Some(66_000_000));
}

#[test]
fn override_shields_output_from_master_until_cleared() {
    let mut player = CuePlayer::new(Platform::Linux);
    let outputs =
        vec![output("display-1", OutputType::Display), output("display-2", OutputType::Display)];
    let handles: IdMap<NativeHandle> = IdMap::new();
    let the_cue = cue(vec![
        item("a", MediaType::Video, "/media/a.mp4", "display-1"),
        item("b", MediaType::Video, "/media/b.mp4", "display-2"),
    ]);
    player.load_cue(&the_cue, &outputs, &vec![], &handles).unwrap();
    player.pad_added(player.pad_ticket(0), Some("video/x-raw"));
    player.pad_added(player.pad_ticket(1), Some("video/x-raw"));
    // Balance nodes: 5 for display-1, 8 for display-2.
    assert_eq!(
        player.set_output_brightness("display-1", Some(150_000)),
        vec![GainUpdate { node: 5, gain: 500_000 }]
    );
    assert_eq!(
        player.set_master_brightness(50_000),
        vec![GainUpdate { node: 8, gain: -500_000 }]
    );
    assert_eq!(
        *player.graph().node(5).unwrap(),
        Node::VideoBalance { output_id: "display-1".to_string(), gain: 500_000 }
    );
    // Clearing writes nothing.
    assert_eq!(player.set_output_brightness("display-1", None), vec![]);
    assert_eq!(
        *player.graph().node(5).unwrap(),
        Node::VideoBalance { output_id: "display-1".to_string(), gain: 500_000 }
    );
    // The next master write reaches both outputs.
    assert_eq!(
        player.set_master_brightness(200_000),
        vec![GainUpdate { node: 5, gain: 1_000_000 }, GainUpdate { node: 8, gain: 1_000_000 }]
    );
    assert_eq!(
        *player.graph().node(5).unwrap(),
        Node::VideoBalance { output_id: "display-1".to_string(), gain: 1_000_000 }
    );
}

#[test]
fn output_override_from_project_is_used_at_load() {
    let mut player = CuePlayer::new(Platform::Linux);
    let mut dimmed = output("display-1", OutputType::Display);
    dimmed.brightness = Some(25_000);
    let outputs = vec![dimmed];
    let handles: IdMap<NativeHandle> = IdMap::new();
    let the_cue = cue(vec![item("a", MediaType::Video, "/media/a.mp4", "display-1")]);
    player.load_cue(&the_cue, &outputs, &vec![], &handles).unwrap();
    assert_eq!(player.get_effective_brightness("display-1"), 25_000);
    assert_eq!(player.get_effective_brightness("display-2"), 100_000);
    player.pad_added(player.pad_ticket(0), Some("video/x-h264"));
    assert_eq!(
        *player.graph().node(3).unwrap(),
        Node::VideoBalance { output_id: "display-1".to_string(), gain: -750_000 }
    );
}

#[test]
fn master_volume_reaches_every_volume_node() {
    let mut player = CuePlayer::new(Platform::Linux);
    let outputs = vec![output("audio-1", OutputType::Audio), output("audio-2", OutputType::Audio)];
    let handles: IdMap<NativeHandle> = IdMap::new();
    let the_cue = cue(vec![
        item("a", MediaType::Audio, "/media/a.wav", "audio-1"),
        item("b", MediaType::Audio, "/media/b.wav", "audio-2"),
    ]);
    player.set_master_volume(80_000);
    player.load_cue(&the_cue, &outputs, &vec![], &handles).unwrap();
    player.pad_added(player.pad_ticket(0), Some("audio/x-raw"));
    player.pad_added(player.pad_ticket(1), Some("audio/x-raw"));
    assert_eq!(
        *player.graph().node(6).unwrap(),
        Node::Volume { name: "volume_audio-1".to_string(), gain: 1_000_000 }
    );
    assert_eq!(
        player.apply_master_volume(),
        vec![GainUpdate { node: 6, gain: 800_000 }, GainUpdate { node: 10, gain: 800_000 }]
    );
    assert_eq!(
        player.set_master_volume(0),
        vec![GainUpdate { node: 6, gain: 0 }, GainUpdate { node: 10, gain: 0 }]
    );
    assert_eq!(player.master_volume(), 0);
    assert_eq!(
        *player.graph().node(10).unwrap(),
        Node::Volume { name: "volume_audio-2".to_string(), gain: 0 }
    );
}

#[test]
fn transport_moves_between_states() {
    let mut player = CuePlayer::new(Platform::Linux);
    assert_eq!(player.play(), StateChange { target: PipelineState::Playing, wait_ms: 100 });
    assert_eq!(player.state(), PipelineState::Playing);
    assert_eq!(player.play(), StateChange { target: PipelineState::Playing, wait_ms: 100 });
    assert_eq!(player.state(), PipelineState::Playing);
    assert_eq!(player.pause(), StateChange { target: PipelineState::Paused, wait_ms: 2_000 });
    assert_eq!(player.state(), PipelineState::Paused);
    assert_eq!(player.stop(), StateChange { target: PipelineState::Null, wait_ms: 100 });
    assert_eq!(player.state(), PipelineState::Null);
}

#[test]
fn preroll_error_aborts_load() {
    let mut player = CuePlayer::new(Platform::Linux);
    let outputs = vec![output("display-1", OutputType::Display)];
    let handles: IdMap<NativeHandle> = IdMap::new();
    let the_cue = cue(vec![item("a", MediaType::Video, "/media/a.mp4", "display-1")]);
    player.load_cue(&the_cue, &outputs, &vec![], &handles).unwrap();
    let messages = vec![
        BusMessage::Warning("slow".to_string()),
        BusMessage::Error("no such file (None)".to_string()),
        BusMessage::AsyncDone,
    ];
    assert_eq!(
        player.preroll_pipeline(&messages),
        Err(AppError::Pipeline("Pipeline error: no such file (None)".to_string()))
    );
    assert_eq!(player.state(), PipelineState::Null);
    assert_eq!(player.graph().node_count(), 0);
}

#[test]
fn preroll_timeout_follows_policy() {
    let outputs = vec![output("display-1", OutputType::Display)];
    let handles: IdMap<NativeHandle> = IdMap::new();
    let the_cue = cue(vec![item("a", MediaType::Video, "/media/a.mp4", "display-1")]);

    let mut lenient = CuePlayer::new(Platform::Linux);
    lenient.load_cue(&the_cue, &outputs, &vec![], &handles).unwrap();
    assert_eq!(lenient.preroll_pipeline(&vec![BusMessage::Other]), Ok(()));
    assert_eq!(lenient.state(), PipelineState::Paused);

    let mut strict = CuePlayer::new(Platform::Linux);
    strict.set_timeout_policy(TimeoutPolicy::Fail);
    strict.load_cue(&the_cue, &outputs, &vec![], &handles).unwrap();
    assert_eq!(
        strict.preroll_pipeline(&vec![]),
        Err(AppError::Timeout("Preroll did not complete within 5000 ms".to_string()))
    );
    assert_eq!(strict.state(), PipelineState::Null);
    assert_eq!(strict.graph().node_count(), 0);
}

#[test]
fn nonzero_preroll_position_asks_for_seek_to_zero() {
    let player = CuePlayer::new(Platform::Linux);
    assert_eq!(
        player.adjust_initial_position(Some(1_400_000_000)),
        Some(SeekRequest { position_ns: 0, flush: true, accurate: true })
    );
    assert_eq!(
        player.adjust_initial_position(Some(1)),
        Some(SeekRequest { position_ns: 0, flush: true, accurate: true })
    );
    assert_eq!(player.adjust_initial_position(Some(0)), None);
    assert_eq!(player.adjust_initial_position(None), None);
}

#[test]
fn dropped_branch_is_cut_off() {
    let mut player = CuePlayer::new(Platform::Linux);
    let outputs = vec![output("display-1", OutputType::Display)];
    let handles: IdMap<NativeHandle> = IdMap::new();
    let the_cue = cue(vec![item("a", MediaType::Video, "/media/a.mp4", "display-1")]);
    player.load_cue(&the_cue, &outputs, &vec![], &handles).unwrap();
    let branch = match player.pad_added(player.pad_ticket(0), Some("video/x-raw")) {
        PadOutcome::Attached(branch) => branch,
        other => panic!("unexpected outcome {:?}", other),
    };
    assert_eq!(player.graph().node_count(), 5);
    player.drop_branch(branch);
    assert_eq!(player.graph().node_count(), 2);
    assert_eq!(player.graph().link_count(), 1);
    player.drop_branch(Branch { first_node: 7, node_count: 1, first_link: 0, link_count: 0 });
    assert_eq!(player.graph().node_count(), 2);
    assert_eq!(player.graph().link_count(), 1);
    // A branch can be taken back once.
    player.drop_branch(branch);
    assert_eq!(player.graph().node_count(), 2);
}

#[test]
fn only_the_last_branch_can_be_dropped() {
    let mut player = CuePlayer::new(Platform::Linux);
    let outputs = vec![output("display-1", OutputType::Display)];
    let handles: IdMap<NativeHandle> = IdMap::new();
    let the_cue = cue(vec![item("a", MediaType::Video, "/media/a.mp4", "display-1")]);
    player.load_cue(&the_cue, &outputs, &vec![], &handles).unwrap();
    let video = match player.pad_added(player.pad_ticket(0), Some("video/x-raw")) {
        PadOutcome::Attached(branch) => branch,
        other => panic!("unexpected outcome {:?}", other),
    };
    let audio = match player.pad_added(player.pad_ticket(0), Some("audio/x-raw")) {
        PadOutcome::Attached(branch) => branch,
        other => panic!("unexpected outcome {:?}", other),
    };
    assert_eq!(player.graph().node_count(), 6);
    player.drop_branch(video);
    assert_eq!(player.graph().node_count(), 6);
    // A stream that was passed over does not change what can be dropped.
    assert_eq!(player.pad_added(player.pad_ticket(0), Some("text/plain")), PadOutcome::Ignored);
    player.drop_branch(audio);
    assert_eq!(player.graph().node_count(), 5);
    assert_eq!(player.graph().link_count(), 4);
    player.drop_branch(video);
    assert_eq!(player.graph().node_count(), 5);
}

#[test]
fn gpu_share_depends_on_platform() {
    let outputs = vec![output("syphon-1", OutputType::Syphon), output("spout-1", OutputType::Spout)];
    let handles: IdMap<NativeHandle> = IdMap::new();
    let the_cue = cue(vec![
        item("a", MediaType::Video, "/media/a.mp4", "syphon-1"),
        item("b", MediaType::Video, "/media/b.mp4", "spout-1"),
    ]);

    let mut mac = CuePlayer::new(Platform::MacOs);
    mac.load_cue(&the_cue, &outputs, &vec![], &handles).unwrap();
    assert_eq!(mac.latency_ms(), 100);
    assert_eq!(
        *mac.graph().node(0).unwrap(),
        Node::ForwarderSink { output_id: "syphon-1".to_string(), format: PixelFormat::Rgba }
    );
    assert!(matches!(mac.pad_added(mac.pad_ticket(0), Some("video/x-raw")), PadOutcome::Attached(_)));
    assert_eq!(*mac.graph().node(7).unwrap(), Node::FormatFilter { format: PixelFormat::Rgba });
    assert_eq!(
        mac.pad_added(mac.pad_ticket(1), Some("video/x-raw")),
        PadOutcome::Dropped(DropReason::UnsupportedPlatform)
    );

    let mut linux = CuePlayer::new(Platform::Linux);
    linux.load_cue(&the_cue, &outputs, &vec![], &handles).unwrap();
    assert_eq!(linux.latency_ms(), 0);
    assert_eq!(linux.graph().node_count(), 4);
    assert_eq!(
        linux.pad_added(linux.pad_ticket(0), Some("video/x-raw")),
        PadOutcome::Dropped(DropReason::UnsupportedPlatform)
    );
    assert_eq!(linux.graph().node_count(), 4);
}

#[test]
fn video_on_audio_output_is_dropped() {
    let mut player = CuePlayer::new(Platform::Linux);
    let outputs = vec![output("audio-1", OutputType::Audio)];
    let handles: IdMap<NativeHandle> = IdMap::new();
    let the_cue = cue(vec![item("a", MediaType::Video, "/media/a.mp4", "audio-1")]);
    player.load_cue(&the_cue, &outputs, &vec![], &handles).unwrap();
    assert_eq!(
        player.pad_added(player.pad_ticket(0), Some("video/x-raw")),
        PadOutcome::Dropped(DropReason::VideoOnAudioOutput)
    );
    assert_eq!(
        player.pad_added(PadTicket { generation: player.generation(), item: 4 }, Some("video/x-raw")),
        PadOutcome::Ignored
    );
}

#[test]
fn display_output_is_bound_to_monitor_and_surface() {
    let mut player = CuePlayer::new(Platform::Linux);
    let mut second = output("display-2", OutputType::Display);
    second.display_index = Some(1);
    let mut third = output("display-3", OutputType::Display);
    third.display_index = Some(7);
    let outputs = vec![output("display-1", OutputType::Display), second, third, output("ndi", OutputType::Ndi)];
    let mut handles: IdMap<NativeHandle> = IdMap::new();
    handles.insert("display-2".to_string(), NativeHandle::X11Window(77));
    handles.insert("ndi".to_string(), NativeHandle::X11Window(78));
    let the_cue = cue(vec![
        item("a", MediaType::Video, "/media/a.mp4", "display-1"),
        item("b", MediaType::Video, "/media/b.mp4", "display-2"),
        item("c", MediaType::Video, "/media/c.mp4", "display-3"),
        item("d", MediaType::Video, "/media/d.mp4", "ndi"),
    ]);
    player.load_cue(&the_cue, &outputs, &vec![monitor(0), monitor(1)], &handles).unwrap();
    assert_eq!(player.pad_context(0).unwrap().owm.monitor, Some(monitor(0)));
    assert_eq!(player.pad_context(0).unwrap().owm.native_handle, None);
    assert_eq!(player.pad_context(1).unwrap().owm.monitor, Some(monitor(1)));
    assert_eq!(player.pad_context(1).unwrap().owm.native_handle, Some(NativeHandle::X11Window(77)));
    assert_eq!(player.pad_context(2).unwrap().owm.monitor, None);
    assert_eq!(player.pad_context(3).unwrap().owm.monitor, None);
    assert_eq!(player.pad_context(3).unwrap().owm.native_handle, None);
}
