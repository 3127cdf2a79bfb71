use live_player::error::AppError;
use live_player::output::native_handle::{NativeHandle, Platform, SinkFactory};
use live_player::pipeline::graph::{Branch, Graph, Link, Node, PixelFormat};
use live_player::pipeline::media_handler::{
    add_media_item, create_video_sink, forwarder_format, handle_audio_pad,
    handle_audio_pad_from_video, handle_display_video, handle_ndi_video, handle_pad_added,
    handle_syphon_video, handle_video_pad, ndi_name, stream_kind, volume_name, DropReason,
    PadOutcome, StreamKind,
};
use live_player::pipeline::router::OutputWithMonitor;
use live_player::types::{MediaItem, MediaType, OutputTarget, OutputType};

fn binding(id: &str, kind: OutputType, handle: Option<NativeHandle>) -> OutputWithMonitor {
    OutputWithMonitor {
        output: OutputTarget {
            id: id.to_string(),
            name: "Output".to_string(),
            output_type: kind,
            brightness: None,
            display_index: None,
            fullscreen: None,
            ndi_name: None,
            audio_driver: None,
            audio_device: None,
            audio_channels: None,
            syphon_name: None,
            spout_name: None,
        },
        monitor: None,
        native_handle: handle,
    }
}

fn item(kind: MediaType, output_id: &str) -> MediaItem {
    MediaItem {
        id: "item".to_string(),
        media_type: kind,
        name: "Item".to_string(),
        path: "/media/file".to_string(),
        output_id: output_id.to_string(),
        offset: Some(-5),
        trim_start: Some(1),
        trim_end: None,
    }
}

#[test]
fn stream_kinds_by_media_type_name() {
    assert_eq!(stream_kind("video/x-raw"), StreamKind::Video);
    assert_eq!(stream_kind("video/"), StreamKind::Video);
    assert_eq!(stream_kind("audio/x-raw"), StreamKind::Audio);
    assert_eq!(stream_kind("audio/mpeg"), StreamKind::Audio);
    assert_eq!(stream_kind("text/x-raw"), StreamKind::Other);
    assert_eq!(stream_kind("video"), StreamKind::Other);
    assert_eq!(stream_kind(""), StreamKind::Other);
}

#[test]
fn forwarder_formats() {
    for platform in [Platform::MacOs, Platform::Windows, Platform::Linux, Platform::Other] {
        assert_eq!(forwarder_format(OutputType::Ndi, platform), Some(PixelFormat::Uyvy));
        assert_eq!(forwarder_format(OutputType::Display, platform), None);
        assert_eq!(forwarder_format(OutputType::Audio, platform), None);
        assert_eq!(forwarder_format(OutputType::Spout, platform), None);
    }
    assert_eq!(forwarder_format(OutputType::Syphon, Platform::MacOs), Some(PixelFormat::Rgba));
    assert_eq!(forwarder_format(OutputType::Syphon, Platform::Linux), None);
    assert_eq!(PixelFormat::Uyvy.name(), "UYVY");
    assert_eq!(PixelFormat::Rgba.name(), "RGBA");
}

#[test]
fn media_item_becomes_source_and_decoder() {
    let mut graph = Graph::new();
    graph.add_node(Node::DiscardSink);
    let owm = binding("d", OutputType::Display, None);
    let ctx = add_media_item(&mut graph, 4, &item(MediaType::Video, "d"), &owm, 120_000, None);
    assert_eq!(graph.node_count(), 3);
    assert_eq!(*graph.node(1).unwrap(), Node::FileSource { location: "/media/file".to_string() });
    assert_eq!(*graph.node(2).unwrap(), Node::Decoder);
    assert_eq!(graph.link_count(), 1);
    assert_eq!(graph.link(0).unwrap(), Link { from: 1, to: 2 });
    assert_eq!(ctx.generation, 4);
    assert_eq!(ctx.decoder, 2);
    assert_eq!(ctx.brightness, 120_000);
    assert_eq!(ctx.appsink, None);
    assert_eq!(ctx.item, item(MediaType::Video, "d"));
    assert_eq!(ctx.owm, owm);
    assert_eq!(graph.node(1).unwrap().element_name(), Some("filesrc"));
    assert_eq!(graph.node(2).unwrap().element_name(), Some("decodebin"));
}

#[test]
fn display_branch() {
    let mut graph = Graph::new();
    let owm = binding("d", OutputType::Display, Some(NativeHandle::X11Window(5)));
    let ctx = add_media_item(&mut graph, 0, &item(MediaType::Video, "d"), &owm, 150_000, None);
    let branch = handle_display_video(&mut graph, &ctx);
    assert_eq!(branch, Branch { first_node: 2, node_count: 3, first_link: 1, link_count: 3 });
    assert_eq!(*graph.node(2).unwrap(), Node::VideoConvert);
    assert_eq!(*graph.node(3).unwrap(), Node::VideoBalance { output_id: "d".to_string(), gain: 500_000 });
    assert_eq!(
        *graph.node(4).unwrap(),
        Node::VideoSink { output_id: "d".to_string(), handle: Some(NativeHandle::X11Window(5)) }
    );
    assert_eq!(graph.link(1).unwrap(), Link { from: 2, to: 3 });
    assert_eq!(graph.link(2).unwrap(), Link { from: 3, to: 4 });
    assert_eq!(graph.link(3).unwrap(), Link { from: 1, to: 2 });
    assert_eq!(graph.node(2).unwrap().element_name(), Some("videoconvert"));
    assert_eq!(graph.node(3).unwrap().element_name(), Some("videobalance"));
    assert_eq!(graph.node(4).unwrap().element_name(), None);
}

#[test]
fn forwarder_branches() {
    let mut graph = Graph::new();
    let sink = graph.add_node(Node::ForwarderSink {
        output_id: "n".to_string(),
        format: PixelFormat::Uyvy,
    });
    let owm = binding("n", OutputType::Ndi, None);
    let ctx = add_media_item(&mut graph, 0, &item(MediaType::Video, "n"), &owm, 0, Some(sink));
    assert_eq!(
        handle_ndi_video(&mut graph, &ctx),
        PadOutcome::Attached(Branch { first_node: 3, node_count: 3, first_link: 1, link_count: 4 })
    );
    assert_eq!(*graph.node(4).unwrap(), Node::VideoBalance { output_id: "n".to_string(), gain: -1_000_000 });
    assert_eq!(*graph.node(5).unwrap(), Node::FormatFilter { format: PixelFormat::Uyvy });
    assert_eq!(graph.link(3).unwrap(), Link { from: 5, to: 0 });
    assert_eq!(graph.link(4).unwrap(), Link { from: 2, to: 3 });
    assert_eq!(graph.node(0).unwrap().element_name(), Some("appsink"));
    assert_eq!(graph.node(5).unwrap().element_name(), Some("capsfilter"));

    assert_eq!(
        handle_syphon_video(&mut graph, &ctx),
        PadOutcome::Attached(Branch { first_node: 6, node_count: 3, first_link: 5, link_count: 4 })
    );
    assert_eq!(*graph.node(8).unwrap(), Node::FormatFilter { format: PixelFormat::Rgba });

    let orphan = add_media_item(&mut graph, 0, &item(MediaType::Video, "n"), &owm, 0, None);
    let nodes = graph.node_count();
    assert_eq!(handle_ndi_video(&mut graph, &orphan), PadOutcome::Dropped(DropReason::NoForwarder));
    assert_eq!(
        handle_syphon_video(&mut graph, &orphan),
        PadOutcome::Dropped(DropReason::NoForwarder)
    );
    assert_eq!(
        handle_video_pad(&mut graph, &orphan, Platform::Linux),
        PadOutcome::Dropped(DropReason::NoForwarder)
    );
    assert_eq!(graph.node_count(), nodes);
}

#[test]
fn audio_branches() {
    let mut graph = Graph::new();
    let owm = binding("a", OutputType::Audio, None);
    let ctx = add_media_item(&mut graph, 0, &item(MediaType::Audio, "a"), &owm, 100_000, None);
    assert_eq!(
        handle_audio_pad(&mut graph, &ctx),
        PadOutcome::Attached(Branch { first_node: 2, node_count: 4, first_link: 1, link_count: 4 })
    );
    assert_eq!(*graph.node(2).unwrap(), Node::AudioConvert);
    assert_eq!(*graph.node(3).unwrap(), Node::AudioResample);
    assert_eq!(*graph.node(4).unwrap(), Node::Volume { name: "volume_a".to_string(), gain: 1_000_000 });
    assert_eq!(*graph.node(5).unwrap(), Node::AudioSink { output_id: "a".to_string() });
    assert_eq!(graph.link(1).unwrap(), Link { from: 2, to: 3 });
    assert_eq!(graph.link(2).unwrap(), Link { from: 3, to: 4 });
    assert_eq!(graph.link(3).unwrap(), Link { from: 4, to: 5 });
    assert_eq!(graph.link(4).unwrap(), Link { from: 1, to: 2 });
    assert_eq!(graph.node(2).unwrap().element_name(), Some("audioconvert"));
    assert_eq!(graph.node(3).unwrap().element_name(), Some("audioresample"));
    assert_eq!(graph.node(4).unwrap().element_name(), Some("volume"));
    assert_eq!(graph.node(5).unwrap().element_name(), None);
    assert_eq!(
        handle_audio_pad(&mut graph, &ctx),
        PadOutcome::Dropped(DropReason::DuplicateGainName)
    );
    assert_eq!(graph.node_count(), 6);

    let branch = handle_audio_pad_from_video(&mut graph, &ctx);
    assert_eq!(branch, Branch { first_node: 6, node_count: 1, first_link: 5, link_count: 1 });
    assert_eq!(*graph.node(6).unwrap(), Node::DiscardSink);
    assert_eq!(graph.link(5).unwrap(), Link { from: 1, to: 6 });
    assert_eq!(graph.node(6).unwrap().element_name(), Some("fakesink"));
    assert_eq!(volume_name("a"), "volume_a");
}

#[test]
fn stale_context_is_ignored() {
    let mut graph = Graph::new();
    let owm = binding("d", OutputType::Display, None);
    let ctx = add_media_item(&mut graph, 1, &item(MediaType::Video, "d"), &owm, 100_000, None);
    assert_eq!(
        handle_pad_added(&mut graph, 2, &ctx, Platform::Linux, Some("video/x-raw")),
        PadOutcome::Ignored
    );
    assert_eq!(graph.node_count(), 2);
    assert!(matches!(
        handle_pad_added(&mut graph, 1, &ctx, Platform::Linux, Some("video/x-raw")),
        PadOutcome::Attached(_)
    ));
    // A video stream of an audio item goes nowhere.
    let audio = add_media_item(&mut graph, 1, &item(MediaType::Audio, "d"), &owm, 100_000, None);
    assert_eq!(
        handle_pad_added(&mut graph, 1, &audio, Platform::Linux, Some("video/x-raw")),
        PadOutcome::Ignored
    );
}

#[test]
fn video_sinks_to_try() {
    let linux = Platform::Linux;
    assert_eq!(
        create_video_sink(&binding("d", OutputType::Display, None), linux),
        Ok(vec![SinkFactory::AutoVideoSink])
    );
    assert_eq!(
        create_video_sink(&binding("d", OutputType::Display, Some(NativeHandle::X11Window(1))), linux),
        Ok(vec![
            SinkFactory::GlImageSink,
            SinkFactory::XvImageSink,
            SinkFactory::XImageSink,
            SinkFactory::AutoVideoSink
        ])
    );
    assert_eq!(
        create_video_sink(&binding("d", OutputType::Display, Some(NativeHandle::Hwnd(1))), linux),
        Ok(vec![SinkFactory::AutoVideoSink])
    );
    assert_eq!(
        create_video_sink(&binding("n", OutputType::Ndi, None), linux),
        Ok(vec![SinkFactory::NdiSink])
    );
    assert_eq!(
        create_video_sink(&binding("a", OutputType::Audio, None), linux),
        Err(AppError::GStreamer("Audio output cannot be used as video sink".to_string()))
    );
    assert_eq!(
        create_video_sink(&binding("s", OutputType::Syphon, None), linux),
        Err(AppError::GStreamer("Syphon output uses appsink, not video sink".to_string()))
    );
    assert_eq!(
        create_video_sink(&binding("s", OutputType::Spout, None), linux),
        Err(AppError::GStreamer("Spout output uses appsink, not video sink".to_string()))
    );
}

#[test]
fn network_name_defaults_to_the_player() {
    let mut owm = binding("n", OutputType::Ndi, None);
    assert_eq!(ndi_name(&owm), "TauriLivePlayer");
    owm.output.ndi_name = Some("Stage Left".to_string());
    assert_eq!(ndi_name(&owm), "Stage Left");
}

#[test]
fn graph_gain_and_discard() {
    let mut graph = Graph::new();
    graph.add_node(Node::VideoBalance { output_id: "d".to_string(), gain: 0 });
    graph.add_node(Node::Decoder);
    graph.add_link(1, 0);
    graph.set_gain(0, 250_000);
    graph.set_gain(1, 250_000);
    graph.set_gain(2, 250_000);
    assert_eq!(graph.node(2), None);
    assert_eq!(graph.link(1), None);
    assert_eq!(graph.link(0), Some(Link { from: 1, to: 0 }));
    graph.discard_branch(Branch { first_node: 3, node_count: 1, first_link: 0, link_count: 1 });
    graph.discard_branch(Branch { first_node: 0, node_count: 1, first_link: 2, link_count: 1 });
    assert_eq!(graph.node_count(), 2);
    assert_eq!(graph.link_count(), 1);
    assert_eq!(*graph.node(0).unwrap(), Node::VideoBalance { output_id: "d".to_string(), gain: 250_000 });
    assert_eq!(*graph.node(1).unwrap(), Node::Decoder);
    assert!(!graph.has_volume("volume_d"));
    graph.discard_branch(Branch { first_node: 1, node_count: 1, first_link: 0, link_count: 1 });
    assert_eq!(graph.node_count(), 1);
    assert_eq!(graph.link_count(), 0);
    graph.clear();
    assert_eq!(graph.node_count(), 0);
}
