use live_player::error::AppError;
use live_player::pipeline::graph::PixelFormat;
use live_player::pipeline::ndi_sender::{
    copy_frame_data, ndi_error, split_time, AppSinkConfig, FlowError, FramePlan, NdiSender, Pulled,
    SampleInfo, StreamTime, VideoFormat,
};

fn video() -> VideoFormat {
    VideoFormat { width: 1280, height: 720, fps_numer: 30_000, fps_denom: 1_001 }
}

fn buffer(pts: Option<u64>) -> Pulled {
    Pulled::Buffer(SampleInfo { pts, video: Some(video()), mapped_len: Some(1_843_200) })
}

#[test]
fn test_ndi_sender_creation() {
    let sender = NdiSender::new("Test Sender");
    assert_eq!(sender.name(), "Test Sender");
    assert_eq!(sender.last_pts_ns(), 0);
    let options = sender.sender_options();
    assert_eq!(options.name, "Test Sender");
    assert!(options.clock_video);
    assert!(!options.clock_audio);
}

#[test]
fn position_is_zero_before_any_frame() {
    let sender = NdiSender::new("Feed");
    assert_eq!(sender.last_pts_ns(), 0);
    assert_eq!(sender.last_position(), StreamTime { seconds: 0, nanos: 0 });
}

#[test]
fn positions_follow_delivered_frames() {
    let mut sender = NdiSender::new("Feed");
    let mut seen = Vec::new();
    for pts in [0u64, 33_000_000, 66_000_000] {
        assert!(sender.handle_new_sample(&buffer(Some(pts))).is_ok());
        seen.push(sender.last_pts_ns());
    }
    assert_eq!(seen, vec![0, 33_000_000, 66_000_000]);
    assert!(seen.windows(2).all(|w| w[0] <= w[1]));
    assert_eq!(sender.last_position(), StreamTime { seconds: 0, nanos: 66_000_000 });
    // A frame without a stamp and a failed pull keep the position.
    assert!(sender.handle_new_sample(&buffer(None)).is_ok());
    assert_eq!(sender.last_pts_ns(), 66_000_000);
    assert_eq!(sender.handle_new_sample(&Pulled::NoSample), Err(FlowError::Error));
    assert_eq!(sender.handle_new_sample(&Pulled::NoBuffer), Err(FlowError::Error));
    assert_eq!(sender.last_pts_ns(), 66_000_000);
    sender.reset_pts();
    assert_eq!(sender.last_pts_ns(), 0);
    assert_eq!(sender.name(), "Feed");
}

#[test]
fn frame_is_planned_from_the_sample() {
    let mut sender = NdiSender::new("Feed");
    assert_eq!(
        sender.handle_new_sample(&buffer(Some(5))),
        Ok(FramePlan {
            width: 1280,
            height: 720,
            frame_rate_n: 30_000,
            frame_rate_d: 1_001,
            format: PixelFormat::Uyvy,
            data_len: 1_843_200,
        })
    );
    // The stamp is taken before the sample is found wanting.
    let no_caps =
        Pulled::Buffer(SampleInfo { pts: Some(9), video: None, mapped_len: Some(10) });
    assert_eq!(sender.handle_new_sample(&no_caps), Err(FlowError::Error));
    assert_eq!(sender.last_pts_ns(), 9);
    let unreadable =
        Pulled::Buffer(SampleInfo { pts: Some(11), video: Some(video()), mapped_len: None });
    assert_eq!(sender.handle_new_sample(&unreadable), Err(FlowError::Error));
    assert_eq!(sender.last_pts_ns(), 11);
    let huge = Pulled::Buffer(SampleInfo {
        pts: None,
        video: Some(VideoFormat { width: u32::MAX, height: 0x8000_0000, fps_numer: 1, fps_denom: 1 }),
        mapped_len: Some(0),
    });
    let plan = sender.handle_new_sample(&huge).unwrap();
    assert_eq!(plan.width, -1);
    assert_eq!(plan.height, i32::MIN);
}

#[test]
fn appsink_holds_one_frame_and_drops() {
    let mut sender = NdiSender::new("Feed");
    assert_eq!(
        sender.create_appsink(),
        AppSinkConfig { sync: true, max_buffers: 1, drop: true, format: PixelFormat::Uyvy }
    );
    assert_eq!(sender.name(), "Feed");
    assert_eq!(sender.last_pts_ns(), 0);
}

#[test]
fn time_is_split_into_seconds_and_nanos() {
    assert_eq!(split_time(0), StreamTime { seconds: 0, nanos: 0 });
    assert_eq!(split_time(999_999_999), StreamTime { seconds: 0, nanos: 999_999_999 });
    assert_eq!(split_time(10_500_000_000), StreamTime { seconds: 10, nanos: 500_000_000 });
    assert_eq!(split_time(u64::MAX), StreamTime { seconds: 18_446_744_073, nanos: 709_551_615 });
}

#[test]
fn copying_frame_data() {
    let mut frame = vec![9u8; 6];
    assert_eq!(copy_frame_data(&mut frame, &[1, 2, 3]), 3);
    assert_eq!(frame, vec![1, 2, 3, 9, 9, 9]);
    let mut frame = vec![9u8; 2];
    assert_eq!(copy_frame_data(&mut frame, &[1, 2, 3]), 2);
    assert_eq!(frame, vec![1, 2]);
    let mut frame: Vec<u8> = vec![];
    assert_eq!(copy_frame_data(&mut frame, &[1]), 0);
    assert_eq!(frame, Vec::<u8>::new());
    let mut frame = vec![7u8; 2];
    assert_eq!(copy_frame_data(&mut frame, &[]), 0);
    assert_eq!(frame, vec![7, 7]);
}

#[test]
fn sdk_errors_name_the_step() {
    assert_eq!(
        ndi_error("Failed to initialize NDI SDK", "not installed"),
        AppError::Ndi("Failed to initialize NDI SDK: not installed".to_string())
    );
}
