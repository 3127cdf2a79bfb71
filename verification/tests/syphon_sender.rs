use live_player::pipeline::graph::PixelFormat;
use live_player::pipeline::ndi_sender::{
    AppSinkConfig, FlowError, FramePlan, Pulled, SampleInfo, StreamTime, VideoFormat,
};
use live_player::pipeline::syphon_sender::{SyphonSender, SyphonState, TextureUpload};

fn buffer(pts: u64, width: u32, height: u32) -> Pulled {
    Pulled::Buffer(SampleInfo {
        pts: Some(pts),
        video: Some(VideoFormat { width, height, fps_numer: 60, fps_denom: 1 }),
        mapped_len: Some((width * height * 4) as usize),
    })
}

#[test]
fn texture_is_laid_out_when_size_changes() {
    let mut state = SyphonState::new(3);
    assert_eq!(state, SyphonState { texture_id: 3, last_width: 0, last_height: 0 });
    assert_eq!(
        state.publish_frame(640, 480),
        TextureUpload { texture_id: 3, width: 640, height: 480, set_filters: true, flipped: true }
    );
    assert_eq!(
        state.publish_frame(640, 480),
        TextureUpload { texture_id: 3, width: 640, height: 480, set_filters: false, flipped: true }
    );
    assert_eq!(
        state.publish_frame(640, 360),
        TextureUpload { texture_id: 3, width: 640, height: 360, set_filters: true, flipped: true }
    );
    assert_eq!(state, SyphonState { texture_id: 3, last_width: 640, last_height: 360 });
}

#[test]
fn syphon_sender_plans_rgba_frames() {
    let mut sender = SyphonSender::new("Share", Some(SyphonState::new(1)));
    assert_eq!(sender.name(), "Share");
    assert!(!sender.has_clients());
    assert!(!sender.needs_state());
    assert_eq!(
        sender.create_appsink(),
        AppSinkConfig { sync: true, max_buffers: 1, drop: true, format: PixelFormat::Rgba }
    );
    assert_eq!(sender.last_position(), StreamTime { seconds: 0, nanos: 0 });
    let frame = sender.handle_new_sample(&buffer(2_000_000_001, 320, 200)).unwrap();
    assert_eq!(
        frame,
        FramePlan {
            width: 320,
            height: 200,
            frame_rate_n: 60,
            frame_rate_d: 1,
            format: PixelFormat::Rgba,
            data_len: 256_000,
        }
    );
    assert_eq!(sender.last_pts_ns(), 2_000_000_001);
    assert_eq!(sender.last_position(), StreamTime { seconds: 2, nanos: 1 });
    assert_eq!(
        sender.publish(&frame, None),
        Ok(TextureUpload { texture_id: 1, width: 320, height: 200, set_filters: true, flipped: true })
    );
    assert_eq!(
        sender.publish(&frame, Some(SyphonState::new(8))),
        Ok(TextureUpload { texture_id: 1, width: 320, height: 200, set_filters: false, flipped: true })
    );
}

#[test]
fn syphon_sender_ends_stream_without_sample() {
    let mut sender = SyphonSender::new("Share", None);
    assert_eq!(sender.handle_new_sample(&Pulled::NoSample), Err(FlowError::Eos));
    assert_eq!(sender.handle_new_sample(&Pulled::NoBuffer), Err(FlowError::Error));
    let no_video = Pulled::Buffer(SampleInfo { pts: Some(4), video: None, mapped_len: Some(1) });
    assert_eq!(sender.handle_new_sample(&no_video), Err(FlowError::Error));
    assert_eq!(sender.last_pts_ns(), 4);
}

#[test]
fn syphon_sender_makes_texture_on_first_frame() {
    let mut sender = SyphonSender::new("Share", None);
    assert!(sender.needs_state());
    let frame = sender.handle_new_sample(&buffer(1, 100, 50)).unwrap();
    assert_eq!(sender.publish(&frame, None), Err(FlowError::Error));
    assert!(sender.needs_state());
    assert_eq!(
        sender.publish(&frame, Some(SyphonState::new(5))),
        Ok(TextureUpload { texture_id: 5, width: 100, height: 50, set_filters: true, flipped: true })
    );
    assert!(!sender.needs_state());
}
