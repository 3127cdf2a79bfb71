//! The frame forwarder for the GPU texture share of macOS.
//!
//! Frames arrive as RGBA, are uploaded into one texture and published from
//! there. The texture is laid out anew whenever the frame size changes.

use vstd::prelude::*;
use vstd::string::*;
use crate::pipeline::graph::PixelFormat;
use crate::pipeline::ndi_sender::{
    appsink_config, frame_of, split_time, stamp_after, AppSinkConfig, FlowError, FramePlan, Pulled,
    StreamTime,
};

verus! {

/// The texture a sender publishes from, and the size it was last laid out
/// for.
#[derive(Debug, Clone, Copy, PartialEq, Eq, Structural)]
pub struct SyphonState {
    pub texture_id: u32,
    pub last_width: i32,
    pub last_height: i32,
}

/// What to do with the texture for one frame.
#[derive(Debug, Clone, Copy, PartialEq, Eq, Structural)]
pub struct TextureUpload {
    pub texture_id: u32,
    pub width: i32,
    pub height: i32,
    /// Whether the texture's filters are set: on the first frame and after
    /// every change of size.
    pub set_filters: bool,
    /// Frames are published flipped, so that they show upright.
    pub flipped: bool,
}

impl SyphonState {
    /// The state of a texture that has not held a frame yet.
    pub fn new(texture_id: u32) -> (s: Self)
        ensures
            s == (SyphonState { texture_id, last_width: 0, last_height: 0 }),
    {
        SyphonState { texture_id, last_width: 0, last_height: 0 }
    }

    /// Plans the upload of a frame and remembers its size.
    pub fn publish_frame(&mut self, width: i32, height: i32) -> (upload: TextureUpload)
        ensures
            upload == (TextureUpload {
                texture_id: old(self).texture_id,
                width,
                height,
                set_filters: width != old(self).last_width || height != old(self).last_height,
                flipped: true,
            }),
            *final(self) == (SyphonState {
                texture_id: old(self).texture_id,
                last_width: width,
                last_height: height,
            }),
    {
        let resized = width != self.last_width || height != self.last_height;
        if resized {
            self.last_width = width;
            self.last_height = height;
        }
        TextureUpload {
            texture_id: self.texture_id,
            width,
            height,
            set_filters: resized,
            flipped: true,
        }
    }
}

/// A forwarder to the GPU texture share under one server name.
#[derive(Debug, PartialEq, Eq)]
pub struct SyphonSender {
    name: String,
    state: Option<SyphonState>,
    last_pts_ns: u64,
    has_appsink: bool,
}

/// A texture share forwarder as its name and state.
pub struct SyphonSenderView {
    pub name: Seq<char>,
    /// The texture it publishes from, once that could be made.
    pub state: Option<SyphonState>,
    /// The stamp of the last delivered frame; zero before any frame.
    pub last_pts_ns: u64,
    /// Whether its ingestion sink has been made.
    pub has_appsink: bool,
}

impl View for SyphonSender {
    type V = SyphonSenderView;

    closed spec fn view(&self) -> SyphonSenderView {
        SyphonSenderView {
            name: self.name@,
            state: self.state,
            last_pts_ns: self.last_pts_ns,
            has_appsink: self.has_appsink,
        }
    }
}

impl Clone for SyphonSender {
    fn clone(&self) -> (r: Self)
        ensures
            r@ == self@,
    {
        SyphonSender {
            name: self.name.clone(),
            state: self.state,
            last_pts_ns: self.last_pts_ns,
            has_appsink: self.has_appsink,
        }
    }
}

/// The frame planned for a pull from a texture share's sink: a pull without
/// a sample ends the stream, everything else is as for any forwarder.
pub open spec fn syphon_frame_of(pulled: Pulled) -> Result<FramePlan, FlowError> {
    match pulled {
        Pulled::NoSample => Err(FlowError::Eos),
        other => frame_of(other, PixelFormat::Rgba),
    }
}

/// The texture state a sender publishes a frame with: its own, else the
/// fresh one that was made for this frame.
pub open spec fn state_for_frame(own: Option<SyphonState>, fresh: Option<SyphonState>) -> Option<
    SyphonState,
> {
    match own {
        Some(s) => Some(s),
        None => fresh,
    }
}

impl SyphonSender {
    /// A forwarder that has delivered no frame yet. `state` is the texture
    /// made for it; where that failed, making it is tried again on the first
    /// frame.
    pub fn new(name: &str, state: Option<SyphonState>) -> (s: Self)
        ensures
            s@ == (SyphonSenderView { name: name@, state, last_pts_ns: 0, has_appsink: false }),
    {
        SyphonSender { name: String::from_str(name), state, last_pts_ns: 0, has_appsink: false }
    }

    /// Makes the forwarder's ingestion sink: in step with the clock, holding
    /// one frame of RGBA and dropping the older one.
    pub fn create_appsink(&mut self) -> (config: AppSinkConfig)
        ensures
            config == (AppSinkConfig {
                sync: true,
                max_buffers: 1,
                drop: true,
                format: PixelFormat::Rgba,
            }),
            final(self)@ == (SyphonSenderView { has_appsink: true, ..old(self)@ }),
    {
        self.has_appsink = true;
        appsink_config(PixelFormat::Rgba)
    }

    /// Takes in what was pulled from the ingestion sink: stamps the
    /// presentation time of the buffer and plans the frame to publish.
    pub fn handle_new_sample(&mut self, pulled: &Pulled) -> (frame: Result<FramePlan, FlowError>)
        ensures
            frame == syphon_frame_of(*pulled),
            final(self)@ == (SyphonSenderView {
                last_pts_ns: stamp_after(old(self)@.last_pts_ns, *pulled),
                ..old(self)@
            }),
    {
        let info = match pulled {
            Pulled::NoSample => {
                return Err(FlowError::Eos);
            },
            Pulled::NoBuffer => {
                return Err(FlowError::Error);
            },
            Pulled::Buffer(info) => *info,
        };
        match info.pts {
            Some(pts) => {
                self.last_pts_ns = pts;
            },
            None => {},
        }
        match (info.video, info.mapped_len) {
            (Some(video), Some(data_len)) => Ok(
                FramePlan {
                    width: #[verifier::truncate]
                    (video.width as i32),
                    height: #[verifier::truncate]
                    (video.height as i32),
                    frame_rate_n: video.fps_numer,
                    frame_rate_d: video.fps_denom,
                    format: PixelFormat::Rgba,
                    data_len,
                },
            ),
            _ => Err(FlowError::Error),
        }
    }

    /// Whether the texture still has to be made before a frame can be
    /// published.
    pub fn needs_state(&self) -> (b: bool)
        ensures
            b == (self@.state is None),
    {
        self.state.is_none()
    }

    /// Publishes a planned frame. `fresh` is the texture that was made for
    /// this frame where the sender had none. Without any texture the frame is
    /// an error; else the upload is planned with the sender's texture and
    /// the texture remembers the frame's size.
    pub fn publish(&mut self, frame: &FramePlan, fresh: Option<SyphonState>) -> (upload: Result<
        TextureUpload,
        FlowError,
    >)
        ensures
            match state_for_frame(old(self)@.state, fresh) {
                None => upload == Err::<TextureUpload, FlowError>(FlowError::Error) && final(self)@
                    == old(self)@,
                Some(s) => upload == Ok::<TextureUpload, FlowError>(
                    TextureUpload {
                        texture_id: s.texture_id,
                        width: frame.width,
                        height: frame.height,
                        set_filters: frame.width != s.last_width || frame.height != s.last_height,
                        flipped: true,
                    },
                ) && final(self)@ == (SyphonSenderView {
                    state: Some(
                        SyphonState {
                            texture_id: s.texture_id,
                            last_width: frame.width,
                            last_height: frame.height,
                        },
                    ),
                    ..old(self)@
                }),
            },
    {
        let mut state = match self.state {
            Some(s) => s,
            None => match fresh {
                Some(s) => s,
                None => {
                    return Err(FlowError::Error);
                },
            },
        };
        let upload = state.publish_frame(frame.width, frame.height);
        self.state = Some(state);
        Ok(upload)
    }

    /// The stamp of the last delivered frame, split into seconds and
    /// nanoseconds; zero before any frame.
    pub fn last_position(&self) -> (t: StreamTime)
        ensures
            t.seconds * 1_000_000_000 + t.nanos == self@.last_pts_ns,
            t.nanos < 1_000_000_000,
    {
        split_time(self.last_pts_ns)
    }

    /// The stamp of the last delivered frame in nanoseconds.
    pub fn last_pts_ns(&self) -> (pts: u64)
        ensures
            pts == self@.last_pts_ns,
    {
        self.last_pts_ns
    }

    /// Whether anyone receives the share; the share does not tell.
    pub fn has_clients(&self) -> (b: bool)
        ensures
            !b,
    {
        false
    }

    /// The name of the share's server.
    pub fn name(&self) -> (n: &String)
        ensures
            n@ == self@.name,
    {
        &self.name
    }
}

} // verus!
