//! The frame forwarder for network video.
//!
//! The graph delivers frames to the forwarder's ingestion sink; the
//! forwarder stamps each frame's presentation time, describes the frame for
//! the network SDK and hands it on. The stamp of the last delivered frame is
//! the position of record while the forwarder is active.

use vstd::prelude::*;
use vstd::string::*;
use crate::error::AppError;
use crate::pipeline::graph::PixelFormat;
use crate::text::concat3;

verus! {

/// Nanoseconds in one second.
pub const NANOS_PER_SECOND: u64 = 1_000_000_000;

/// Why a frame could not be forwarded.
#[derive(Debug, Clone, Copy, PartialEq, Eq, Structural)]
pub enum FlowError {
    /// The frame is unusable.
    Error,
    /// The stream has ended.
    Eos,
}

/// The video format read from the capabilities of a sample.
#[derive(Debug, Clone, Copy, PartialEq, Eq, Structural)]
pub struct VideoFormat {
    pub width: u32,
    pub height: u32,
    pub fps_numer: i32,
    pub fps_denom: i32,
}

/// What is read from the buffer of a sample.
#[derive(Debug, Clone, Copy, PartialEq, Eq, Structural)]
pub struct SampleInfo {
    /// The presentation time of the buffer in nanoseconds.
    pub pts: Option<u64>,
    /// The video format of the sample; `None` where the sample has no
    /// capabilities or they describe no video.
    pub video: Option<VideoFormat>,
    /// The number of bytes of the buffer; `None` where it cannot be read.
    pub mapped_len: Option<usize>,
}

/// What pulling a sample from the ingestion sink gave.
#[derive(Debug, Clone, Copy, PartialEq, Eq, Structural)]
pub enum Pulled {
    /// No sample.
    NoSample,
    /// A sample without a buffer.
    NoBuffer,
    /// A sample with a buffer.
    Buffer(SampleInfo),
}

/// The frame to build for the network SDK.
#[derive(Debug, Clone, Copy, PartialEq, Eq, Structural)]
pub struct FramePlan {
    pub width: i32,
    pub height: i32,
    pub frame_rate_n: i32,
    pub frame_rate_d: i32,
    pub format: PixelFormat,
    /// The number of bytes the delivered buffer holds.
    pub data_len: usize,
}

/// How the ingestion sink of a forwarder is set up.
#[derive(Debug, Clone, Copy, PartialEq, Eq, Structural)]
pub struct AppSinkConfig {
    /// Frames are delivered in step with the graph's clock.
    pub sync: bool,
    /// How many frames the sink holds.
    pub max_buffers: u32,
    /// Whether the sink drops the older frame instead of queueing.
    pub drop: bool,
    pub format: PixelFormat,
}

/// The ingestion sink of a forwarder for a pixel format: frames are
/// delivered in step with the clock, the sink holds one frame and drops the
/// older one, so that a slow receiver never blocks the graph.
pub fn appsink_config(format: PixelFormat) -> (config: AppSinkConfig)
    ensures
        config == (AppSinkConfig { sync: true, max_buffers: 1, drop: true, format }),
{
    AppSinkConfig { sync: true, max_buffers: 1, drop: true, format }
}

/// How the sender of the network SDK is set up.
#[derive(Debug, PartialEq, Eq)]
pub struct SenderOptions {
    pub name: String,
    pub clock_video: bool,
    pub clock_audio: bool,
}

/// A time split into whole seconds and the nanoseconds beyond them.
#[derive(Debug, Clone, Copy, PartialEq, Eq, Structural)]
pub struct StreamTime {
    pub seconds: u64,
    pub nanos: u32,
}

/// The stamp a forwarder holds after a pull: the presentation time of the
/// pulled buffer where it has one, else the stamp it held before.
pub open spec fn stamp_after(before: u64, pulled: Pulled) -> u64 {
    match pulled {
        Pulled::Buffer(info) => match info.pts {
            Some(pts) => pts,
            None => before,
        },
        _ => before,
    }
}

/// The frame planned for a pull, or the error where the pull gave no
/// buffer, no video format or no readable data.
pub open spec fn frame_of(pulled: Pulled, format: PixelFormat) -> Result<FramePlan, FlowError> {
    match pulled {
        Pulled::Buffer(info) => match (info.video, info.mapped_len) {
            (Some(video), Some(len)) => Ok(
                FramePlan {
                    width: video.width as i32,
                    height: video.height as i32,
                    frame_rate_n: video.fps_numer,
                    frame_rate_d: video.fps_denom,
                    format,
                    data_len: len,
                },
            ),
            _ => Err(FlowError::Error),
        },
        _ => Err(FlowError::Error),
    }
}

/// The stamp held after a run of pulls.
pub open spec fn stamp_after_all(start: u64, pulls: Seq<Pulled>) -> u64
    decreases pulls.len(),
{
    if pulls.len() == 0 {
        start
    } else {
        stamp_after(stamp_after_all(start, pulls.drop_last()), pulls.last())
    }
}

/// Whether no buffer of a run of pulls is stamped earlier than the stamp
/// held when it arrives.
pub open spec fn in_presentation_order(start: u64, pulls: Seq<Pulled>) -> bool {
    forall|i: int|
        0 <= i < pulls.len() ==> stamp_after_all(start, #[trigger] pulls.take(i)) <= stamp_after(
            stamp_after_all(start, pulls.take(i)),
            pulls[i],
        )
}

/// The position reported by a forwarder never goes back while the frames
/// it is fed arrive in presentation order: the stamp held after any number
/// of pulls is no later than the stamp held after more of them.
pub proof fn position_never_goes_back(start: u64, pulls: Seq<Pulled>, i: int, j: int)
    requires
        in_presentation_order(start, pulls),
        0 <= i <= j <= pulls.len(),
    ensures
        stamp_after_all(start, pulls.take(i)) <= stamp_after_all(start, pulls.take(j)),
    decreases j - i,
{
    if i < j {
        position_never_goes_back(start, pulls, i, j - 1);
        let shorter = pulls.take(j - 1);
        let longer = pulls.take(j);
        assert(longer.drop_last() =~= shorter);
        assert(longer.last() == pulls[j - 1]);
        assert(stamp_after_all(start, shorter) <= stamp_after(
            stamp_after_all(start, shorter),
            pulls[j - 1],
        ));
    }
}

/// A forwarder to the network video SDK under one publish name.
#[derive(Debug, PartialEq, Eq)]
pub struct NdiSender {
    name: String,
    last_pts_ns: u64,
    has_appsink: bool,
}

/// A forwarder as its name and state.
pub struct NdiSenderView {
    pub name: Seq<char>,
    /// The stamp of the last delivered frame; zero before any frame.
    pub last_pts_ns: u64,
    /// Whether its ingestion sink has been made.
    pub has_appsink: bool,
}

impl View for NdiSender {
    type V = NdiSenderView;

    closed spec fn view(&self) -> NdiSenderView {
        NdiSenderView {
            name: self.name@,
            last_pts_ns: self.last_pts_ns,
            has_appsink: self.has_appsink,
        }
    }
}

impl Clone for NdiSender {
    fn clone(&self) -> (r: Self)
        ensures
            r@ == self@,
    {
        NdiSender {
            name: self.name.clone(),
            last_pts_ns: self.last_pts_ns,
            has_appsink: self.has_appsink,
        }
    }
}

/// The error for a step of the network SDK that failed.
pub fn ndi_error(step: &str, detail: &str) -> (e: AppError)
    ensures
        e@.kind == crate::error::ErrorKind::Ndi,
        e@.detail == step@ + ": "@ + detail@,
{
    AppError::Ndi(concat3(step, ": ", detail))
}

impl NdiSender {
    /// A forwarder that has delivered no frame yet.
    pub fn new(name: &str) -> (s: Self)
        ensures
            s@ == (NdiSenderView { name: name@, last_pts_ns: 0, has_appsink: false }),
    {
        NdiSender { name: String::from_str(name), last_pts_ns: 0, has_appsink: false }
    }

    /// The options of the SDK's sender: it publishes under the forwarder's
    /// name and paces video, not audio.
    pub fn sender_options(&self) -> (options: SenderOptions)
        ensures
            options.name@ == self@.name,
            options.clock_video,
            !options.clock_audio,
    {
        SenderOptions { name: self.name.clone(), clock_video: true, clock_audio: false }
    }

    /// Makes the forwarder's ingestion sink: in step with the clock, holding
    /// one frame of packed YUV and dropping the older one.
    pub fn create_appsink(&mut self) -> (config: AppSinkConfig)
        ensures
            config == (AppSinkConfig {
                sync: true,
                max_buffers: 1,
                drop: true,
                format: PixelFormat::Uyvy,
            }),
            final(self)@ == (NdiSenderView { has_appsink: true, ..old(self)@ }),
    {
        self.has_appsink = true;
        appsink_config(PixelFormat::Uyvy)
    }

    /// Takes in what was pulled from the ingestion sink: stamps the
    /// presentation time of the buffer and plans the frame to send.
    pub fn handle_new_sample(&mut self, pulled: &Pulled) -> (frame: Result<FramePlan, FlowError>)
        ensures
            frame == frame_of(*pulled, PixelFormat::Uyvy),
            final(self)@ == (NdiSenderView {
                last_pts_ns: stamp_after(old(self)@.last_pts_ns, *pulled),
                ..old(self)@
            }),
    {
        let info = match pulled {
            Pulled::Buffer(info) => *info,
            _ => {
                return Err(FlowError::Error);
            },
        };
        match info.pts {
            Some(pts) => {
                self.last_pts_ns = pts;
            },
            None => {},
        }
        let video = match info.video {
            Some(video) => video,
            None => {
                return Err(FlowError::Error);
            },
        };
        let data_len = match info.mapped_len {
            Some(len) => len,
            None => {
                return Err(FlowError::Error);
            },
        };
        Ok(
            FramePlan {
                width: #[verifier::truncate]
                (video.width as i32),
                height: #[verifier::truncate]
                (video.height as i32),
                frame_rate_n: video.fps_numer,
                frame_rate_d: video.fps_denom,
                format: PixelFormat::Uyvy,
                data_len,
            },
        )
    }

    /// The stamp of the last delivered frame, split into seconds and
    /// nanoseconds; zero before any frame.
    pub fn last_position(&self) -> (t: StreamTime)
        ensures
            t.seconds * 1_000_000_000 + t.nanos == self@.last_pts_ns,
            t.nanos < 1_000_000_000,
    {
        split_time(self.last_pts_ns)
    }

    /// The stamp of the last delivered frame in nanoseconds.
    pub fn last_pts_ns(&self) -> (pts: u64)
        ensures
            pts == self@.last_pts_ns,
    {
        self.last_pts_ns
    }

    /// Sets the stamp back to zero.
    pub fn reset_pts(&mut self)
        ensures
            final(self)@ == (NdiSenderView { last_pts_ns: 0, ..old(self)@ }),
    {
        self.last_pts_ns = 0;
    }

    /// The name the forwarder publishes under.
    pub fn name(&self) -> (n: &String)
        ensures
            n@ == self@.name,
    {
        &self.name
    }
}

/// Splits nanoseconds into whole seconds and the rest.
pub fn split_time(ns: u64) -> (t: StreamTime)
    ensures
        t.seconds * 1_000_000_000 + t.nanos == ns,
        t.nanos < 1_000_000_000,
{
    let rest: u64 = ns % NANOS_PER_SECOND;
    StreamTime { seconds: ns / NANOS_PER_SECOND, nanos: rest as u32 }
}

/// Copies the delivered bytes into the frame: as many as both hold.
pub fn copy_frame_data(frame: &mut Vec<u8>, data: &[u8]) -> (copied: usize)
    ensures
        copied == if data@.len() <= old(frame)@.len() {
            data@.len()
        } else {
            old(frame)@.len()
        },
        final(frame)@ == data@.take(copied as int) + old(frame)@.skip(copied as int),
{
    let n: usize = if data.len() <= frame.len() {
        data.len()
    } else {
        frame.len()
    };
    let mut i: usize = 0;
    while i < n
        invariant
            i <= n,
            n <= data@.len(),
            n <= frame@.len(),
            frame@.len() == old(frame)@.len(),
            frame@ == data@.take(i as int) + old(frame)@.skip(i as int),
        decreases n - i,
    {
        frame.set(i, data[i]);
        i = i + 1;
        assert(frame@ =~= data@.take(i as int) + old(frame)@.skip(i as int));
    }
    n
}

} // verus!
