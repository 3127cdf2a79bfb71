//! The frame forwarder of an output, whichever SDK it feeds.

use vstd::prelude::*;
use vstd::string::*;
use crate::pipeline::graph::PixelFormat;
use crate::pipeline::ndi_sender::{
    frame_of, stamp_after, FlowError, FramePlan, NdiSender, NdiSenderView, Pulled,
};
use crate::pipeline::syphon_sender::{
    state_for_frame, syphon_frame_of, SyphonSender, SyphonSenderView, SyphonState, TextureUpload,
};

verus! {

/// The frame forwarder of one output.
#[derive(Debug, PartialEq, Eq)]
pub enum Forwarder {
    /// To the network video SDK.
    Ndi(NdiSender),
    /// To the GPU texture share.
    Syphon(SyphonSender),
}

/// A forwarder as its state.
pub enum ForwarderView {
    Ndi(NdiSenderView),
    Syphon(SyphonSenderView),
}

impl View for Forwarder {
    type V = ForwarderView;

    open spec fn view(&self) -> ForwarderView {
        match self {
            Forwarder::Ndi(s) => ForwarderView::Ndi(s@),
            Forwarder::Syphon(s) => ForwarderView::Syphon(s@),
        }
    }
}

impl Clone for Forwarder {
    fn clone(&self) -> (r: Self)
        ensures
            r@ == self@,
    {
        match self {
            Forwarder::Ndi(s) => Forwarder::Ndi(s.clone()),
            Forwarder::Syphon(s) => Forwarder::Syphon(s.clone()),
        }
    }
}

/// The stamp of the last frame a forwarder delivered.
pub open spec fn forwarder_stamp(f: ForwarderView) -> u64 {
    match f {
        ForwarderView::Ndi(s) => s.last_pts_ns,
        ForwarderView::Syphon(s) => s.last_pts_ns,
    }
}

/// A forwarder after it has taken in a pull.
pub open spec fn forwarder_after(f: ForwarderView, pulled: Pulled) -> ForwarderView {
    match f {
        ForwarderView::Ndi(s) => ForwarderView::Ndi(
            NdiSenderView { last_pts_ns: stamp_after(s.last_pts_ns, pulled), ..s },
        ),
        ForwarderView::Syphon(s) => ForwarderView::Syphon(
            SyphonSenderView { last_pts_ns: stamp_after(s.last_pts_ns, pulled), ..s },
        ),
    }
}

/// The frame a forwarder plans for a pull.
pub open spec fn forwarder_frame(f: ForwarderView, pulled: Pulled) -> Result<FramePlan, FlowError> {
    match f {
        ForwarderView::Ndi(_) => frame_of(pulled, PixelFormat::Uyvy),
        ForwarderView::Syphon(_) => syphon_frame_of(pulled),
    }
}

/// The name a forwarder publishes under.
pub open spec fn forwarder_name_of(f: ForwarderView) -> Seq<char> {
    match f {
        ForwarderView::Ndi(s) => s.name,
        ForwarderView::Syphon(s) => s.name,
    }
}

/// Whether a forwarder still needs its texture before it can publish.
pub open spec fn forwarder_needs_texture(f: ForwarderView) -> bool {
    f matches ForwarderView::Syphon(s) && s.state is None
}

/// What a forwarder publishes a planned frame with: a texture share plans
/// the upload of its texture, the network forwarder has no texture.
pub open spec fn forwarder_upload(
    f: ForwarderView,
    frame: FramePlan,
    fresh: Option<SyphonState>,
) -> Result<TextureUpload, FlowError> {
    match f {
        ForwarderView::Ndi(_) => Err(FlowError::Error),
        ForwarderView::Syphon(s) => match state_for_frame(s.state, fresh) {
            Some(state) => Ok(
                TextureUpload {
                    texture_id: state.texture_id,
                    width: frame.width,
                    height: frame.height,
                    set_filters: frame.width != state.last_width || frame.height
                        != state.last_height,
                    flipped: true,
                },
            ),
            None => Err(FlowError::Error),
        },
    }
}

/// A forwarder after it has published a planned frame.
pub open spec fn forwarder_published(
    f: ForwarderView,
    frame: FramePlan,
    fresh: Option<SyphonState>,
) -> ForwarderView {
    match f {
        ForwarderView::Ndi(_) => f,
        ForwarderView::Syphon(s) => match state_for_frame(s.state, fresh) {
            Some(state) => ForwarderView::Syphon(
                SyphonSenderView {
                    state: Some(
                        SyphonState {
                            texture_id: state.texture_id,
                            last_width: frame.width,
                            last_height: frame.height,
                        },
                    ),
                    ..s
                },
            ),
            None => f,
        },
    }
}

impl Forwarder {
    /// The name the forwarder publishes under.
    pub fn name(&self) -> (n: &String)
        ensures
            n@ == forwarder_name_of(self@),
    {
        match self {
            Forwarder::Ndi(s) => s.name(),
            Forwarder::Syphon(s) => s.name(),
        }
    }

    /// Whether the forwarder still needs its texture before it can publish.
    pub fn needs_texture(&self) -> (b: bool)
        ensures
            b == forwarder_needs_texture(self@),
    {
        match self {
            Forwarder::Ndi(_) => false,
            Forwarder::Syphon(s) => s.needs_state(),
        }
    }

    /// Plans the upload of a planned frame into the forwarder's texture.
    /// `fresh` is the texture that was made for this frame where the
    /// forwarder had none.
    pub fn publish(&mut self, frame: &FramePlan, fresh: Option<SyphonState>) -> (upload: Result<
        TextureUpload,
        FlowError,
    >)
        ensures
            upload == forwarder_upload(old(self)@, *frame, fresh),
            final(self)@ == forwarder_published(old(self)@, *frame, fresh),
    {
        match self {
            Forwarder::Ndi(_) => Err(FlowError::Error),
            Forwarder::Syphon(s) => s.publish(frame, fresh),
        }
    }

    /// The stamp of the last delivered frame in nanoseconds.
    pub fn last_pts_ns(&self) -> (pts: u64)
        ensures
            pts == forwarder_stamp(self@),
    {
        match self {
            Forwarder::Ndi(s) => s.last_pts_ns(),
            Forwarder::Syphon(s) => s.last_pts_ns(),
        }
    }

    /// Takes in what was pulled from the forwarder's ingestion sink.
    pub fn handle_new_sample(&mut self, pulled: &Pulled) -> (frame: Result<FramePlan, FlowError>)
        ensures
            frame == forwarder_frame(old(self)@, *pulled),
            final(self)@ == forwarder_after(old(self)@, *pulled),
    {
        match self {
            Forwarder::Ndi(s) => s.handle_new_sample(pulled),
            Forwarder::Syphon(s) => s.handle_new_sample(pulled),
        }
    }
}

} // verus!
