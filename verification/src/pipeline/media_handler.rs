//! Adding media items to the graph and routing their streams.
//!
//! A media item enters the graph as a file source linked to a decoder. What
//! follows the decoder is attached later, one branch per stream, when the
//! decoder reports the kind of a stream: the context captured when the item
//! was added says where the stream goes.

use vstd::prelude::*;
use vstd::string::*;
use crate::error::AppError;
use crate::gain::{brightness_gain, brightness_gain_of};
use crate::output::native_handle::{handle_sinks, sinks_for_handle, Platform, SinkFactory};
use crate::pipeline::graph::{
    extended, has_volume_named, is_volume_named, links_in_range, unique_gain_names, Branch, Graph,
    GraphView, Link, Node, NodeView, PixelFormat,
};
use crate::pipeline::router::{OutputBindingView, OutputWithMonitor};
use crate::text::{concat2, starts_with};
use crate::types::{MediaItem, MediaItemView, MediaType, OutputType};

verus! {

/// The gain of a volume node that leaves the signal as it is.
pub const UNITY_GAIN: i64 = 1_000_000;

/// What is captured when a media item is added, for the time when its
/// streams show up.
#[derive(Debug, PartialEq, Eq)]
pub struct PadContext {
    /// The generation of the graph the item was added to.
    pub generation: u64,
    /// The position of the item's decoder in the graph.
    pub decoder: usize,
    pub item: MediaItem,
    pub owm: OutputWithMonitor,
    /// The brightness level in effect for the output when the item was added.
    pub brightness: u32,
    /// The position of the output's forwarder sink, where it has one.
    pub appsink: Option<usize>,
}

/// A pad context with its texts as characters.
pub struct PadContextView {
    pub generation: u64,
    pub decoder: usize,
    pub item: MediaItemView,
    pub owm: OutputBindingView,
    pub brightness: u32,
    pub appsink: Option<usize>,
}

impl View for PadContext {
    type V = PadContextView;

    open spec fn view(&self) -> PadContextView {
        PadContextView {
            generation: self.generation,
            decoder: self.decoder,
            item: self.item@,
            owm: self.owm@,
            brightness: self.brightness,
            appsink: self.appsink,
        }
    }
}

impl Clone for PadContext {
    fn clone(&self) -> (r: Self)
        ensures
            r@ == self@,
    {
        PadContext {
            generation: self.generation,
            decoder: self.decoder,
            item: self.item.clone(),
            owm: self.owm.clone(),
            brightness: self.brightness,
            appsink: self.appsink,
        }
    }
}

/// The kind of a negotiated stream.
#[derive(Debug, Clone, Copy, PartialEq, Eq, Structural)]
pub enum StreamKind {
    Video,
    Audio,
    Other,
}

/// The kind of a stream by the name of its media type.
pub open spec fn stream_kind_of(caps: Seq<char>) -> StreamKind {
    if "video/"@.is_prefix_of(caps) {
        StreamKind::Video
    } else if "audio/"@.is_prefix_of(caps) {
        StreamKind::Audio
    } else {
        StreamKind::Other
    }
}

/// Tells the kind of a stream from the name of its media type.
pub fn stream_kind(caps: &str) -> (kind: StreamKind)
    ensures
        kind == stream_kind_of(caps@),
{
    if starts_with(caps, "video/") {
        StreamKind::Video
    } else if starts_with(caps, "audio/") {
        StreamKind::Audio
    } else {
        StreamKind::Other
    }
}

/// The pixel format of the frame forwarder of an output: packed YUV for
/// network video, RGBA for the GPU texture share of macOS on macOS; no other
/// output has a forwarder.
pub open spec fn forwarder_format_of(output_type: OutputType, platform: Platform) -> Option<
    PixelFormat,
> {
    match output_type {
        OutputType::Ndi => Some(PixelFormat::Uyvy),
        OutputType::Syphon => if platform == Platform::MacOs {
            Some(PixelFormat::Rgba)
        } else {
            None
        },
        _ => None,
    }
}

/// The pixel format of the frame forwarder of an output, if it has one.
pub fn forwarder_format(output_type: OutputType, platform: Platform) -> (format: Option<
    PixelFormat,
>)
    ensures
        format == forwarder_format_of(output_type, platform),
{
    match output_type {
        OutputType::Ndi => Some(PixelFormat::Uyvy),
        OutputType::Syphon => match platform {
            Platform::MacOs => Some(PixelFormat::Rgba),
            _ => None,
        },
        _ => None,
    }
}

/// The name of the volume gain of an output.
pub open spec fn volume_name_of(output_id: Seq<char>) -> Seq<char> {
    "volume_"@ + output_id
}

/// The name of the volume gain of an output.
pub fn volume_name(output_id: &str) -> (name: String)
    ensures
        name@ == volume_name_of(output_id@),
{
    concat2("volume_", output_id)
}

/// Why a stream was left without a branch.
#[derive(Debug, Clone, Copy, PartialEq, Eq, Structural)]
pub enum DropReason {
    /// The output has no frame forwarder to feed.
    NoForwarder,
    /// The output's kind does not exist on this platform.
    UnsupportedPlatform,
    /// A video stream arrived for an audio output.
    VideoOnAudioOutput,
    /// The graph already has the volume gain of this output.
    DuplicateGainName,
}

/// Where a stream goes.
#[derive(Debug, Clone, Copy, PartialEq, Eq, Structural)]
pub enum Route {
    /// Convert, brightness gain, window sink.
    Display,
    /// Convert, brightness gain, format filter, into the forwarder sink.
    Forwarder(PixelFormat),
    /// Into a sink that swallows it.
    Discard,
    /// Convert, resample, named volume gain, audio sink.
    Audio,
    /// Nowhere: the branch is dropped and the rest of the graph stays.
    Drop(DropReason),
    /// Nowhere: the stream is none of the item's.
    Ignore,
}

/// What became of a stream.
#[derive(Debug, Clone, Copy, PartialEq, Eq, Structural)]
pub enum PadOutcome {
    /// A branch was attached for it.
    Attached(Branch),
    /// Its branch was dropped.
    Dropped(DropReason),
    /// Nothing was done.
    Ignored,
}

/// Where the video stream of a video item goes, by the kind of its output.
pub open spec fn video_route(ctx: PadContextView, platform: Platform) -> Route {
    match ctx.owm.output.output_type {
        OutputType::Display => Route::Display,
        OutputType::Audio => Route::Drop(DropReason::VideoOnAudioOutput),
        other => match forwarder_format_of(other, platform) {
            Some(format) => if ctx.appsink is Some {
                Route::Forwarder(format)
            } else {
                Route::Drop(DropReason::NoForwarder)
            },
            None => if other == OutputType::Ndi {
                Route::Drop(DropReason::NoForwarder)
            } else {
                Route::Drop(DropReason::UnsupportedPlatform)
            },
        },
    }
}

/// Where a stream goes. A context of another generation than the graph's is
/// stale and its stream is ignored, and so is a stream without a negotiated
/// type. The video of a video item goes to its output, the audio of a video
/// item is discarded, the audio of an audio item goes to its output unless
/// the graph already has that output's volume gain; every other stream is
/// ignored.
pub open spec fn pad_route(
    g: GraphView,
    generation: u64,
    ctx: PadContextView,
    platform: Platform,
    caps: Option<Seq<char>>,
) -> Route {
    if ctx.generation != generation {
        Route::Ignore
    } else {
        match caps {
            None => Route::Ignore,
            Some(name) => match (stream_kind_of(name), ctx.item.media_type) {
                (StreamKind::Video, MediaType::Video) => video_route(ctx, platform),
                (StreamKind::Audio, MediaType::Video) => Route::Discard,
                (StreamKind::Audio, MediaType::Audio) => if has_volume_named(
                    g,
                    volume_name_of(ctx.owm.output.id),
                ) {
                    Route::Drop(DropReason::DuplicateGainName)
                } else {
                    Route::Audio
                },
                _ => Route::Ignore,
            },
        }
    }
}

/// The nodes of the branch of a route, in the order in which they are added.
pub open spec fn route_nodes(route: Route, ctx: PadContextView) -> Seq<NodeView> {
    let id = ctx.owm.output.id;
    let gain = brightness_gain_of(ctx.brightness) as i64;
    match route {
        Route::Display => seq![
            NodeView::VideoConvert,
            NodeView::VideoBalance { output_id: id, gain },
            NodeView::VideoSink { output_id: id, handle: ctx.owm.native_handle },
        ],
        Route::Forwarder(format) => seq![
            NodeView::VideoConvert,
            NodeView::VideoBalance { output_id: id, gain },
            NodeView::FormatFilter { format },
        ],
        Route::Discard => seq![NodeView::DiscardSink],
        Route::Audio => seq![
            NodeView::AudioConvert,
            NodeView::AudioResample,
            NodeView::Volume { name: volume_name_of(id), gain: UNITY_GAIN },
            NodeView::AudioSink { output_id: id },
        ],
        _ => Seq::empty(),
    }
}

/// The link from node `from` to node `to`.
pub open spec fn link(from: int, to: int) -> Link {
    Link { from: from as usize, to: to as usize }
}

/// The links of the branch of a route whose first node is at `base`: the
/// nodes of the branch in a chain, for a forwarder the last of them into the
/// forwarder sink, and last the decoder into the first of them.
pub open spec fn route_links(route: Route, ctx: PadContextView, base: int) -> Seq<Link> {
    let decoder = ctx.decoder as int;
    match route {
        Route::Display => seq![link(base, base + 1), link(base + 1, base + 2), link(decoder, base)],
        Route::Forwarder(_) => seq![
            link(base, base + 1),
            link(base + 1, base + 2),
            link(base + 2, ctx.appsink->0 as int),
            link(decoder, base),
        ],
        Route::Discard => seq![link(decoder, base)],
        Route::Audio => seq![
            link(base, base + 1),
            link(base + 1, base + 2),
            link(base + 2, base + 3),
            link(decoder, base),
        ],
        _ => Seq::empty(),
    }
}

/// The graph after the branch of a route has been attached.
pub open spec fn routed(g: GraphView, route: Route, ctx: PadContextView) -> GraphView {
    extended(g, route_nodes(route, ctx), route_links(route, ctx, g.nodes.len() as int))
}

/// What is reported for a route taken on a graph.
pub open spec fn route_outcome(g: GraphView, route: Route, ctx: PadContextView) -> PadOutcome {
    match route {
        Route::Drop(reason) => PadOutcome::Dropped(reason),
        Route::Ignore => PadOutcome::Ignored,
        _ => PadOutcome::Attached(
            Branch {
                first_node: g.nodes.len() as usize,
                node_count: route_nodes(route, ctx).len() as usize,
                first_link: g.links.len() as usize,
                link_count: route_links(route, ctx, g.nodes.len() as int).len() as usize,
            },
        ),
    }
}

/// Whether the positions a context names are nodes of the graph.
pub open spec fn context_in_range(g: GraphView, ctx: PadContextView) -> bool {
    ctx.decoder < g.nodes.len() && (ctx.appsink matches Some(k) ==> k < g.nodes.len())
}

/// Attaching a branch to a graph whose links join its own nodes, for a
/// context that names nodes of the graph (and a forwarder sink where the
/// route leads into one), gives such a graph again, as long as the nodes can
/// still be counted; and a route that attaches no volume gain keeps the names
/// of volume gains unique, as does the audio route where the name is new.
pub proof fn lemma_routed_well_formed(g: GraphView, route: Route, ctx: PadContextView)
    requires
        links_in_range(g),
        context_in_range(g, ctx),
        route is Forwarder ==> ctx.appsink is Some,
        routed(g, route, ctx).nodes.len() <= usize::MAX,
    ensures
        links_in_range(routed(g, route, ctx)),
        unique_gain_names(g) && (route == Route::Audio ==> !has_volume_named(
            g,
            volume_name_of(ctx.owm.output.id),
        )) ==> unique_gain_names(routed(g, route, ctx)),
{
    let r = routed(g, route, ctx);
    let base = g.nodes.len() as int;
    assert forall|i: int| 0 <= i < r.links.len() implies #[trigger] r.links[i].from
        < r.nodes.len() && r.links[i].to < r.nodes.len() by {
        if i < g.links.len() {
            assert(r.links[i] == g.links[i]);
            assert(g.links[i].from < g.nodes.len() && g.links[i].to < g.nodes.len());
        } else {
            let k = i - g.links.len();
            let added = route_links(route, ctx, base);
            assert(r.links[i] == added[k]);
            assert(r.nodes.len() == base + route_nodes(route, ctx).len());
            match route {
                Route::Display => {
                    assert(added[k] == link(base, base + 1) || added[k] == link(base + 1, base + 2)
                        || added[k] == link(ctx.decoder as int, base));
                },
                Route::Forwarder(_) => {
                    assert(added[k] == link(base, base + 1) || added[k] == link(base + 1, base + 2)
                        || added[k] == link(base + 2, ctx.appsink->0 as int) || added[k] == link(
                        ctx.decoder as int,
                        base,
                    ));
                },
                Route::Discard => {
                    assert(added[k] == link(ctx.decoder as int, base));
                },
                Route::Audio => {
                    assert(added[k] == link(base, base + 1) || added[k] == link(base + 1, base + 2)
                        || added[k] == link(base + 2, base + 3) || added[k] == link(
                        ctx.decoder as int,
                        base,
                    ));
                },
                _ => {},
            }
        }
    }
    if unique_gain_names(g) && (route == Route::Audio ==> !has_volume_named(
        g,
        volume_name_of(ctx.owm.output.id),
    )) {
        assert forall|i: int, j: int| 0 <= i < j < r.nodes.len() implies !(
        #[trigger] r.nodes[i] matches NodeView::Volume { name: a, .. }
            && #[trigger] r.nodes[j] matches NodeView::Volume { name: b, .. } && a == b) by {
            if j < base {
                assert(r.nodes[i] == g.nodes[i]);
                assert(r.nodes[j] == g.nodes[j]);
            } else {
                assert(r.nodes[j] == route_nodes(route, ctx)[j - base]);
                if i < base {
                    assert(r.nodes[i] == g.nodes[i]);
                    if r.nodes[j] is Volume {
                        assert(route == Route::Audio);
                        assert(!is_volume_named(
                            g.nodes[i],
                            volume_name_of(ctx.owm.output.id),
                        ));
                    }
                } else {
                    assert(r.nodes[i] == route_nodes(route, ctx)[i - base]);
                }
            }
        }
    }
}

/// Adds a media item to the graph: a file source for its path and a decoder,
/// linked, and the context for the streams the decoder will report.
pub fn add_media_item(
    graph: &mut Graph,
    generation: u64,
    item: &MediaItem,
    owm: &OutputWithMonitor,
    effective_brightness: u32,
    appsink: Option<usize>,
) -> (ctx: PadContext)
    ensures
        final(graph)@ == extended(
            old(graph)@,
            seq![NodeView::FileSource { location: item@.path }, NodeView::Decoder],
            seq![link(old(graph)@.nodes.len() as int, old(graph)@.nodes.len() as int + 1)],
        ),
        ctx@ == (PadContextView {
            generation,
            decoder: (old(graph)@.nodes.len() + 1) as usize,
            item: item@,
            owm: owm@,
            brightness: effective_brightness,
            appsink,
        }),
{
    let src = graph.add_node(Node::FileSource { location: item.path.clone() });
    let decode = graph.add_node(Node::Decoder);
    graph.add_link(src, decode);
    proof {
        let g0 = old(graph)@;
        assert(graph@.nodes =~= g0.nodes + seq![
            NodeView::FileSource { location: item@.path },
            NodeView::Decoder,
        ]);
        let n = g0.nodes.len() as int;
        assert(graph@.links =~= g0.links + seq![link(n, n + 1)]);
    }
    PadContext {
        generation,
        decoder: decode,
        item: item.clone(),
        owm: owm.clone(),
        brightness: effective_brightness,
        appsink,
    }
}

/// Handles a stream that a decoder reports: decides where it goes and
/// attaches its branch. `generation` is the generation of the graph as it is
/// now, `caps` the name of the stream's negotiated media type.
pub fn handle_pad_added(
    graph: &mut Graph,
    generation: u64,
    ctx: &PadContext,
    platform: Platform,
    caps: Option<&str>,
) -> (outcome: PadOutcome)
    ensures
        final(graph)@ == routed(
            old(graph)@,
            pad_route(
                old(graph)@,
                generation,
                ctx@,
                platform,
                match caps {
                    Some(c) => Some(c@),
                    None => None,
                },
            ),
            ctx@,
        ),
        outcome == route_outcome(
            old(graph)@,
            pad_route(
                old(graph)@,
                generation,
                ctx@,
                platform,
                match caps {
                    Some(c) => Some(c@),
                    None => None,
                },
            ),
            ctx@,
        ),
{
    proof {
        lemma_nothing_attached(graph@, ctx@);
    }
    if ctx.generation != generation {
        return PadOutcome::Ignored;
    }
    let name = match caps {
        Some(c) => c,
        None => {
            return PadOutcome::Ignored;
        },
    };
    match (stream_kind(name), ctx.item.media_type) {
        (StreamKind::Video, MediaType::Video) => handle_video_pad(graph, ctx, platform),
        (StreamKind::Audio, MediaType::Video) => PadOutcome::Attached(
            handle_audio_pad_from_video(graph, ctx),
        ),
        (StreamKind::Audio, MediaType::Audio) => handle_audio_pad(graph, ctx),
        _ => PadOutcome::Ignored,
    }
}

/// A route that goes nowhere leaves the graph as it is.
pub proof fn lemma_nothing_attached(g: GraphView, ctx: PadContextView)
    ensures
        routed(g, Route::Ignore, ctx) == g,
        forall|reason: DropReason| routed(g, Route::Drop(reason), ctx) == g,
{
    assert(routed(g, Route::Ignore, ctx).nodes =~= g.nodes);
    assert(routed(g, Route::Ignore, ctx).links =~= g.links);
    assert forall|reason: DropReason| routed(g, Route::Drop(reason), ctx) == g by {
        assert(routed(g, Route::Drop(reason), ctx).nodes =~= g.nodes);
        assert(routed(g, Route::Drop(reason), ctx).links =~= g.links);
    }
}

/// Routes the video stream of a video item by the kind of its output.
pub fn handle_video_pad(graph: &mut Graph, ctx: &PadContext, platform: Platform) -> (outcome:
    PadOutcome)
    ensures
        final(graph)@ == routed(old(graph)@, video_route(ctx@, platform), ctx@),
        outcome == route_outcome(old(graph)@, video_route(ctx@, platform), ctx@),
{
    proof {
        lemma_nothing_attached(graph@, ctx@);
    }
    match ctx.owm.output.output_type {
        OutputType::Ndi => handle_ndi_video(graph, ctx),
        OutputType::Syphon => match platform {
            Platform::MacOs => handle_syphon_video(graph, ctx),
            _ => PadOutcome::Dropped(DropReason::UnsupportedPlatform),
        },
        OutputType::Spout => PadOutcome::Dropped(DropReason::UnsupportedPlatform),
        OutputType::Display => PadOutcome::Attached(handle_display_video(graph, ctx)),
        OutputType::Audio => PadOutcome::Dropped(DropReason::VideoOnAudioOutput),
    }
}

/// Attaches convert, brightness gain and a filter for `format`, the filter
/// feeding the forwarder sink at `appsink`.
fn attach_forwarder_branch(
    graph: &mut Graph,
    ctx: &PadContext,
    format: PixelFormat,
    appsink: usize,
) -> (branch: Branch)
    requires
        ctx.appsink == Some(appsink),
    ensures
        final(graph)@ == routed(old(graph)@, Route::Forwarder(format), ctx@),
        PadOutcome::Attached(branch) == route_outcome(
            old(graph)@,
            Route::Forwarder(format),
            ctx@,
        ),
{
    let first_link: usize = graph.link_count();
    let convert = graph.add_node(Node::VideoConvert);
    let balance = graph.add_node(
        Node::VideoBalance {
            output_id: ctx.owm.output.id.clone(),
            gain: brightness_gain(ctx.brightness),
        },
    );
    let filter = graph.add_node(Node::FormatFilter { format });
    graph.add_link(convert, balance);
    graph.add_link(balance, filter);
    graph.add_link(filter, appsink);
    graph.add_link(ctx.decoder, convert);
    proof {
        let g0 = old(graph)@;
        let want = routed(g0, Route::Forwarder(format), ctx@);
        assert(graph@.nodes =~= want.nodes);
        assert(graph@.links =~= want.links);
    }
    Branch { first_node: convert, node_count: 3, first_link, link_count: 4 }
}

/// Routes video to a network video output: convert, brightness gain and a
/// packed-YUV filter in front of the output's forwarder sink. Without a
/// forwarder sink the branch is dropped.
pub fn handle_ndi_video(graph: &mut Graph, ctx: &PadContext) -> (outcome: PadOutcome)
    ensures
        ctx.appsink is Some ==> final(graph)@ == routed(
            old(graph)@,
            Route::Forwarder(PixelFormat::Uyvy),
            ctx@,
        ) && outcome == route_outcome(old(graph)@, Route::Forwarder(PixelFormat::Uyvy), ctx@),
        ctx.appsink is None ==> final(graph)@ == old(graph)@ && outcome == PadOutcome::Dropped(
            DropReason::NoForwarder,
        ),
{
    match ctx.appsink {
        Some(appsink) => PadOutcome::Attached(
            attach_forwarder_branch(graph, ctx, PixelFormat::Uyvy, appsink),
        ),
        None => PadOutcome::Dropped(DropReason::NoForwarder),
    }
}

/// Routes video to a GPU texture share: convert, brightness gain and an RGBA
/// filter in front of the output's forwarder sink. Without a forwarder sink
/// the branch is dropped.
pub fn handle_syphon_video(graph: &mut Graph, ctx: &PadContext) -> (outcome: PadOutcome)
    ensures
        ctx.appsink is Some ==> final(graph)@ == routed(
            old(graph)@,
            Route::Forwarder(PixelFormat::Rgba),
            ctx@,
        ) && outcome == route_outcome(old(graph)@, Route::Forwarder(PixelFormat::Rgba), ctx@),
        ctx.appsink is None ==> final(graph)@ == old(graph)@ && outcome == PadOutcome::Dropped(
            DropReason::NoForwarder,
        ),
{
    match ctx.appsink {
        Some(appsink) => PadOutcome::Attached(
            attach_forwarder_branch(graph, ctx, PixelFormat::Rgba, appsink),
        ),
        None => PadOutcome::Dropped(DropReason::NoForwarder),
    }
}

/// Routes video to a display output: convert, brightness gain and the
/// output's window sink.
pub fn handle_display_video(graph: &mut Graph, ctx: &PadContext) -> (branch: Branch)
    ensures
        final(graph)@ == routed(old(graph)@, Route::Display, ctx@),
        PadOutcome::Attached(branch) == route_outcome(old(graph)@, Route::Display, ctx@),
{
    let first_link: usize = graph.link_count();
    let convert = graph.add_node(Node::VideoConvert);
    let balance = graph.add_node(
        Node::VideoBalance {
            output_id: ctx.owm.output.id.clone(),
            gain: brightness_gain(ctx.brightness),
        },
    );
    let sink = graph.add_node(
        Node::VideoSink {
            output_id: ctx.owm.output.id.clone(),
            handle: ctx.owm.native_handle,
        },
    );
    graph.add_link(convert, balance);
    graph.add_link(balance, sink);
    graph.add_link(ctx.decoder, convert);
    proof {
        let want = routed(old(graph)@, Route::Display, ctx@);
        assert(graph@.nodes =~= want.nodes);
        assert(graph@.links =~= want.links);
    }
    Branch { first_node: convert, node_count: 3, first_link, link_count: 3 }
}

/// Discards the audio stream of a video item into a sink that swallows it,
/// so that the stream does not stall the graph.
pub fn handle_audio_pad_from_video(graph: &mut Graph, ctx: &PadContext) -> (branch: Branch)
    ensures
        final(graph)@ == routed(old(graph)@, Route::Discard, ctx@),
        PadOutcome::Attached(branch) == route_outcome(old(graph)@, Route::Discard, ctx@),
{
    let first_link: usize = graph.link_count();
    let sink = graph.add_node(Node::DiscardSink);
    graph.add_link(ctx.decoder, sink);
    proof {
        let want = routed(old(graph)@, Route::Discard, ctx@);
        assert(graph@.nodes =~= want.nodes);
        assert(graph@.links =~= want.links);
    }
    Branch { first_node: sink, node_count: 1, first_link, link_count: 1 }
}

/// Routes the audio stream of an audio item: convert, resample, the
/// output's named volume gain at unity, and the output's audio sink. Where
/// the graph already has a volume gain of that name the branch is dropped.
pub fn handle_audio_pad(graph: &mut Graph, ctx: &PadContext) -> (outcome: PadOutcome)
    ensures
        has_volume_named(old(graph)@, volume_name_of(ctx@.owm.output.id)) ==> final(graph)@ == old(
            graph,
        )@ && outcome == PadOutcome::Dropped(DropReason::DuplicateGainName),
        !has_volume_named(old(graph)@, volume_name_of(ctx@.owm.output.id)) ==> final(graph)@
            == routed(old(graph)@, Route::Audio, ctx@) && outcome == route_outcome(
            old(graph)@,
            Route::Audio,
            ctx@,
        ),
{
    let name = volume_name(ctx.owm.output.id.as_str());
    if graph.has_volume(name.as_str()) {
        return PadOutcome::Dropped(DropReason::DuplicateGainName);
    }
    let first_link: usize = graph.link_count();
    let convert = graph.add_node(Node::AudioConvert);
    let resample = graph.add_node(Node::AudioResample);
    let volume = graph.add_node(Node::Volume { name, gain: UNITY_GAIN });
    let sink = graph.add_node(Node::AudioSink { output_id: ctx.owm.output.id.clone() });
    graph.add_link(convert, resample);
    graph.add_link(resample, volume);
    graph.add_link(volume, sink);
    graph.add_link(ctx.decoder, convert);
    proof {
        let want = routed(old(graph)@, Route::Audio, ctx@);
        assert(graph@.nodes =~= want.nodes);
        assert(graph@.links =~= want.links);
    }
    PadOutcome::Attached(Branch { first_node: convert, node_count: 4, first_link, link_count: 4 })
}

/// The sinks to try for the video of an output, best first. A display
/// output gets the platform's sinks for its window, where it has one, and
/// last the sink that picks a window of its own; a network video output gets
/// the network sink. Audio outputs and GPU texture shares take no video
/// sink.
pub open spec fn video_sinks_of(owm: OutputBindingView, platform: Platform) -> Option<
    Seq<SinkFactory>,
> {
    match owm.output.output_type {
        OutputType::Display => Some(
            match owm.native_handle {
                Some(handle) => handle_sinks(handle, platform).push(SinkFactory::AutoVideoSink),
                None => seq![SinkFactory::AutoVideoSink],
            },
        ),
        OutputType::Ndi => Some(seq![SinkFactory::NdiSink]),
        _ => None,
    }
}

/// What is said where an output takes no video sink.
pub open spec fn no_video_sink_text(output_type: OutputType) -> Seq<char> {
    match output_type {
        OutputType::Audio => "Audio output cannot be used as video sink"@,
        OutputType::Syphon => "Syphon output uses appsink, not video sink"@,
        _ => "Spout output uses appsink, not video sink"@,
    }
}

/// The name a network video output publishes under.
pub open spec fn ndi_name_of(owm: OutputBindingView) -> Seq<char> {
    match owm.output.ndi_name {
        Some(name) => name,
        None => "TauriLivePlayer"@,
    }
}

/// The name a network video output publishes under: its own, or the
/// player's where it has none.
pub fn ndi_name(owm: &OutputWithMonitor) -> (name: String)
    ensures
        name@ == ndi_name_of(owm@),
{
    match &owm.output.ndi_name {
        Some(name) => name.clone(),
        None => String::from_str("TauriLivePlayer"),
    }
}

/// Lists the sinks to try for the video of an output, best first. Only the
/// platform's sinks for a window are bound to the window's handle.
pub fn create_video_sink(owm: &OutputWithMonitor, platform: Platform) -> (sinks: Result<
    Vec<SinkFactory>,
    AppError,
>)
    ensures
        match sinks {
            Ok(list) => video_sinks_of(owm@, platform) == Some(list@),
            Err(e) => video_sinks_of(owm@, platform) is None && e@.kind
                == crate::error::ErrorKind::GStreamer && e@.detail == no_video_sink_text(
                owm@.output.output_type,
            ),
        },
{
    match owm.output.output_type {
        OutputType::Display => {
            let mut sinks: Vec<SinkFactory> = match &owm.native_handle {
                Some(handle) => sinks_for_handle(handle, platform),
                None => Vec::new(),
            };
            sinks.push(crate::output::native_handle::create_fallback_sink());
            assert(video_sinks_of(owm@, platform) == Some(sinks@)) by {
                assert(video_sinks_of(owm@, platform)->0 =~= sinks@);
            }
            Ok(sinks)
        },
        OutputType::Ndi => {
            let mut sinks: Vec<SinkFactory> = Vec::new();
            sinks.push(SinkFactory::NdiSink);
            assert(video_sinks_of(owm@, platform)->0 =~= sinks@);
            Ok(sinks)
        },
        OutputType::Audio => Err(
            AppError::GStreamer(String::from_str("Audio output cannot be used as video sink")),
        ),
        OutputType::Syphon => Err(
            AppError::GStreamer(String::from_str("Syphon output uses appsink, not video sink")),
        ),
        OutputType::Spout => Err(
            AppError::GStreamer(String::from_str("Spout output uses appsink, not video sink")),
        ),
    }
}

} // verus!
