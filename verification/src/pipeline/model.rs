//! The engine as a value, and what each of its operations makes of it.

use vstd::prelude::*;
use vstd::string::*;
use crate::error::{AppErrorView, ErrorKind};
use crate::gain::{brightness_gain_of, volume_gain_of};
use crate::id_map::{lookup, map_values, put};
use crate::output::native_handle::{NativeHandle, Platform};
use crate::pipeline::cue_player::{
    BusMessageView, GainKind, GainUpdate, PadTicket, PipelineState, TimeoutPolicy,
};
use crate::pipeline::forwarder::{
    forwarder_after, forwarder_frame, forwarder_published, forwarder_stamp, forwarder_upload,
    Forwarder, ForwarderView,
};
use crate::pipeline::graph::{
    empty_graph, extended, with_gain, Branch, GraphView, NodeView, PixelFormat,
};
use crate::pipeline::media_handler::{
    forwarder_format_of, link, ndi_name_of, pad_route, route_outcome, routed, PadContext,
    PadContextView, PadOutcome,
};
use crate::pipeline::ndi_sender::{FlowError, FramePlan, NdiSenderView, Pulled};
use crate::pipeline::router::{binding_index, bindings_of, recorded_overrides, OutputBindingView};
use crate::pipeline::syphon_sender::{SyphonSenderView, SyphonState, TextureUpload};
use crate::types::{CueView, MediaItemView, MonitorInfo, OutputTargetView};

verus! {

/// The engine as the values that its behaviour depends on.
pub struct PlayerView {
    pub platform: Platform,
    pub timeout_policy: TimeoutPolicy,
    pub state: PipelineState,
    /// Counts the loads; tells a live graph from one that was torn down.
    pub generation: u64,
    /// The target latency of the graph in milliseconds; zero is the default.
    pub latency_ms: u64,
    pub graph: GraphView,
    /// The context of each media item of the loaded cue.
    pub pads: Seq<PadContextView>,
    /// The frame forwarders by output id.
    pub forwarders: Seq<(Seq<char>, ForwarderView)>,
    /// The position of each forwarder's sink in the graph, by output id.
    pub appsinks: Seq<(Seq<char>, usize)>,
    pub master_brightness: u32,
    pub master_volume: u32,
    /// The brightness override of each output seen so far.
    pub overrides: Seq<(Seq<char>, Option<u32>)>,
    /// The branch that the last attachment added, while it can be taken back.
    pub last_branch: Option<Branch>,
}

/// The engine before anything was loaded.
pub open spec fn initial_player(platform: Platform) -> PlayerView {
    PlayerView {
        platform,
        timeout_policy: TimeoutPolicy::Proceed,
        state: PipelineState::Null,
        generation: 0,
        latency_ms: 0,
        graph: empty_graph(),
        pads: Seq::empty(),
        forwarders: Seq::empty(),
        appsinks: Seq::empty(),
        master_brightness: 100_000,
        master_volume: 100_000,
        overrides: Seq::empty(),
        last_branch: None,
    }
}

/// The generation after a load.
pub open spec fn next_generation(generation: u64) -> u64 {
    if generation == u64::MAX {
        0
    } else {
        (generation + 1) as u64
    }
}

/// The engine with its graph torn down: no node, no forwarder, no pending
/// stream, default latency, and a new generation, so that what still refers
/// to the old graph is stale.
pub open spec fn torn_down(m: PlayerView) -> PlayerView {
    PlayerView {
        state: PipelineState::Null,
        generation: next_generation(m.generation),
        latency_ms: 0,
        graph: empty_graph(),
        pads: Seq::empty(),
        forwarders: Seq::empty(),
        appsinks: Seq::empty(),
        last_branch: None,
        ..m
    }
}

/// The position of record: the stamp of the first forwarder once it has
/// delivered a frame, else what the graph reports.
pub open spec fn position_of(m: PlayerView, graph_position: Option<u64>) -> Option<u64> {
    if m.forwarders.len() > 0 && forwarder_stamp(m.forwarders[0].1) > 0 {
        Some(forwarder_stamp(m.forwarders[0].1))
    } else {
        graph_position
    }
}

/// The forwarders of a table as their states.
pub open spec fn forwarder_views(s: Seq<(Seq<char>, Forwarder)>) -> Seq<
    (Seq<char>, ForwarderView),
> {
    map_values(s, |f: Forwarder| f@)
}

/// The name a GPU texture share publishes under.
pub open spec fn syphon_name_of(owm: OutputBindingView) -> Seq<char> {
    match owm.output.syphon_name {
        Some(name) => name,
        None => "TauriLivePlayer"@,
    }
}

/// The forwarder made for an output at load: it has delivered nothing yet
/// and its ingestion sink is in place.
pub open spec fn new_forwarder(owm: OutputBindingView, format: PixelFormat) -> ForwarderView {
    match format {
        PixelFormat::Uyvy => ForwarderView::Ndi(
            NdiSenderView { name: ndi_name_of(owm), last_pts_ns: 0, has_appsink: true },
        ),
        PixelFormat::Rgba => ForwarderView::Syphon(
            SyphonSenderView {
                name: syphon_name_of(owm),
                state: None,
                last_pts_ns: 0,
                has_appsink: true,
            },
        ),
    }
}

/// The graph, the forwarders and their sinks while a load sets them up.
pub struct Staged {
    pub graph: GraphView,
    pub forwarders: Seq<(Seq<char>, ForwarderView)>,
    pub appsinks: Seq<(Seq<char>, usize)>,
}

/// What a load sets up for the outputs before any media item is added: for
/// each output that has a frame forwarder on this platform, in order, the
/// forwarder under the output's id and its ingestion sink as a node of the
/// graph.
pub open spec fn with_forwarders(bindings: Seq<OutputBindingView>, platform: Platform) -> Staged
    decreases bindings.len(),
{
    if bindings.len() == 0 {
        Staged { graph: empty_graph(), forwarders: Seq::empty(), appsinks: Seq::empty() }
    } else {
        let before = with_forwarders(bindings.drop_last(), platform);
        let owm = bindings.last();
        match forwarder_format_of(owm.output.output_type, platform) {
            Some(format) => Staged {
                graph: extended(
                    before.graph,
                    seq![NodeView::ForwarderSink { output_id: owm.output.id, format }],
                    Seq::empty(),
                ),
                forwarders: put(before.forwarders, owm.output.id, new_forwarder(owm, format)),
                appsinks: put(
                    before.appsinks,
                    owm.output.id,
                    before.graph.nodes.len() as usize,
                ),
            },
            None => before,
        }
    }
}

/// The brightness level in effect for an output: its override where it has
/// one, else the master level.
pub open spec fn effective_brightness_of(
    overrides: Seq<(Seq<char>, Option<u32>)>,
    master: u32,
    id: Seq<char>,
) -> u32 {
    match lookup(overrides, id) {
        Some(Some(level)) => level,
        _ => master,
    }
}

/// The position of the first media item whose output is not among the
/// bindings.
pub open spec fn first_missing(
    items: Seq<MediaItemView>,
    bindings: Seq<OutputBindingView>,
) -> Option<int>
    decreases items.len(),
{
    if items.len() == 0 {
        None
    } else {
        match first_missing(items.drop_last(), bindings) {
            Some(i) => Some(i),
            None => if binding_index(bindings, items.last().output_id) is None {
                Some(items.len() - 1)
            } else {
                None
            },
        }
    }
}

/// The first missing item is an item whose output is not bound, and every
/// item before it is bound; where none is missing every item is bound.
pub proof fn lemma_first_missing(items: Seq<MediaItemView>, bindings: Seq<OutputBindingView>)
    ensures
        match first_missing(items, bindings) {
            Some(i) => 0 <= i < items.len() && binding_index(bindings, items[i].output_id) is None
                && forall|k: int|
                0 <= k < i ==> binding_index(bindings, #[trigger] items[k].output_id) is Some,
            None => forall|k: int|
                0 <= k < items.len() ==> binding_index(
                    bindings,
                    #[trigger] items[k].output_id,
                ) is Some,
        },
    decreases items.len(),
{
    if items.len() > 0 {
        let shorter = items.drop_last();
        lemma_first_missing(shorter, bindings);
        assert forall|k: int| 0 <= k < shorter.len() implies shorter[k] == items[k] by {}
        match first_missing(shorter, bindings) {
            Some(i) => {
                assert(shorter[i] == items[i]);
                assert forall|k: int| 0 <= k < i implies binding_index(
                    bindings,
                    #[trigger] items[k].output_id,
                ) is Some by {
                    assert(shorter[k] == items[k]);
                }
            },
            None => {
                assert forall|k: int| 0 <= k < items.len() - 1 implies binding_index(
                    bindings,
                    #[trigger] items[k].output_id,
                ) is Some by {
                    assert(shorter[k] == items[k]);
                }
            },
        }
    }
}

/// What is missing in a prefix of the items is missing in all of them.
pub proof fn lemma_first_missing_extends(
    items: Seq<MediaItemView>,
    bindings: Seq<OutputBindingView>,
    n: int,
)
    requires
        0 <= n <= items.len(),
        first_missing(items.take(n), bindings) is Some,
    ensures
        first_missing(items, bindings) == first_missing(items.take(n), bindings),
    decreases items.len() - n,
{
    if n < items.len() {
        let longer = items.take(n + 1);
        assert(longer.drop_last() =~= items.take(n));
        lemma_first_missing_extends(items, bindings, n + 1);
    } else {
        assert(items.take(n) =~= items);
    }
}

/// What a load needs to know to add the media items.
pub struct LoadEnv {
    pub platform: Platform,
    pub generation: u64,
    pub bindings: Seq<OutputBindingView>,
    pub appsinks: Seq<(Seq<char>, usize)>,
    pub overrides: Seq<(Seq<char>, Option<u32>)>,
    pub master_brightness: u32,
}

/// The context captured for a media item that is added to `graph`: the
/// first binding of its output, the brightness in effect for that output,
/// and the output's forwarder sink where outputs of its kind have one.
pub open spec fn item_context(
    graph: GraphView,
    item: MediaItemView,
    env: LoadEnv,
) -> PadContextView {
    let owm = env.bindings[binding_index(env.bindings, item.output_id)->0];
    PadContextView {
        generation: env.generation,
        decoder: (graph.nodes.len() + 1) as usize,
        item,
        owm,
        brightness: effective_brightness_of(env.overrides, env.master_brightness, owm.output.id),
        appsink: if forwarder_format_of(owm.output.output_type, env.platform) is Some {
            lookup(env.appsinks, owm.output.id)
        } else {
            None
        },
    }
}

/// The graph and the pad contexts while a load adds the media items.
pub struct Wired {
    pub graph: GraphView,
    pub pads: Seq<PadContextView>,
}

/// What a load makes of the media items: for each item, in order, a file
/// source for its path linked to a decoder, and its context.
pub open spec fn with_items(start: GraphView, items: Seq<MediaItemView>, env: LoadEnv) -> Wired
    decreases items.len(),
{
    if items.len() == 0 {
        Wired { graph: start, pads: Seq::empty() }
    } else {
        let before = with_items(start, items.drop_last(), env);
        let item = items.last();
        let n = before.graph.nodes.len() as int;
        Wired {
            graph: extended(
                before.graph,
                seq![NodeView::FileSource { location: item.path }, NodeView::Decoder],
                seq![link(n, n + 1)],
            ),
            pads: before.pads.push(item_context(before.graph, item, env)),
        }
    }
}

/// The engine after a cue has been loaded. The old graph is torn down and
/// the outputs' overrides are recorded in any case. Where a media item names
/// an output that is not among `outputs`, nothing is built and the engine
/// stays in its null state. Else the graph holds the forwarder sinks and the
/// sources and decoders of the items, its latency is raised to 100 ms where
/// some output has a forwarder, and the engine negotiates.
pub open spec fn loaded(
    m: PlayerView,
    cue: CueView,
    outputs: Seq<OutputTargetView>,
    monitors: Seq<MonitorInfo>,
    handles: Seq<(Seq<char>, NativeHandle)>,
) -> PlayerView {
    let bindings = bindings_of(outputs, monitors, handles);
    let overrides = recorded_overrides(m.overrides, outputs);
    let reset = PlayerView { overrides, ..torn_down(m) };
    if first_missing(cue.items, bindings) is Some {
        reset
    } else {
        let staged = with_forwarders(bindings, m.platform);
        let env = LoadEnv {
            platform: m.platform,
            generation: reset.generation,
            bindings,
            appsinks: staged.appsinks,
            overrides,
            master_brightness: m.master_brightness,
        };
        let wired = with_items(staged.graph, cue.items, env);
        PlayerView {
            state: PipelineState::Ready,
            latency_ms: if staged.forwarders.len() > 0 {
                100
            } else {
                0
            },
            graph: wired.graph,
            pads: wired.pads,
            forwarders: staged.forwarders,
            appsinks: staged.appsinks,
            ..reset
        }
    }
}

/// The error of a load: none where every media item's output is among the
/// bindings, else that the output of the first such item was not found.
pub open spec fn load_error(items: Seq<MediaItemView>, bindings: Seq<OutputBindingView>) -> Option<
    AppErrorView,
> {
    match first_missing(items, bindings) {
        Some(i) => Some(
            AppErrorView {
                kind: ErrorKind::NotFound,
                detail: "Output not found: "@ + items[i].output_id,
            },
        ),
        None => None,
    }
}

/// The engine halted with its first frame ready.
pub open spec fn paused(m: PlayerView) -> PlayerView {
    PlayerView { state: PipelineState::Paused, ..m }
}

/// The engine after a bus message. Only an engine that negotiates looks at
/// messages: the acknowledgement makes it paused, a hard error tears its
/// graph down, and everything else, warnings too, leaves it negotiating.
pub open spec fn after_message(m: PlayerView, message: BusMessageView) -> PlayerView {
    if m.state != PipelineState::Ready {
        m
    } else {
        match message {
            BusMessageView::AsyncDone => paused(m),
            BusMessageView::Error(_) => torn_down(m),
            _ => m,
        }
    }
}

/// The error a bus message fails a load with: that of a hard error seen
/// while the engine negotiates.
pub open spec fn message_error(m: PlayerView, message: BusMessageView) -> Option<AppErrorView> {
    match message {
        BusMessageView::Error(text) => if m.state == PipelineState::Ready {
            Some(AppErrorView { kind: ErrorKind::Pipeline, detail: "Pipeline error: "@ + text })
        } else {
            None
        },
        _ => None,
    }
}

/// The engine after the wait for the preroll has run out: paused where the
/// policy is to proceed, torn down where it is to fail.
pub open spec fn after_timeout(m: PlayerView) -> PlayerView {
    if m.state != PipelineState::Ready {
        m
    } else {
        match m.timeout_policy {
            TimeoutPolicy::Proceed => paused(m),
            TimeoutPolicy::Fail => torn_down(m),
        }
    }
}

/// The error of a wait for the preroll that has run out.
pub open spec fn timeout_error(m: PlayerView) -> Option<AppErrorView> {
    if m.state == PipelineState::Ready && m.timeout_policy == TimeoutPolicy::Fail {
        Some(
            AppErrorView {
                kind: ErrorKind::Timeout,
                detail: "Preroll did not complete within 5000 ms"@,
            },
        )
    } else {
        None
    }
}

/// The engine after the messages of one wait for the preroll: they are
/// looked at in order until one ends the negotiation; where none does, the
/// wait has run out.
pub open spec fn prerolled(m: PlayerView, messages: Seq<BusMessageView>) -> PlayerView
    decreases messages.len(),
{
    if m.state != PipelineState::Ready {
        m
    } else if messages.len() == 0 {
        after_timeout(m)
    } else {
        prerolled(after_message(m, messages[0]), messages.drop_first())
    }
}

/// The error of one wait for the preroll, if it fails the load.
pub open spec fn preroll_error(m: PlayerView, messages: Seq<BusMessageView>) -> Option<
    AppErrorView,
>
    decreases messages.len(),
{
    if m.state != PipelineState::Ready {
        None
    } else if messages.len() == 0 {
        timeout_error(m)
    } else {
        match message_error(m, messages[0]) {
            Some(e) => Some(e),
            None => preroll_error(after_message(m, messages[0]), messages.drop_first()),
        }
    }
}

/// Whether an output follows the master brightness: it has no override.
pub open spec fn follows_master(overrides: Seq<(Seq<char>, Option<u32>)>, id: Seq<char>) -> bool {
    !(lookup(overrides, id) matches Some(Some(_)))
}

/// Whether a change of gain is for a node.
pub open spec fn selects(
    kind: GainKind,
    id: Seq<char>,
    overrides: Seq<(Seq<char>, Option<u32>)>,
    node: NodeView,
) -> bool {
    match kind {
        GainKind::MasterBrightness => node matches NodeView::VideoBalance { output_id, .. }
            && follows_master(overrides, output_id),
        GainKind::OutputBrightness => node matches NodeView::VideoBalance { output_id, .. }
            && output_id == id,
        GainKind::Volume => node is Volume,
    }
}

/// The nodes after a change of gain: the nodes it is for have the new gain,
/// all others are as they were.
pub open spec fn regained(
    nodes: Seq<NodeView>,
    kind: GainKind,
    id: Seq<char>,
    overrides: Seq<(Seq<char>, Option<u32>)>,
    gain: i64,
) -> Seq<NodeView> {
    Seq::new(
        nodes.len(),
        |i: int|
            if selects(kind, id, overrides, nodes[i]) {
                with_gain(nodes[i], gain)
            } else {
                nodes[i]
            },
    )
}

/// The gains to write for a change of gain: one for each node it is for, in
/// the order of the nodes.
pub open spec fn gain_updates(
    nodes: Seq<NodeView>,
    kind: GainKind,
    id: Seq<char>,
    overrides: Seq<(Seq<char>, Option<u32>)>,
    gain: i64,
) -> Seq<GainUpdate>
    decreases nodes.len(),
{
    if nodes.len() == 0 {
        Seq::empty()
    } else {
        let before = gain_updates(nodes.drop_last(), kind, id, overrides, gain);
        if selects(kind, id, overrides, nodes.last()) {
            before.push(GainUpdate { node: (nodes.len() - 1) as usize, gain })
        } else {
            before
        }
    }
}

/// The graph after a change of gain.
pub open spec fn graph_regained(
    g: GraphView,
    kind: GainKind,
    id: Seq<char>,
    overrides: Seq<(Seq<char>, Option<u32>)>,
    gain: i64,
) -> GraphView {
    GraphView { nodes: regained(g.nodes, kind, id, overrides, gain), links: g.links }
}

/// The engine after the master brightness was set: the level is kept, and
/// the brightness gain of every output without an override follows it.
pub open spec fn with_master_brightness(m: PlayerView, level: u32) -> PlayerView {
    PlayerView {
        master_brightness: level,
        graph: graph_regained(
            m.graph,
            GainKind::MasterBrightness,
            Seq::empty(),
            m.overrides,
            brightness_gain_of(level) as i64,
        ),
        ..m
    }
}

/// The engine after the brightness of one output was set. The override is
/// recorded. A level is written into the output's brightness gains; clearing
/// the override writes nothing: the output takes the master level at the next
/// write of the master.
pub open spec fn with_output_brightness(
    m: PlayerView,
    id: Seq<char>,
    level: Option<u32>,
) -> PlayerView {
    PlayerView {
        overrides: put(m.overrides, id, level),
        graph: match level {
            Some(l) => graph_regained(
                m.graph,
                GainKind::OutputBrightness,
                id,
                m.overrides,
                brightness_gain_of(l) as i64,
            ),
            None => m.graph,
        },
        ..m
    }
}

/// The engine after the master volume was set: the level is kept and
/// written into every volume gain.
pub open spec fn with_master_volume(m: PlayerView, level: u32) -> PlayerView {
    PlayerView {
        master_volume: level,
        graph: graph_regained(
            m.graph,
            GainKind::Volume,
            Seq::empty(),
            m.overrides,
            volume_gain_of(level) as i64,
        ),
        ..m
    }
}

/// The engine after a decoder has reported a stream. A ticket of another
/// generation, or for an item the cue does not have, changes nothing; else
/// the stream is routed by the item's context, and a branch that was
/// attached is remembered as the last one.
pub open spec fn after_pad(
    m: PlayerView,
    ticket: PadTicket,
    caps: Option<Seq<char>>,
) -> PlayerView {
    if ticket.generation == m.generation && ticket.item < m.pads.len() {
        let ctx = m.pads[ticket.item as int];
        let route = pad_route(m.graph, m.generation, ctx, m.platform, caps);
        PlayerView {
            graph: routed(m.graph, route, ctx),
            last_branch: match route_outcome(m.graph, route, ctx) {
                PadOutcome::Attached(branch) => Some(branch),
                _ => m.last_branch,
            },
            ..m
        }
    } else {
        m
    }
}

/// A graph cut back to what it held before a branch.
pub open spec fn cut(g: GraphView, branch: Branch) -> GraphView {
    GraphView {
        nodes: g.nodes.take(branch.first_node as int),
        links: g.links.take(branch.first_link as int),
    }
}

/// The engine after a branch was taken back. Only the branch that the last
/// attachment added can be taken back, and only once: the graph is cut back
/// to what it held before that branch. Anything else changes nothing.
pub open spec fn after_drop(m: PlayerView, branch: Branch) -> PlayerView {
    if m.last_branch == Some(branch) && branch.first_node <= m.graph.nodes.len()
        && branch.first_link <= m.graph.links.len() {
        PlayerView { graph: cut(m.graph, branch), last_branch: None, ..m }
    } else {
        m
    }
}

/// What is reported for a stream that a decoder has reported.
pub open spec fn pad_outcome(
    m: PlayerView,
    ticket: PadTicket,
    caps: Option<Seq<char>>,
) -> PadOutcome {
    if ticket.generation == m.generation && ticket.item < m.pads.len() {
        let ctx = m.pads[ticket.item as int];
        route_outcome(m.graph, pad_route(m.graph, m.generation, ctx, m.platform, caps), ctx)
    } else {
        PadOutcome::Ignored
    }
}

/// The engine after a forwarder has taken in a pull; an output without a
/// forwarder changes nothing.
pub open spec fn after_sample(m: PlayerView, id: Seq<char>, pulled: Pulled) -> PlayerView {
    match lookup(m.forwarders, id) {
        Some(f) => PlayerView {
            forwarders: put(m.forwarders, id, forwarder_after(f, pulled)),
            ..m
        },
        None => m,
    }
}

/// The frame planned for a pull from an output's forwarder; an output
/// without a forwarder has none.
pub open spec fn sample_frame(m: PlayerView, id: Seq<char>, pulled: Pulled) -> Result<
    FramePlan,
    FlowError,
> {
    match lookup(m.forwarders, id) {
        Some(f) => forwarder_frame(f, pulled),
        None => Err(FlowError::Error),
    }
}

/// The engine after the forwarder of an output has published a planned
/// frame; an output without a forwarder changes nothing.
pub open spec fn after_publish(
    m: PlayerView,
    id: Seq<char>,
    frame: FramePlan,
    fresh: Option<SyphonState>,
) -> PlayerView {
    match lookup(m.forwarders, id) {
        Some(f) => PlayerView {
            forwarders: put(m.forwarders, id, forwarder_published(f, frame, fresh)),
            ..m
        },
        None => m,
    }
}

/// What the forwarder of an output publishes a planned frame with; an
/// output without a forwarder gives an error.
pub open spec fn publish_upload(
    m: PlayerView,
    id: Seq<char>,
    frame: FramePlan,
    fresh: Option<SyphonState>,
) -> Result<TextureUpload, FlowError> {
    match lookup(m.forwarders, id) {
        Some(f) => forwarder_upload(f, frame, fresh),
        None => Err(FlowError::Error),
    }
}

/// The views of a sequence of pad contexts.
pub open spec fn pad_views(pads: Seq<PadContext>) -> Seq<PadContextView> {
    Seq::new(pads.len(), |i: int| pads[i]@)
}

} // verus!
