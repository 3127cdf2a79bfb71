//! What holds of the engine in every state it can reach.

use vstd::prelude::*;
use vstd::string::*;
use crate::gain::{brightness_gain_of, volume_gain_of};
use crate::id_map::{index_of, is_index_of, lookup, unique_keys};
use crate::output::native_handle::{NativeHandle, Platform};
use crate::pipeline::cue_player::{
    BusMessageView, GainKind, PadTicket, PipelineState, TimeoutPolicy,
};
use crate::pipeline::forwarder::{forwarder_after, forwarder_published};
use crate::pipeline::graph::{
    empty_graph, links_in_range, unique_gain_names, Branch, GraphView, NodeView,
};
use crate::pipeline::media_handler::{
    context_in_range, forwarder_format_of, lemma_routed_well_formed, link, pad_route, route_outcome,
    PadOutcome,
};
use crate::pipeline::model::{
    after_drop, after_message, after_pad, after_publish, after_sample, after_timeout, cut,
    first_missing, graph_regained, initial_player, item_context, lemma_first_missing, load_error,
    loaded, new_forwarder, next_generation, paused, torn_down, with_forwarders, with_items,
    with_master_brightness, with_master_volume, with_output_brightness, LoadEnv, PlayerView,
};
use crate::pipeline::ndi_sender::{FramePlan, Pulled};
use crate::pipeline::router::{
    binding_index, bindings_of, lemma_binding_index, lemma_recorded_overrides_unique,
    recorded_overrides, OutputBindingView,
};
use crate::pipeline::syphon_sender::SyphonState;
use crate::types::{CueView, MediaItemView, MonitorInfo, OutputTargetView};

verus! {

/// What holds of the engine in every state it can reach: the links of the
/// graph join nodes of the graph, no two volume gains have the same name,
/// the contexts of the media items name nodes of the graph, overrides and
/// forwarders are kept once per output id, and the same holds of the graph
/// cut back to what it held before the last branch.
pub open spec fn well_formed(m: PlayerView) -> bool {
    &&& links_in_range(m.graph)
    &&& unique_gain_names(m.graph)
    &&& forall|k: int| 0 <= k < m.pads.len() ==> context_in_range(m.graph, #[trigger] m.pads[k])
    &&& unique_keys(m.overrides)
    &&& unique_keys(m.forwarders)
    &&& unique_keys(m.appsinks)
    &&& m.last_branch matches Some(branch) ==> {
        &&& branch.first_node <= m.graph.nodes.len()
        &&& branch.first_link <= m.graph.links.len()
        &&& links_in_range(cut(m.graph, branch))
        &&& forall|k: int|
            0 <= k < m.pads.len() ==> context_in_range(cut(m.graph, branch), #[trigger] m.pads[k])
    }
}

/// Whether a node is a gain node.
pub open spec fn is_gain_node(node: NodeView) -> bool {
    node is VideoBalance || node is Volume
}

/// The forwarder sinks that a load sets up are the only nodes so far, each
/// forwarder's sink is one of them, and each output id is kept once.
pub proof fn lemma_with_forwarders(bindings: Seq<OutputBindingView>, platform: Platform)
    ensures
        ({
            let s = with_forwarders(bindings, platform);
            &&& s.graph.links.len() == 0
            &&& s.graph.nodes.len() <= bindings.len()
            &&& forall|i: int|
                0 <= i < s.graph.nodes.len() ==> #[trigger] s.graph.nodes[i] is ForwarderSink
            &&& unique_keys(s.forwarders)
            &&& unique_keys(s.appsinks)
            &&& forall|i: int|
                0 <= i < s.appsinks.len() ==> (#[trigger] s.appsinks[i]).1 < s.graph.nodes.len()
        }),
    decreases bindings.len(),
{
    if bindings.len() > 0 {
        let before = with_forwarders(bindings.drop_last(), platform);
        lemma_with_forwarders(bindings.drop_last(), platform);
        let owm = bindings.last();
        match forwarder_format_of(owm.output.output_type, platform) {
            Some(format) => {
                let s = with_forwarders(bindings, platform);
                crate::id_map::lemma_put(
                    before.forwarders,
                    owm.output.id,
                    new_forwarder(owm, format),
                    owm.output.id,
                );
                crate::id_map::lemma_put(
                    before.appsinks,
                    owm.output.id,
                    before.graph.nodes.len() as usize,
                    owm.output.id,
                );
                assert forall|i: int| 0 <= i < s.appsinks.len() implies (#[trigger] s.appsinks[i]).1
                    < s.graph.nodes.len() by {
                    if i < before.appsinks.len() && s.appsinks[i] == before.appsinks[i] {
                    } else {
                        assert(s.appsinks[i].1 == before.graph.nodes.len() as usize);
                    }
                }
                assert forall|i: int| 0 <= i < s.graph.nodes.len() implies (
                #[trigger] s.graph.nodes[i]) is ForwarderSink by {
                    if i < before.graph.nodes.len() {
                        assert(s.graph.nodes[i] == before.graph.nodes[i]);
                    }
                }
            },
            None => {},
        }
    }
}

/// A load adds two nodes, one link and one context for each media item.
pub proof fn lemma_with_items_count(start: GraphView, items: Seq<MediaItemView>, env: LoadEnv)
    ensures
        with_items(start, items, env).graph.nodes.len() == start.nodes.len() + 2 * items.len(),
        with_items(start, items, env).graph.links.len() == start.links.len() + items.len(),
        with_items(start, items, env).pads.len() == items.len(),
    decreases items.len(),
{
    if items.len() > 0 {
        lemma_with_items_count(start, items.drop_last(), env);
    }
}

/// What a load makes of the media items, as long as the nodes can be
/// counted: the nodes are the start's nodes followed by a source and a
/// decoder for each item, the links join them, and each context names its
/// item's decoder.
pub proof fn lemma_with_items(start: GraphView, items: Seq<MediaItemView>, env: LoadEnv)
    requires
        with_items(start, items, env).graph.nodes.len() <= usize::MAX,
    ensures
        ({
            let w = with_items(start, items, env);
            &&& w.graph.nodes.len() == start.nodes.len() + 2 * items.len()
            &&& w.graph.links.len() == start.links.len() + items.len()
            &&& w.pads.len() == items.len()
            &&& forall|i: int| 0 <= i < start.nodes.len() ==> w.graph.nodes[i] == start.nodes[i]
            &&& forall|i: int| 0 <= i < start.links.len() ==> w.graph.links[i] == start.links[i]
            &&& forall|i: int|
                start.nodes.len() <= i < w.graph.nodes.len() ==> (
                #[trigger] w.graph.nodes[i]) is FileSource
                    || w.graph.nodes[i] is Decoder
            &&& forall|k: int|
                0 <= k < items.len() ==> (#[trigger] w.graph.links[start.links.len() + k]).from
                    < w.graph.nodes.len() && w.graph.links[start.links.len() + k].to
                    < w.graph.nodes.len()
            &&& forall|k: int|
                0 <= k < items.len() ==> (#[trigger] w.pads[k]).decoder < w.graph.nodes.len()
                    && (w.pads[k].appsink matches Some(a) ==> lookup(
                    env.appsinks,
                    w.pads[k].owm.output.id,
                ) == Some(a))
        }),
    decreases items.len(),
{
    lemma_with_items_count(start, items, env);
    if items.len() > 0 {
        let before = with_items(start, items.drop_last(), env);
        lemma_with_items_count(start, items.drop_last(), env);
        lemma_with_items(start, items.drop_last(), env);
        let w = with_items(start, items, env);
        let n = before.graph.nodes.len() as int;
        assert(w.graph.nodes.len() == n + 2);
        assert(w.graph.links.len() == before.graph.links.len() + 1);
        assert forall|i: int| 0 <= i < start.nodes.len() implies w.graph.nodes[i]
            == start.nodes[i] by {
            assert(w.graph.nodes[i] == before.graph.nodes[i]);
        }
        assert forall|i: int| 0 <= i < start.links.len() implies w.graph.links[i]
            == start.links[i] by {
            assert(w.graph.links[i] == before.graph.links[i]);
        }
        assert forall|i: int| start.nodes.len() <= i < w.graph.nodes.len() implies (
        #[trigger] w.graph.nodes[i]) is FileSource
            || w.graph.nodes[i] is Decoder by {
            if i < n {
                assert(w.graph.nodes[i] == before.graph.nodes[i]);
            }
        }
        assert forall|k: int| 0 <= k < items.len() implies (
        #[trigger] w.graph.links[start.links.len() + k]).from < w.graph.nodes.len()
            && w.graph.links[start.links.len() + k].to < w.graph.nodes.len() by {
            if k < items.len() - 1 {
                assert(w.graph.links[start.links.len() + k] == before.graph.links[start.links.len()
                    + k]);
            } else {
                assert(w.graph.links[start.links.len() + k] == link(n, n + 1));
            }
        }
        assert forall|k: int| 0 <= k < items.len() implies (#[trigger] w.pads[k]).decoder
            < w.graph.nodes.len() && (w.pads[k].appsink matches Some(a) ==> lookup(
            env.appsinks,
            w.pads[k].owm.output.id,
        ) == Some(a)) by {
            if k < items.len() - 1 {
                assert(w.pads[k] == before.pads[k]);
            } else {
                assert(w.pads[k] == item_context(before.graph, items.last(), env));
            }
        }
    }
}

/// The graph of a load is the same whatever surroundings the items are
/// added in.
pub proof fn lemma_with_items_graph(
    start: GraphView,
    items: Seq<MediaItemView>,
    env: LoadEnv,
    other: LoadEnv,
)
    ensures
        with_items(start, items, env).graph == with_items(start, items, other).graph,
    decreases items.len(),
{
    if items.len() > 0 {
        lemma_with_items_graph(start, items.drop_last(), env, other);
    }
}

/// A load fails exactly when some media item names an output that is not
/// in the output list, and then with the output of the first such item; a
/// failed load leaves the engine in its null state with an empty graph.
pub proof fn load_fails_exactly_when_output_missing(
    m: PlayerView,
    cue: CueView,
    outputs: Seq<OutputTargetView>,
    monitors: Seq<MonitorInfo>,
    handles: Seq<(Seq<char>, NativeHandle)>,
)
    ensures
        load_error(cue.items, bindings_of(outputs, monitors, handles)) is Some <==> exists|k: int|
            0 <= k < cue.items.len() && forall|j: int|
                0 <= j < outputs.len() ==> (#[trigger] outputs[j]).id
                    != (#[trigger] cue.items[k]).output_id,
        load_error(cue.items, bindings_of(outputs, monitors, handles)) is Some ==> {
            &&& loaded(m, cue, outputs, monitors, handles).state == PipelineState::Null
            &&& loaded(m, cue, outputs, monitors, handles).graph == empty_graph()
        },
        load_error(cue.items, bindings_of(outputs, monitors, handles)) is None ==> loaded(
            m,
            cue,
            outputs,
            monitors,
            handles,
        ).state == PipelineState::Ready,
{
    let bindings = bindings_of(outputs, monitors, handles);
    lemma_first_missing(cue.items, bindings);
    assert forall|k: int| 0 <= k < cue.items.len() implies (binding_index(
        bindings,
        #[trigger] cue.items[k].output_id,
    ) is None <==> forall|j: int|
        0 <= j < outputs.len() ==> (#[trigger] outputs[j]).id != cue.items[k].output_id) by {
        lemma_binding_index(bindings, cue.items[k].output_id);
        if binding_index(bindings, cue.items[k].output_id) is None {
            assert forall|j: int| 0 <= j < outputs.len() implies (#[trigger] outputs[j]).id
                != cue.items[k].output_id by {
                assert(bindings[j].output.id == outputs[j].id);
            }
        } else {
            let at = binding_index(bindings, cue.items[k].output_id)->0;
            assert(bindings[at].output.id == outputs[at].id);
        }
    }
    match first_missing(cue.items, bindings) {
        Some(i) => {
            assert(binding_index(bindings, cue.items[i].output_id) is None);
        },
        None => {},
    }
}

/// Loading a cue leaves nothing of what was loaded before: whatever two
/// engines on one platform held, after the same load they hold the same
/// graph, the same forwarders and the same forwarder sinks. That graph has no
/// gain node yet, so no named gain node of an earlier cue and no duplicate
/// of one.
pub proof fn load_leaves_nothing_of_previous(
    a: PlayerView,
    b: PlayerView,
    cue: CueView,
    outputs: Seq<OutputTargetView>,
    monitors: Seq<MonitorInfo>,
    handles: Seq<(Seq<char>, NativeHandle)>,
)
    requires
        a.platform == b.platform,
        loaded(a, cue, outputs, monitors, handles).graph.nodes.len() <= usize::MAX,
    ensures
        loaded(a, cue, outputs, monitors, handles).graph == loaded(
            b,
            cue,
            outputs,
            monitors,
            handles,
        ).graph,
        loaded(a, cue, outputs, monitors, handles).forwarders == loaded(
            b,
            cue,
            outputs,
            monitors,
            handles,
        ).forwarders,
        loaded(a, cue, outputs, monitors, handles).appsinks == loaded(
            b,
            cue,
            outputs,
            monitors,
            handles,
        ).appsinks,
        loaded(a, cue, outputs, monitors, handles).state == loaded(
            b,
            cue,
            outputs,
            monitors,
            handles,
        ).state,
        forall|i: int|
            0 <= i < loaded(a, cue, outputs, monitors, handles).graph.nodes.len() ==> !is_gain_node(
                #[trigger] loaded(a, cue, outputs, monitors, handles).graph.nodes[i],
            ),
        unique_gain_names(loaded(a, cue, outputs, monitors, handles).graph),
{
    let bindings = bindings_of(outputs, monitors, handles);
    let la = loaded(a, cue, outputs, monitors, handles);
    let lb = loaded(b, cue, outputs, monitors, handles);
    if first_missing(cue.items, bindings) is None {
        let staged = with_forwarders(bindings, a.platform);
        lemma_with_forwarders(bindings, a.platform);
        let env_a = LoadEnv {
            platform: a.platform,
            generation: next_generation(a.generation),
            bindings,
            appsinks: staged.appsinks,
            overrides: recorded_overrides(a.overrides, outputs),
            master_brightness: a.master_brightness,
        };
        let env_b = LoadEnv {
            platform: b.platform,
            generation: next_generation(b.generation),
            bindings,
            appsinks: staged.appsinks,
            overrides: recorded_overrides(b.overrides, outputs),
            master_brightness: b.master_brightness,
        };
        lemma_with_items_graph(staged.graph, cue.items, env_a, env_b);
        lemma_with_items(staged.graph, cue.items, env_a);
        assert forall|i: int| 0 <= i < la.graph.nodes.len() implies !is_gain_node(
            #[trigger] la.graph.nodes[i],
        ) by {
            if i < staged.graph.nodes.len() {
                assert(la.graph.nodes[i] == staged.graph.nodes[i]);
            }
        }
    }
}

/// After a load the engine is well formed, given that it kept its
/// overrides once per output id before and that the nodes of the new graph
/// can be counted.
pub proof fn loaded_is_well_formed(
    m: PlayerView,
    cue: CueView,
    outputs: Seq<OutputTargetView>,
    monitors: Seq<MonitorInfo>,
    handles: Seq<(Seq<char>, NativeHandle)>,
)
    requires
        unique_keys(m.overrides),
        loaded(m, cue, outputs, monitors, handles).graph.nodes.len() <= usize::MAX,
    ensures
        well_formed(loaded(m, cue, outputs, monitors, handles)),
{
    let bindings = bindings_of(outputs, monitors, handles);
    let l = loaded(m, cue, outputs, monitors, handles);
    lemma_recorded_overrides_unique(m.overrides, outputs);
    load_leaves_nothing_of_previous(m, m, cue, outputs, monitors, handles);
    if first_missing(cue.items, bindings) is None {
        let staged = with_forwarders(bindings, m.platform);
        lemma_with_forwarders(bindings, m.platform);
        let env = LoadEnv {
            platform: m.platform,
            generation: next_generation(m.generation),
            bindings,
            appsinks: staged.appsinks,
            overrides: recorded_overrides(m.overrides, outputs),
            master_brightness: m.master_brightness,
        };
        lemma_with_items(staged.graph, cue.items, env);
        assert forall|i: int| 0 <= i < l.graph.links.len() implies #[trigger] l.graph.links[i].from
            < l.graph.nodes.len() && l.graph.links[i].to < l.graph.nodes.len() by {
            assert(l.graph.links[i] == l.graph.links[staged.graph.links.len() + i]);
        }
        assert forall|k: int| 0 <= k < l.pads.len() implies context_in_range(
            l.graph,
            #[trigger] l.pads[k],
        ) by {
            match l.pads[k].appsink {
                Some(a) => {
                    let id = l.pads[k].owm.output.id;
                    assert(lookup(staged.appsinks, id) == Some(a));
                    let at = index_of(staged.appsinks, id);
                    assert(is_index_of(staged.appsinks, id, at));
                    assert(staged.appsinks[at].1 < staged.graph.nodes.len());
                },
                None => {},
            }
        }
    }
}

/// A reported stream keeps the engine well formed, as long as the nodes and
/// links of the graph can still be counted.
pub proof fn pad_keeps_well_formed(m: PlayerView, ticket: PadTicket, caps: Option<Seq<char>>)
    requires
        well_formed(m),
        after_pad(m, ticket, caps).graph.nodes.len() <= usize::MAX,
        after_pad(m, ticket, caps).graph.links.len() <= usize::MAX,
    ensures
        well_formed(after_pad(m, ticket, caps)),
{
    if ticket.generation == m.generation && ticket.item < m.pads.len() {
        let ctx = m.pads[ticket.item as int];
        let route = pad_route(m.graph, m.generation, ctx, m.platform, caps);
        lemma_routed_well_formed(m.graph, route, ctx);
        let after = after_pad(m, ticket, caps);
        assert forall|k: int| 0 <= k < after.pads.len() implies context_in_range(
            after.graph,
            #[trigger] after.pads[k],
        ) by {
            assert(context_in_range(m.graph, m.pads[k]));
        }
        match route_outcome(m.graph, route, ctx) {
            PadOutcome::Attached(branch) => {
                assert(cut(after.graph, branch).nodes =~= m.graph.nodes);
                assert(cut(after.graph, branch).links =~= m.graph.links);
                assert(cut(after.graph, branch) == m.graph);
            },
            _ => {
                match m.last_branch {
                    Some(branch) => {
                        assert(cut(after.graph, branch).nodes =~= cut(m.graph, branch).nodes);
                        assert(cut(after.graph, branch).links =~= cut(m.graph, branch).links);
                    },
                    None => {},
                }
            },
        }
    }
}

/// Taking a branch back keeps the engine well formed.
pub proof fn drop_keeps_well_formed(m: PlayerView, branch: Branch)
    requires
        well_formed(m),
    ensures
        well_formed(after_drop(m, branch)),
{
    let after = after_drop(m, branch);
    if after != m {
        assert forall|i: int, j: int| 0 <= i < j < after.graph.nodes.len() implies !(
        #[trigger] after.graph.nodes[i] matches NodeView::Volume { name: a, .. }
            && #[trigger] after.graph.nodes[j] matches NodeView::Volume { name: b, .. } && a
            == b) by {
            let x = m.graph.nodes[i];
            let y = m.graph.nodes[j];
            assert(!(x matches NodeView::Volume { name: a, .. } && y matches NodeView::Volume {
                name: b,
                ..
            } && a == b));
        }
    }
}

/// Tearing the graph down leaves a well-formed engine, and so does every
/// change that touches neither the graph nor the tables: a change of state,
/// of latency or of the timeout policy.
pub proof fn teardown_and_transport_keep_well_formed(
    m: PlayerView,
    state: PipelineState,
    policy: TimeoutPolicy,
)
    requires
        well_formed(m),
    ensures
        well_formed(torn_down(m)),
        well_formed(PlayerView { state, ..m }),
        well_formed(PlayerView { timeout_policy: policy, ..m }),
        forall|message: BusMessageView| well_formed(#[trigger] after_message(m, message)),
        well_formed(after_timeout(m)),
{
    assert(torn_down(m).graph == empty_graph());
    assert(paused(m) == (PlayerView { state: PipelineState::Paused, ..m }));
}

/// A frame taken in by a forwarder keeps the engine well formed.
pub proof fn sample_keeps_well_formed(m: PlayerView, id: Seq<char>, pulled: Pulled)
    requires
        well_formed(m),
    ensures
        well_formed(after_sample(m, id, pulled)),
{
    match lookup(m.forwarders, id) {
        Some(f) => {
            crate::id_map::lemma_put(m.forwarders, id, forwarder_after(f, pulled), id);
        },
        None => {},
    }
}

/// A frame published by a forwarder keeps the engine well formed.
pub proof fn publish_keeps_well_formed(
    m: PlayerView,
    id: Seq<char>,
    frame: FramePlan,
    fresh: Option<SyphonState>,
)
    requires
        well_formed(m),
    ensures
        well_formed(after_publish(m, id, frame, fresh)),
{
    match lookup(m.forwarders, id) {
        Some(f) => {
            crate::id_map::lemma_put(m.forwarders, id, forwarder_published(f, frame, fresh), id);
        },
        None => {},
    }
}

/// An engine with nothing loaded is well formed.
pub proof fn initial_is_well_formed(platform: Platform)
    ensures
        well_formed(initial_player(platform)),
{
}

/// A change of gain keeps the engine well formed: it changes no name and
/// no link. This covers the writes of the master brightness and of the
/// master volume, and the writes of an output's brightness.
pub proof fn gain_keeps_well_formed(
    m: PlayerView,
    kind: GainKind,
    id: Seq<char>,
    overrides: Seq<(Seq<char>, Option<u32>)>,
    gain: i64,
    level: u32,
    value: Option<u32>,
)
    requires
        well_formed(m),
    ensures
        well_formed(PlayerView { graph: graph_regained(m.graph, kind, id, overrides, gain), ..m }),
        well_formed(with_master_brightness(m, level)),
        well_formed(with_master_volume(m, level)),
        well_formed(with_output_brightness(m, id, value)),
{
    lemma_regained_well_formed(m, kind, id, overrides, gain);
    lemma_regained_well_formed(
        m,
        GainKind::MasterBrightness,
        Seq::empty(),
        m.overrides,
        brightness_gain_of(level) as i64,
    );
    lemma_regained_well_formed(
        m,
        GainKind::Volume,
        Seq::empty(),
        m.overrides,
        volume_gain_of(level) as i64,
    );
    crate::id_map::lemma_put(m.overrides, id, value, id);
    match value {
        Some(l) => {
            lemma_regained_well_formed(
                m,
                GainKind::OutputBrightness,
                id,
                m.overrides,
                brightness_gain_of(l) as i64,
            );
        },
        None => {},
    }
}

/// A graph whose gains were changed is as well formed as before.
proof fn lemma_regained_well_formed(
    m: PlayerView,
    kind: GainKind,
    id: Seq<char>,
    overrides: Seq<(Seq<char>, Option<u32>)>,
    gain: i64,
)
    requires
        well_formed(m),
    ensures
        well_formed(PlayerView { graph: graph_regained(m.graph, kind, id, overrides, gain), ..m }),
{
    let g = graph_regained(m.graph, kind, id, overrides, gain);
    assert forall|i: int| 0 <= i < g.links.len() implies #[trigger] g.links[i].from < g.nodes.len()
        && g.links[i].to < g.nodes.len() by {
        assert(m.graph.links[i].from < m.graph.nodes.len());
    }
    assert forall|i: int, j: int| 0 <= i < j < g.nodes.len() implies !(
    #[trigger] g.nodes[i] matches NodeView::Volume { name: a, .. }
        && #[trigger] g.nodes[j] matches NodeView::Volume { name: b, .. } && a == b) by {
        let x = m.graph.nodes[i];
        let y = m.graph.nodes[j];
        assert(!(x matches NodeView::Volume { name: a, .. } && y matches NodeView::Volume {
            name: b,
            ..
        } && a == b));
    }
    let after = PlayerView { graph: g, ..m };
    assert forall|k: int| 0 <= k < after.pads.len() implies context_in_range(
        after.graph,
        #[trigger] after.pads[k],
    ) by {
        assert(context_in_range(m.graph, m.pads[k]));
    }
    match m.last_branch {
        Some(branch) => {
            let c = cut(g, branch);
            let c0 = cut(m.graph, branch);
            assert(c.links =~= c0.links);
            assert(c.nodes.len() == c0.nodes.len());
            assert forall|i: int| 0 <= i < c.links.len() implies #[trigger] c.links[i].from
                < c.nodes.len() && c.links[i].to < c.nodes.len() by {
                assert(c0.links[i].from < c0.nodes.len());
            }
            assert forall|k: int| 0 <= k < after.pads.len() implies context_in_range(
                c,
                #[trigger] after.pads[k],
            ) by {
                assert(context_in_range(c0, m.pads[k]));
            }
        },
        None => {},
    }
}

/// Playing, pausing and stopping twice is the same as doing it once.
pub proof fn transport_is_idempotent(m: PlayerView, state: PipelineState)
    ensures
        (PlayerView { state, ..(PlayerView { state, ..m }) }) == (PlayerView { state, ..m }),
{
}

/// While an output has a brightness override, a write of the master
/// brightness leaves each of its brightness gains as it was.
pub proof fn master_write_spares_overridden_output(
    m: PlayerView,
    id: Seq<char>,
    level: u32,
    master: u32,
    i: int,
)
    requires
        unique_keys(m.overrides),
        0 <= i < m.graph.nodes.len(),
        m.graph.nodes[i] matches NodeView::VideoBalance { output_id, .. } && output_id == id,
    ensures
        with_output_brightness(m, id, Some(level)).graph.nodes[i] == (NodeView::VideoBalance {
            output_id: id,
            gain: brightness_gain_of(level) as i64,
        }),
        with_master_brightness(
            with_output_brightness(m, id, Some(level)),
            master,
        ).graph.nodes[i] == with_output_brightness(m, id, Some(level)).graph.nodes[i],
{
    crate::id_map::lemma_put(m.overrides, id, Some(level), id);
}

/// Clearing the override of an output writes nothing, and the next write
/// of the master brightness sets each of the output's brightness gains to
/// the gain of the master level.
pub proof fn master_write_reaches_cleared_output(m: PlayerView, id: Seq<char>, master: u32, i: int)
    requires
        unique_keys(m.overrides),
        0 <= i < m.graph.nodes.len(),
        m.graph.nodes[i] matches NodeView::VideoBalance { output_id, .. } && output_id == id,
    ensures
        with_output_brightness(m, id, None).graph == m.graph,
        with_master_brightness(with_output_brightness(m, id, None), master).graph.nodes[i] == (
        NodeView::VideoBalance { output_id: id, gain: brightness_gain_of(master) as i64 }),
{
    crate::id_map::lemma_put(m.overrides, id, None::<u32>, id);
}

/// Setting an override and clearing it again: the writes of the master in
/// between do not reach the output, the write after the clearing does.
pub proof fn override_then_clear(
    m: PlayerView,
    id: Seq<char>,
    level: u32,
    during: u32,
    after: u32,
    i: int,
)
    requires
        unique_keys(m.overrides),
        0 <= i < m.graph.nodes.len(),
        m.graph.nodes[i] matches NodeView::VideoBalance { output_id, .. } && output_id == id,
    ensures
        ({
            let set = with_output_brightness(m, id, Some(level));
            let written = with_master_brightness(set, during);
            let cleared = with_output_brightness(written, id, None);
            let rewritten = with_master_brightness(cleared, after);
            &&& written.graph.nodes[i] == set.graph.nodes[i]
            &&& cleared.graph.nodes[i] == set.graph.nodes[i]
            &&& rewritten.graph.nodes[i] == (NodeView::VideoBalance {
                output_id: id,
                gain: brightness_gain_of(after) as i64,
            })
            &&& rewritten.master_brightness == after
        }),
{
    master_write_spares_overridden_output(m, id, level, during, i);
    let set = with_output_brightness(m, id, Some(level));
    let written = with_master_brightness(set, during);
    crate::id_map::lemma_put(m.overrides, id, Some(level), id);
    master_write_reaches_cleared_output(written, id, after, i);
}

} // verus!
