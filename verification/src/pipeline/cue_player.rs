//! The cue player: the engine that loads a cue into the graph and drives it.

use vstd::prelude::*;
use vstd::string::*;
use crate::error::{AppError, ErrorKind};
use crate::gain::{brightness_gain, brightness_gain_of, volume_gain, volume_gain_of};
use crate::id_map::{lemma_map_values, lemma_map_values_put, lookup, put, IdMap};
use crate::output::native_handle::{NativeHandle, Platform};
use crate::pipeline::forwarder::{
    forwarder_name_of, forwarder_needs_texture, forwarder_stamp, Forwarder,
};
use crate::pipeline::graph::{
    extended, with_gain, Branch, Graph, GraphView, Node, NodeView, PixelFormat,
};
use crate::pipeline::laws::{
    drop_keeps_well_formed, gain_keeps_well_formed, loaded_is_well_formed, pad_keeps_well_formed,
    publish_keeps_well_formed, sample_keeps_well_formed, teardown_and_transport_keep_well_formed,
    well_formed,
};
use crate::pipeline::media_handler::{
    add_media_item, forwarder_format, handle_pad_added, ndi_name, PadContext, PadOutcome,
};
use crate::pipeline::model::{
    after_drop, after_message, cut, after_pad, after_publish, after_sample, after_timeout,
    effective_brightness_of, first_missing, forwarder_views, gain_updates, graph_regained,
    initial_player, item_context, lemma_first_missing_extends, load_error, loaded, message_error,
    new_forwarder, pad_outcome, pad_views, position_of, preroll_error, prerolled,
    publish_upload, regained, sample_frame, selects, timeout_error, torn_down, with_forwarders,
    with_items, with_master_brightness, with_master_volume, with_output_brightness, LoadEnv,
    PlayerView,
};
use crate::pipeline::ndi_sender::{FlowError, FramePlan, NdiSender, Pulled};
use crate::pipeline::router::{
    binding_index, binding_views, bindings_of, build_outputs_with_monitors, find_binding,
    lemma_binding_index, recorded_overrides, OutputWithMonitor,
};
use crate::pipeline::syphon_sender::{SyphonSender, SyphonState, TextureUpload};
use crate::text::concat2;
use crate::types::{Cue, MonitorInfo, OutputTarget};
use crate::types::media::item_views;
use crate::types::output::output_views;

verus! {

/// The state of the graph.
#[derive(Debug, Clone, Copy, PartialEq, Eq, Structural)]
pub enum PipelineState {
    /// Nothing is loaded or playback was stopped.
    Null,
    /// A cue is loaded and its streams are being negotiated.
    Ready,
    /// The first frame is ready and playback is halted.
    Paused,
    /// The cue plays.
    Playing,
}

/// What to do when a bounded wait ends without acknowledgement.
#[derive(Debug, Clone, Copy, PartialEq, Eq, Structural)]
pub enum TimeoutPolicy {
    /// Go on as if the acknowledgement had come.
    Proceed,
    /// Fail the load.
    Fail,
}

/// How long a load waits for the graph to be prerolled, in milliseconds.
pub const PREROLL_TIMEOUT_MS: u64 = 5_000;

/// How long a load waits for its corrective seek, in milliseconds.
pub const SEEK_TIMEOUT_MS: u64 = 2_000;

/// The latency of a graph that feeds a frame forwarder, in milliseconds.
pub const LIVE_LATENCY_MS: u64 = 100;

/// A request to move the graph to another state.
#[derive(Debug, Clone, Copy, PartialEq, Eq, Structural)]
pub struct StateChange {
    pub target: PipelineState,
    /// How long to wait for the graph to get there, in milliseconds.
    pub wait_ms: u64,
}

/// A request to move playback to a position.
#[derive(Debug, Clone, Copy, PartialEq, Eq, Structural)]
pub struct SeekRequest {
    /// The position in nanoseconds.
    pub position_ns: u64,
    /// The graph drops what it holds for the old position.
    pub flush: bool,
    /// The graph goes to the exact position, not to the key frame before it.
    pub accurate: bool,
}

/// A gain to write into a node of the graph.
#[derive(Debug, Clone, Copy, PartialEq, Eq, Structural)]
pub struct GainUpdate {
    pub node: usize,
    /// The gain in millionths.
    pub gain: i64,
}

/// What stands for a weak reference to the graph in the hands of a decoder:
/// the generation of the graph it belongs to and the number of its item.
#[derive(Debug, Clone, Copy, PartialEq, Eq, Structural)]
pub struct PadTicket {
    pub generation: u64,
    pub item: usize,
}

/// A message from the graph's bus, as far as a load looks at it.
#[derive(Debug, PartialEq, Eq)]
pub enum BusMessage {
    /// The graph has settled in the state that was asked for.
    AsyncDone,
    /// A hard error, with its text.
    Error(String),
    /// A warning, with its text.
    Warning(String),
    /// Some node changed its state.
    StateChanged,
    /// Anything else.
    Other,
}

/// A bus message with its text as characters.
pub enum BusMessageView {
    AsyncDone,
    Error(Seq<char>),
    Warning(Seq<char>),
    StateChanged,
    Other,
}

impl View for BusMessage {
    type V = BusMessageView;

    open spec fn view(&self) -> BusMessageView {
        match self {
            BusMessage::AsyncDone => BusMessageView::AsyncDone,
            BusMessage::Error(t) => BusMessageView::Error(t@),
            BusMessage::Warning(t) => BusMessageView::Warning(t@),
            BusMessage::StateChanged => BusMessageView::StateChanged,
            BusMessage::Other => BusMessageView::Other,
        }
    }
}

/// The views of a sequence of bus messages.
pub open spec fn message_views(messages: Seq<BusMessage>) -> Seq<BusMessageView> {
    Seq::new(messages.len(), |i: int| messages[i]@)
}

/// What a load does after a bus message.
#[derive(Debug, PartialEq, Eq)]
pub enum PrerollStep {
    /// Wait for the next message.
    Continue,
    /// The graph is prerolled.
    Complete,
    /// The load has failed.
    Fail(AppError),
}

/// Which nodes a change of gain is for.
#[derive(Debug, Clone, Copy, PartialEq, Eq, Structural)]
pub enum GainKind {
    /// The brightness gains of the outputs that follow the master.
    MasterBrightness,
    /// The brightness gains of one output.
    OutputBrightness,
    /// Every volume gain.
    Volume,
}

/// The cue player: one graph, rebuilt in full on every load.
pub struct CuePlayer {
    platform: Platform,
    timeout_policy: TimeoutPolicy,
    state: PipelineState,
    generation: u64,
    latency_ms: u64,
    graph: Graph,
    pads: Vec<PadContext>,
    forwarders: IdMap<Forwarder>,
    appsinks: IdMap<usize>,
    master_brightness: u32,
    master_volume: u32,
    output_brightness: IdMap<Option<u32>>,
    last_branch: Option<Branch>,
}

impl View for CuePlayer {
    type V = PlayerView;

    closed spec fn view(&self) -> PlayerView {
        PlayerView {
            platform: self.platform,
            timeout_policy: self.timeout_policy,
            state: self.state,
            generation: self.generation,
            latency_ms: self.latency_ms,
            graph: self.graph@,
            pads: pad_views(self.pads@),
            forwarders: forwarder_views(self.forwarders@),
            appsinks: self.appsinks@,
            master_brightness: self.master_brightness,
            master_volume: self.master_volume,
            overrides: self.output_brightness@,
            last_branch: self.last_branch,
        }
    }
}

/// What is said when a state change is refused.
pub open spec fn transport_text(target: PipelineState) -> Seq<char> {
    match target {
        PipelineState::Playing => "Failed to play: "@,
        PipelineState::Paused => "Failed to pause: "@,
        PipelineState::Null => "Failed to stop: "@,
        PipelineState::Ready => "Failed to reset pipeline: "@,
    }
}

/// The error for a state change that the graph refused.
pub fn transport_error(target: PipelineState, detail: &str) -> (e: AppError)
    ensures
        e@.kind == ErrorKind::Pipeline,
        e@.detail == transport_text(target) + detail@,
{
    let text = match target {
        PipelineState::Playing => "Failed to play: ",
        PipelineState::Paused => "Failed to pause: ",
        PipelineState::Null => "Failed to stop: ",
        PipelineState::Ready => "Failed to reset pipeline: ",
    };
    AppError::Pipeline(concat2(text, detail))
}

impl CuePlayer {
    /// An engine with nothing loaded, neutral brightness and full volume.
    pub fn new(platform: Platform) -> (p: Self)
        ensures
            p@ == initial_player(platform),
            well_formed(p@),
    {
        let p = CuePlayer {
            platform,
            timeout_policy: TimeoutPolicy::Proceed,
            state: PipelineState::Null,
            generation: 0,
            latency_ms: 0,
            graph: Graph::new(),
            pads: Vec::new(),
            forwarders: IdMap::new(),
            appsinks: IdMap::new(),
            master_brightness: 100_000,
            master_volume: 100_000,
            output_brightness: IdMap::new(),
            last_branch: None,
        };
        assert(p@.pads =~= Seq::empty());
        assert(p@.forwarders =~= Seq::empty());
        p
    }

    /// Chooses what a load does when its bounded wait for the preroll ends
    /// without acknowledgement.
    pub fn set_timeout_policy(&mut self, policy: TimeoutPolicy)
        ensures
            final(self)@ == (PlayerView { timeout_policy: policy, ..old(self)@ }),
            well_formed(old(self)@) ==> well_formed(final(self)@),
    {
        proof {
            if well_formed(self@) {
                teardown_and_transport_keep_well_formed(self@, self@.state, policy);
            }
        }
        self.timeout_policy = policy;
    }

    /// The graph as it is now.
    pub fn graph(&self) -> (g: &Graph)
        ensures
            g@ == self@.graph,
    {
        &self.graph
    }

    /// The target latency of the graph in milliseconds; zero is the default.
    pub fn latency_ms(&self) -> (ms: u64)
        ensures
            ms == self@.latency_ms,
    {
        self.latency_ms
    }

    /// The generation of the graph.
    pub fn generation(&self) -> (g: u64)
        ensures
            g == self@.generation,
    {
        self.generation
    }

    /// The number of media items of the loaded cue.
    pub fn item_count(&self) -> (n: usize)
        ensures
            n == self@.pads.len(),
    {
        self.pads.len()
    }

    /// The context of a media item of the loaded cue, if the cue has that
    /// many items.
    pub fn pad_context(&self, item: usize) -> (ctx: Option<&PadContext>)
        ensures
            match ctx {
                Some(c) => item < self@.pads.len() && c@ == self@.pads[item as int],
                None => item >= self@.pads.len(),
            },
    {
        if item < self.pads.len() {
            Some(&self.pads[item])
        } else {
            None
        }
    }

    /// The ticket that the decoder of a media item presents when it reports a
    /// stream.
    pub fn pad_ticket(&self, item: usize) -> (ticket: PadTicket)
        ensures
            ticket == (PadTicket { generation: self@.generation, item }),
    {
        PadTicket { generation: self.generation, item }
    }

    /// Tears the graph down: the engine goes to its null state, every node,
    /// forwarder and pending stream is removed, and what still refers to
    /// the old graph becomes stale.
    pub fn reset_pipeline(&mut self)
        ensures
            final(self)@ == torn_down(old(self)@),
            well_formed(final(self)@),
    {
        self.output_brightness.ids_are_unique();
        self.state = PipelineState::Null;
        self.generation = if self.generation == u64::MAX {
            0
        } else {
            self.generation + 1
        };
        self.latency_ms = 0;
        self.graph.clear();
        self.pads = Vec::new();
        self.forwarders.clear();
        self.appsinks.clear();
        self.last_branch = None;
        assert(self@.pads =~= Seq::empty());
        assert(self@.forwarders =~= Seq::empty());
    }

    /// Gives up a load that could not be carried out: the graph is torn down
    /// and the error is handed back for the caller to return.
    pub fn abort_load(&mut self, error: AppError) -> (e: AppError)
        ensures
            final(self)@ == torn_down(old(self)@),
            e == error,
            well_formed(final(self)@),
    {
        self.reset_pipeline();
        error
    }

    /// The brightness level in effect for an output: its override where it
    /// has one, else the master level.
    pub fn get_effective_brightness(&self, output_id: &str) -> (level: u32)
        ensures
            level == effective_brightness_of(
                self@.overrides,
                self@.master_brightness,
                output_id@,
            ),
    {
        match self.output_brightness.get(output_id) {
            Some(Some(level)) => *level,
            _ => self.master_brightness,
        }
    }

    /// Makes the frame forwarder of an output and its ingestion sink.
    fn setup_ndi_sender(&mut self, owm: &OutputWithMonitor, format: PixelFormat)
        ensures
            final(self)@ == (PlayerView {
                graph: extended(
                    old(self)@.graph,
                    seq![NodeView::ForwarderSink { output_id: owm@.output.id, format }],
                    Seq::empty(),
                ),
                forwarders: put(
                    old(self)@.forwarders,
                    owm@.output.id,
                    new_forwarder(owm@, format),
                ),
                appsinks: put(
                    old(self)@.appsinks,
                    owm@.output.id,
                    old(self)@.graph.nodes.len() as usize,
                ),
                ..old(self)@
            }),
    {
        let forwarder = match format {
            PixelFormat::Uyvy => {
                let name = ndi_name(owm);
                let mut sender = NdiSender::new(name.as_str());
                let _ = sender.create_appsink();
                Forwarder::Ndi(sender)
            },
            PixelFormat::Rgba => {
                let name = match &owm.output.syphon_name {
                    Some(n) => n.clone(),
                    None => String::from_str("TauriLivePlayer"),
                };
                let mut sender = SyphonSender::new(name.as_str(), None);
                let _ = sender.create_appsink();
                Forwarder::Syphon(sender)
            },
        };
        assert(forwarder@ == new_forwarder(owm@, format));
        let appsink = self.graph.add_node(
            Node::ForwarderSink { output_id: owm.output.id.clone(), format },
        );
        self.forwarders.ids_are_unique();
        proof {
            lemma_map_values_put(
                self.forwarders@,
                |f: Forwarder| f@,
                owm@.output.id,
                forwarder,
            );
        }
        self.forwarders.insert(owm.output.id.clone(), forwarder);
        self.appsinks.insert(owm.output.id.clone(), appsink);
    }

    /// Raises the latency of the graph where it feeds a frame forwarder.
    fn configure_live_mode(&mut self)
        ensures
            final(self)@ == (PlayerView {
                latency_ms: if old(self)@.forwarders.len() > 0 {
                    100
                } else {
                    0
                },
                ..old(self)@
            }),
    {
        self.latency_ms = if self.forwarders.len() > 0 {
            LIVE_LATENCY_MS
        } else {
            0
        };
    }

    /// Loads a cue. The graph that was there is torn down first, and each
    /// output's brightness override is recorded. Every media item's output
    /// is looked up before anything is built: where one is missing the load
    /// fails and leaves the engine in its null state with an empty graph.
    /// Else the forwarders of the outputs and, for each item, a file source
    /// linked to a decoder are put into the graph, and the engine
    /// negotiates until the preroll has been seen.
    #[verifier::loop_isolation(false)]
    pub fn load_cue(
        &mut self,
        cue: &Cue,
        outputs: &Vec<OutputTarget>,
        monitors: &Vec<MonitorInfo>,
        native_handles: &IdMap<NativeHandle>,
    ) -> (result: Result<(), AppError>)
        ensures
            final(self)@ == loaded(
                old(self)@,
                cue@,
                output_views(outputs@),
                monitors@,
                native_handles@,
            ),
            match result {
                Ok(_) => load_error(
                    cue@.items,
                    bindings_of(output_views(outputs@), monitors@, native_handles@),
                ) is None,
                Err(e) => load_error(
                    cue@.items,
                    bindings_of(output_views(outputs@), monitors@, native_handles@),
                ) == Some(e@),
            },
            well_formed(final(self)@),
    {
        self.output_brightness.ids_are_unique();
        let ghost m0 = self@;
        let ghost bv = bindings_of(output_views(outputs@), monitors@, native_handles@);
        let ghost items = cue@.items;
        self.reset_pipeline();
        let bindings = build_outputs_with_monitors(
            &mut self.output_brightness,
            outputs,
            monitors,
            native_handles,
        );
        let ghost reset = self@;
        assert(reset == (PlayerView {
            overrides: recorded_overrides(m0.overrides, output_views(outputs@)),
            ..torn_down(m0)
        }));

        // Look every item's output up before anything is built.
        let mut resolved: Vec<usize> = Vec::new();
        let mut i: usize = 0;
        assert(items.take(0) =~= Seq::empty());
        while i < cue.items.len()
            invariant
                i <= cue.items.len(),
                items == item_views(cue.items@),
                bv == binding_views(bindings@),
                resolved.len() == i,
                first_missing(items.take(i as int), bv) is None,
                forall|k: int|
                    0 <= k < i ==> binding_index(bv, items[k].output_id) == Some(
                        #[trigger] resolved[k] as int,
                    ),
                self@ == reset,
            decreases cue.items.len() - i,
        {
            proof {
                let next = items.take(i as int + 1);
                assert(next.drop_last() =~= items.take(i as int));
                assert(next.last() == items[i as int]);
            }
            match find_binding(&bindings, cue.items[i].output_id.as_str()) {
                Some(b) => {
                    resolved.push(b);
                },
                None => {
                    proof {
                        lemma_first_missing_extends(items, bv, i as int + 1);
                        loaded_is_well_formed(
                            m0,
                            cue@,
                            output_views(outputs@),
                            monitors@,
                            native_handles@,
                        );
                    }
                    return Err(
                        AppError::NotFound(
                            concat2("Output not found: ", cue.items[i].output_id.as_str()),
                        ),
                    );
                },
            }
            i = i + 1;
        }
        assert(items.take(cue.items.len() as int) =~= items);

        // The forwarders of the outputs.
        let mut j: usize = 0;
        assert(bv.take(0) =~= Seq::empty());
        while j < bindings.len()
            invariant
                j <= bindings.len(),
                bv == binding_views(bindings@),
                self@ == (PlayerView {
                    graph: with_forwarders(bv.take(j as int), reset.platform).graph,
                    forwarders: with_forwarders(bv.take(j as int), reset.platform).forwarders,
                    appsinks: with_forwarders(bv.take(j as int), reset.platform).appsinks,
                    ..reset
                }),
            decreases bindings.len() - j,
        {
            proof {
                let next = bv.take(j as int + 1);
                assert(next.drop_last() =~= bv.take(j as int));
                assert(next.last() == bindings[j as int]@);
            }
            match forwarder_format(bindings[j].output.output_type, self.platform) {
                Some(format) => {
                    self.setup_ndi_sender(&bindings[j], format);
                },
                None => {},
            }
            j = j + 1;
        }
        assert(bv.take(bindings.len() as int) =~= bv);
        let ghost staged = with_forwarders(bv, reset.platform);
        let ghost env = LoadEnv {
            platform: reset.platform,
            generation: reset.generation,
            bindings: bv,
            appsinks: staged.appsinks,
            overrides: reset.overrides,
            master_brightness: reset.master_brightness,
        };

        // The media items.
        let mut k: usize = 0;
        assert(items.take(0) =~= Seq::empty());
        assert(self@.pads =~= with_items(staged.graph, items.take(0), env).pads);
        while k < cue.items.len()
            invariant
                k <= cue.items.len(),
                items == item_views(cue.items@),
                bv == binding_views(bindings@),
                resolved.len() == cue.items.len(),
                forall|n: int|
                    0 <= n < cue.items.len() ==> binding_index(bv, items[n].output_id) == Some(
                        #[trigger] resolved[n] as int,
                    ),
                env == (LoadEnv {
                    platform: reset.platform,
                    generation: reset.generation,
                    bindings: bv,
                    appsinks: staged.appsinks,
                    overrides: reset.overrides,
                    master_brightness: reset.master_brightness,
                }),
                self@ == (PlayerView {
                    graph: with_items(staged.graph, items.take(k as int), env).graph,
                    pads: with_items(staged.graph, items.take(k as int), env).pads,
                    forwarders: staged.forwarders,
                    appsinks: staged.appsinks,
                    ..reset
                }),
            decreases cue.items.len() - k,
        {
            proof {
                let next = items.take(k as int + 1);
                assert(next.drop_last() =~= items.take(k as int));
                assert(next.last() == items[k as int]);
                lemma_binding_index(bv, items[k as int].output_id);
            }
            let item = &cue.items[k];
            let b: usize = resolved[k];
            let owm = &bindings[b];
            let brightness = self.get_effective_brightness(owm.output.id.as_str());
            let appsink = match forwarder_format(owm.output.output_type, self.platform) {
                Some(_) => match self.appsinks.get(owm.output.id.as_str()) {
                    Some(index) => Some(*index),
                    None => None,
                },
                None => None,
            };
            let ghost before = self@;
            let ctx = add_media_item(
                &mut self.graph,
                self.generation,
                item,
                owm,
                brightness,
                appsink,
            );
            assert(ctx@ == item_context(before.graph, items[k as int], env));
            self.pads.push(ctx);
            assert(self@.pads =~= before.pads.push(ctx@));
            k = k + 1;
        }
        assert(items.take(cue.items.len() as int) =~= items);
        self.configure_live_mode();
        self.state = PipelineState::Ready;
        let nodes: usize = self.graph.node_count();
        proof {
            loaded_is_well_formed(
                m0,
                cue@,
                output_views(outputs@),
                monitors@,
                native_handles@,
            );
        }
        Ok(())
    }

    /// Looks at one message of the bus while the engine negotiates. The
    /// acknowledgement completes the preroll and the engine is paused; a hard
    /// error fails the load and tears the graph down; warnings and all other
    /// messages are passed over. An engine that does not negotiate passes
    /// every message over.
    pub fn preroll_message(&mut self, message: &BusMessage) -> (step: PrerollStep)
        ensures
            final(self)@ == after_message(old(self)@, message@),
            match step {
                PrerollStep::Continue => final(self)@.state == old(self)@.state,
                PrerollStep::Complete => old(self)@.state == PipelineState::Ready
                    && message@ is AsyncDone,
                PrerollStep::Fail(e) => message_error(old(self)@, message@) == Some(e@),
            },
            message_error(old(self)@, message@) is Some ==> step is Fail,
            old(self)@.state == PipelineState::Ready && message@ is AsyncDone ==> step is Complete,
            well_formed(old(self)@) ==> well_formed(final(self)@),
    {
        proof {
            if well_formed(self@) {
                teardown_and_transport_keep_well_formed(
                    self@,
                    self@.state,
                    self@.timeout_policy,
                );
            }
        }
        match self.state {
            PipelineState::Ready => {},
            _ => {
                return PrerollStep::Continue;
            },
        }
        match message {
            BusMessage::AsyncDone => {
                self.state = PipelineState::Paused;
                PrerollStep::Complete
            },
            BusMessage::Error(text) => {
                self.reset_pipeline();
                PrerollStep::Fail(AppError::Pipeline(concat2("Pipeline error: ", text.as_str())))
            },
            _ => PrerollStep::Continue,
        }
    }

    /// Ends the wait for the preroll without acknowledgement: by the
    /// engine's policy the load goes on with a paused engine or fails with
    /// its graph torn down.
    pub fn preroll_timeout(&mut self) -> (result: Result<(), AppError>)
        ensures
            final(self)@ == after_timeout(old(self)@),
            match result {
                Ok(_) => timeout_error(old(self)@) is None,
                Err(e) => timeout_error(old(self)@) == Some(e@),
            },
            well_formed(old(self)@) ==> well_formed(final(self)@),
    {
        proof {
            if well_formed(self@) {
                teardown_and_transport_keep_well_formed(
                    self@,
                    self@.state,
                    self@.timeout_policy,
                );
            }
        }
        match self.state {
            PipelineState::Ready => {},
            _ => {
                return Ok(());
            },
        }
        match self.timeout_policy {
            TimeoutPolicy::Proceed => {
                self.state = PipelineState::Paused;
                Ok(())
            },
            TimeoutPolicy::Fail => {
                self.reset_pipeline();
                Err(AppError::Timeout(String::from_str("Preroll did not complete within 5000 ms")))
            },
        }
    }

    /// Prerolls the graph from the messages that the bus gave within the
    /// bounded wait, in order: the first acknowledgement completes the
    /// preroll, a hard error before it fails the load, and where neither
    /// comes the wait has run out.
    pub fn preroll_pipeline(&mut self, messages: &Vec<BusMessage>) -> (result: Result<(), AppError>)
        ensures
            final(self)@ == prerolled(old(self)@, message_views(messages@)),
            match result {
                Ok(_) => preroll_error(old(self)@, message_views(messages@)) is None,
                Err(e) => preroll_error(old(self)@, message_views(messages@)) == Some(e@),
            },
            well_formed(old(self)@) ==> well_formed(final(self)@),
    {
        let ghost all = message_views(messages@);
        let mut i: usize = 0;
        assert(all.skip(0) =~= all);
        while i < messages.len()
            invariant
                i <= messages.len(),
                all == message_views(messages@),
                prerolled(old(self)@, all) == prerolled(self@, all.skip(i as int)),
                preroll_error(old(self)@, all) == preroll_error(self@, all.skip(i as int)),
                well_formed(old(self)@) ==> well_formed(self@),
            decreases messages.len() - i,
        {
            proof {
                let rest = all.skip(i as int);
                assert(rest[0] == messages[i as int]@);
                assert(rest.drop_first() =~= all.skip(i as int + 1));
            }
            let ghost before = self@;
            match self.preroll_message(&messages[i]) {
                PrerollStep::Continue => {},
                PrerollStep::Complete => {
                    proof {
                        assert(before.state == PipelineState::Ready);
                        assert(prerolled(self@, all.skip(i as int + 1)) == self@);
                        assert(preroll_error(self@, all.skip(i as int + 1)) is None);
                    }
                    return Ok(());
                },
                PrerollStep::Fail(e) => {
                    proof {
                        assert(before.state == PipelineState::Ready);
                        assert(prerolled(self@, all.skip(i as int + 1)) == self@);
                    }
                    return Err(e);
                },
            }
            i = i + 1;
        }
        assert(all.skip(messages.len() as int) =~= Seq::empty());
        self.preroll_timeout()
    }

    /// Decides on the corrective seek after the preroll: where the graph
    /// reports a position other than zero, one flushing, accurate seek to
    /// zero, so that positions are counted from zero.
    pub fn adjust_initial_position(&self, position: Option<u64>) -> (seek: Option<SeekRequest>)
        ensures
            seek == match position {
                Some(p) => if p > 0 {
                    Some(SeekRequest { position_ns: 0, flush: true, accurate: true })
                } else {
                    None
                },
                None => None,
            },
    {
        match position {
            Some(p) => if p > 0 {
                Some(SeekRequest { position_ns: 0, flush: true, accurate: true })
            } else {
                None
            },
            None => None,
        }
    }

    /// Writes a gain into the nodes that a change of gain is for.
    fn apply_gain(&mut self, kind: GainKind, id: &str, gain: i64) -> (updates: Vec<GainUpdate>)
        ensures
            final(self)@ == (PlayerView {
                graph: graph_regained(old(self)@.graph, kind, id@, old(self)@.overrides, gain),
                ..old(self)@
            }),
            updates@ == gain_updates(old(self)@.graph.nodes, kind, id@, old(self)@.overrides, gain),
            well_formed(old(self)@) ==> well_formed(final(self)@),
    {
        proof {
            if well_formed(self@) {
                gain_keeps_well_formed(self@, kind, id@, self@.overrides, gain, 0, None);
            }
        }
        let ghost m0 = self@;
        let ghost nodes0 = self@.graph.nodes;
        let wanted = String::from_str(id);
        let mut updates: Vec<GainUpdate> = Vec::new();
        let count: usize = self.graph.node_count();
        let mut i: usize = 0;
        assert(nodes0.take(0) =~= Seq::empty());
        while i < count
            invariant
                i <= count,
                count == nodes0.len(),
                wanted@ == id@,
                nodes0 == m0.graph.nodes,
                self@ == (PlayerView {
                    graph: GraphView { nodes: self@.graph.nodes, links: m0.graph.links },
                    ..m0
                }),
                self@.graph.nodes.len() == count,
                forall|k: int|
                    0 <= k < count ==> #[trigger] self@.graph.nodes[k] == if k < i && selects(
                        kind,
                        id@,
                        m0.overrides,
                        nodes0[k],
                    ) {
                        with_gain(nodes0[k], gain)
                    } else {
                        nodes0[k]
                    },
                updates@ == gain_updates(nodes0.take(i as int), kind, id@, m0.overrides, gain),
            decreases count - i,
        {
            proof {
                let next = nodes0.take(i as int + 1);
                assert(next.drop_last() =~= nodes0.take(i as int));
                assert(next.last() == nodes0[i as int]);
                assert(self@.graph.nodes[i as int] == nodes0[i as int]);
            }
            let selected = match self.graph.node(i) {
                Some(Node::VideoBalance { output_id, .. }) => match kind {
                    GainKind::MasterBrightness => match self.output_brightness.get(
                        output_id.as_str(),
                    ) {
                        Some(Some(_)) => false,
                        _ => true,
                    },
                    GainKind::OutputBrightness => *output_id == wanted,
                    GainKind::Volume => false,
                },
                Some(Node::Volume { .. }) => match kind {
                    GainKind::Volume => true,
                    _ => false,
                },
                _ => false,
            };
            assert(selected == selects(kind, id@, m0.overrides, nodes0[i as int]));
            if selected {
                self.graph.set_gain(i, gain);
                updates.push(GainUpdate { node: i, gain });
            }
            i = i + 1;
        }
        proof {
            assert(nodes0.take(count as int) =~= nodes0);
            assert(self@.graph.nodes =~= regained(nodes0, kind, id@, m0.overrides, gain));
        }
        updates
    }

    /// Writes the master volume into every volume gain; they are made at
    /// unity.
    pub fn apply_master_volume(&mut self) -> (updates: Vec<GainUpdate>)
        ensures
            final(self)@ == with_master_volume(old(self)@, old(self)@.master_volume),
            updates@ == gain_updates(
                old(self)@.graph.nodes,
                GainKind::Volume,
                Seq::empty(),
                old(self)@.overrides,
                volume_gain_of(old(self)@.master_volume) as i64,
            ),
            well_formed(old(self)@) ==> well_formed(final(self)@),
    {
        let gain = volume_gain(self.master_volume);
        proof {
            reveal_strlit("");
        }
        let updates = self.apply_gain(GainKind::Volume, "", gain);
        assert(""@ =~= Seq::<char>::empty());
        updates
    }

    /// Sets the master brightness, in thousandths. Outputs with a
    /// brightness override keep their gain.
    pub fn set_master_brightness(&mut self, value: u32) -> (updates: Vec<GainUpdate>)
        ensures
            final(self)@ == with_master_brightness(old(self)@, value),
            updates@ == gain_updates(
                old(self)@.graph.nodes,
                GainKind::MasterBrightness,
                Seq::empty(),
                old(self)@.overrides,
                brightness_gain_of(value) as i64,
            ),
            well_formed(old(self)@) ==> well_formed(final(self)@),
    {
        self.master_brightness = value;
        let gain = brightness_gain(value);
        proof {
            reveal_strlit("");
        }
        let updates = self.apply_gain(GainKind::MasterBrightness, "", gain);
        assert(""@ =~= Seq::<char>::empty());
        updates
    }

    /// Sets or clears the brightness override of one output, in
    /// thousandths. A level is written into the output's brightness gains at
    /// once. Clearing writes nothing: the output follows the master from the
    /// next write of the master on.
    pub fn set_output_brightness(&mut self, output_id: &str, value: Option<u32>) -> (updates: Vec<
        GainUpdate,
    >)
        ensures
            final(self)@ == with_output_brightness(old(self)@, output_id@, value),
            updates@ == match value {
                Some(level) => gain_updates(
                    old(self)@.graph.nodes,
                    GainKind::OutputBrightness,
                    output_id@,
                    old(self)@.overrides,
                    brightness_gain_of(level) as i64,
                ),
                None => Seq::empty(),
            },
            well_formed(old(self)@) ==> well_formed(final(self)@),
    {
        proof {
            if well_formed(self@) {
                gain_keeps_well_formed(
                    self@,
                    GainKind::OutputBrightness,
                    output_id@,
                    self@.overrides,
                    0,
                    0,
                    value,
                );
            }
        }
        let updates = match value {
            Some(level) => {
                let gain = brightness_gain(level);
                self.apply_gain(GainKind::OutputBrightness, output_id, gain)
            },
            None => Vec::new(),
        };
        self.output_brightness.insert(String::from_str(output_id), value);
        updates
    }

    /// Sets the master volume, in thousandths, and writes it into every
    /// volume gain.
    pub fn set_master_volume(&mut self, value: u32) -> (updates: Vec<GainUpdate>)
        ensures
            final(self)@ == with_master_volume(old(self)@, value),
            updates@ == gain_updates(
                old(self)@.graph.nodes,
                GainKind::Volume,
                Seq::empty(),
                old(self)@.overrides,
                volume_gain_of(value) as i64,
            ),
            well_formed(old(self)@) ==> well_formed(final(self)@),
    {
        self.master_volume = value;
        self.apply_master_volume()
    }

    /// Takes in a stream that the decoder of a media item has reported.
    /// `caps` is the name of the stream's negotiated media type. A ticket
    /// from before the last load is stale and nothing is done.
    pub fn pad_added(&mut self, ticket: PadTicket, caps: Option<&str>) -> (outcome: PadOutcome)
        ensures
            final(self)@ == after_pad(
                old(self)@,
                ticket,
                match caps {
                    Some(c) => Some(c@),
                    None => None,
                },
            ),
            outcome == pad_outcome(
                old(self)@,
                ticket,
                match caps {
                    Some(c) => Some(c@),
                    None => None,
                },
            ),
            well_formed(old(self)@) ==> well_formed(final(self)@),
    {
        if ticket.generation != self.generation || ticket.item >= self.pads.len() {
            return PadOutcome::Ignored;
        }
        let outcome = handle_pad_added(
            &mut self.graph,
            self.generation,
            &self.pads[ticket.item],
            self.platform,
            caps,
        );
        match outcome {
            PadOutcome::Attached(branch) => {
                self.last_branch = Some(branch);
            },
            _ => {},
        }
        let nodes: usize = self.graph.node_count();
        let links: usize = self.graph.link_count();
        proof {
            if well_formed(old(self)@) {
                pad_keeps_well_formed(
                    old(self)@,
                    ticket,
                    match caps {
                        Some(c) => Some(c@),
                        None => None,
                    },
                );
            }
        }
        outcome
    }

    /// Takes back the branch that the last attachment added, where it could
    /// not be built: the graph is cut back to what it held before the branch.
    /// Any other branch, and the same branch a second time, changes nothing.
    pub fn drop_branch(&mut self, branch: Branch)
        ensures
            final(self)@ == after_drop(old(self)@, branch),
            well_formed(old(self)@) ==> well_formed(final(self)@),
    {
        proof {
            if well_formed(self@) {
                drop_keeps_well_formed(self@, branch);
            }
        }
        let last = match self.last_branch {
            Some(b) => b.first_node == branch.first_node && b.node_count == branch.node_count
                && b.first_link == branch.first_link && b.link_count == branch.link_count,
            None => false,
        };
        if last && branch.first_node <= self.graph.node_count() && branch.first_link
            <= self.graph.link_count() {
            self.graph.discard_branch(branch);
            self.last_branch = None;
            assert(self@.graph == cut(old(self)@.graph, branch));
        }
    }

    /// Takes in what was pulled from the ingestion sink of an output's
    /// forwarder: the forwarder stamps the frame and plans what to send. An
    /// output without a forwarder gives an error.
    pub fn handle_new_sample(&mut self, output_id: &str, pulled: &Pulled) -> (frame: Result<
        FramePlan,
        FlowError,
    >)
        ensures
            final(self)@ == after_sample(old(self)@, output_id@, *pulled),
            frame == sample_frame(old(self)@, output_id@, *pulled),
            well_formed(old(self)@) ==> well_formed(final(self)@),
    {
        proof {
            if well_formed(self@) {
                sample_keeps_well_formed(self@, output_id@, *pulled);
            }
        }
        self.forwarders.ids_are_unique();
        proof {
            lemma_map_values(self.forwarders@, |f: Forwarder| f@, output_id@);
        }
        let mut forwarder = match self.forwarders.get(output_id) {
            Some(f) => f.clone(),
            None => {
                return Err(FlowError::Error);
            },
        };
        let frame = forwarder.handle_new_sample(pulled);
        proof {
            lemma_map_values_put(self.forwarders@, |f: Forwarder| f@, output_id@, forwarder);
        }
        self.forwarders.insert(String::from_str(output_id), forwarder);
        frame
    }

    /// The name under which the forwarder of an output publishes, if the
    /// output has a forwarder.
    pub fn forwarder_name(&self, output_id: &str) -> (name: Option<String>)
        ensures
            match lookup(self@.forwarders, output_id@) {
                Some(f) => name matches Some(n) && n@ == forwarder_name_of(f),
                None => name is None,
            },
    {
        self.forwarders.ids_are_unique();
        proof {
            lemma_map_values(self.forwarders@, |f: Forwarder| f@, output_id@);
        }
        match self.forwarders.get(output_id) {
            Some(f) => Some(f.name().clone()),
            None => None,
        }
    }

    /// Whether the forwarder of an output still needs its texture before it
    /// can publish a frame.
    pub fn needs_texture(&self, output_id: &str) -> (b: bool)
        ensures
            b == match lookup(self@.forwarders, output_id@) {
                Some(f) => forwarder_needs_texture(f),
                None => false,
            },
    {
        self.forwarders.ids_are_unique();
        proof {
            lemma_map_values(self.forwarders@, |f: Forwarder| f@, output_id@);
        }
        match self.forwarders.get(output_id) {
            Some(f) => f.needs_texture(),
            None => false,
        }
    }

    /// Plans the upload of a planned frame into the texture of an output's
    /// forwarder. `fresh` is the texture that was made for this frame where
    /// the forwarder had none. An output without a texture share gives an
    /// error.
    pub fn publish_texture(
        &mut self,
        output_id: &str,
        frame: &FramePlan,
        fresh: Option<SyphonState>,
    ) -> (upload: Result<TextureUpload, FlowError>)
        ensures
            final(self)@ == after_publish(old(self)@, output_id@, *frame, fresh),
            upload == publish_upload(old(self)@, output_id@, *frame, fresh),
            well_formed(old(self)@) ==> well_formed(final(self)@),
    {
        proof {
            if well_formed(self@) {
                publish_keeps_well_formed(self@, output_id@, *frame, fresh);
            }
        }
        self.forwarders.ids_are_unique();
        proof {
            lemma_map_values(self.forwarders@, |f: Forwarder| f@, output_id@);
        }
        let mut forwarder = match self.forwarders.get(output_id) {
            Some(f) => f.clone(),
            None => {
                return Err(FlowError::Error);
            },
        };
        let upload = forwarder.publish(frame, fresh);
        proof {
            lemma_map_values_put(self.forwarders@, |f: Forwarder| f@, output_id@, forwarder);
        }
        self.forwarders.insert(String::from_str(output_id), forwarder);
        upload
    }

    /// The stamp of the last frame that the forwarder of an output
    /// delivered, if the output has a forwarder.
    pub fn forwarder_position(&self, output_id: &str) -> (stamp: Option<u64>)
        ensures
            stamp == match lookup(self@.forwarders, output_id@) {
                Some(f) => Some(forwarder_stamp(f)),
                None => None,
            },
    {
        self.forwarders.ids_are_unique();
        proof {
            lemma_map_values(self.forwarders@, |f: Forwarder| f@, output_id@);
        }
        match self.forwarders.get(output_id) {
            Some(f) => Some(f.last_pts_ns()),
            None => None,
        }
    }

    /// Starts playback. Playing again changes nothing.
    pub fn play(&mut self) -> (change: StateChange)
        ensures
            final(self)@ == (PlayerView { state: PipelineState::Playing, ..old(self)@ }),
            change == (StateChange { target: PipelineState::Playing, wait_ms: 100 }),
            well_formed(old(self)@) ==> well_formed(final(self)@),
    {
        proof {
            if well_formed(self@) {
                teardown_and_transport_keep_well_formed(
                    self@,
                    PipelineState::Playing,
                    self@.timeout_policy,
                );
            }
        }
        self.state = PipelineState::Playing;
        StateChange { target: PipelineState::Playing, wait_ms: 100 }
    }

    /// Halts playback at the current position. Pausing again changes
    /// nothing.
    pub fn pause(&mut self) -> (change: StateChange)
        ensures
            final(self)@ == (PlayerView { state: PipelineState::Paused, ..old(self)@ }),
            change == (StateChange { target: PipelineState::Paused, wait_ms: 2_000 }),
            well_formed(old(self)@) ==> well_formed(final(self)@),
    {
        proof {
            if well_formed(self@) {
                teardown_and_transport_keep_well_formed(
                    self@,
                    PipelineState::Paused,
                    self@.timeout_policy,
                );
            }
        }
        self.state = PipelineState::Paused;
        StateChange { target: PipelineState::Paused, wait_ms: 2_000 }
    }

    /// Stops playback: the graph goes to its null state and keeps its nodes.
    /// Stopping again changes nothing.
    pub fn stop(&mut self) -> (change: StateChange)
        ensures
            final(self)@ == (PlayerView { state: PipelineState::Null, ..old(self)@ }),
            change == (StateChange { target: PipelineState::Null, wait_ms: 100 }),
            well_formed(old(self)@) ==> well_formed(final(self)@),
    {
        proof {
            if well_formed(self@) {
                teardown_and_transport_keep_well_formed(
                    self@,
                    PipelineState::Null,
                    self@.timeout_policy,
                );
            }
        }
        self.state = PipelineState::Null;
        StateChange { target: PipelineState::Null, wait_ms: 100 }
    }

    /// Asks for playback at a position, in nanoseconds. The seek flushes and
    /// is accurate, so that items on different outputs stay together; the
    /// state of the engine stays as it is.
    pub fn seek(&self, position_ns: u64) -> (request: SeekRequest)
        ensures
            request == (SeekRequest { position_ns, flush: true, accurate: true }),
    {
        SeekRequest { position_ns, flush: true, accurate: true }
    }

    /// The master volume level, in thousandths.
    pub fn master_volume(&self) -> (level: u32)
        ensures
            level == self@.master_volume,
    {
        self.master_volume
    }

    /// The master brightness level, in thousandths.
    pub fn master_brightness(&self) -> (level: u32)
        ensures
            level == self@.master_brightness,
    {
        self.master_brightness
    }

    /// The position of playback in nanoseconds, given what the graph
    /// reports: the stamp of the first forwarder once it has delivered a
    /// frame, else the graph's own position.
    pub fn position(&self, graph_position: Option<u64>) -> (position: Option<u64>)
        ensures
            position == position_of(self@, graph_position),
    {
        match self.forwarders.value_at(0) {
            Some(first) => {
                let stamp = first.last_pts_ns();
                if stamp > 0 {
                    return Some(stamp);
                }
            },
            None => {},
        }
        graph_position
    }

    /// The duration of the loaded cue in nanoseconds: what the graph reports.
    pub fn duration(&self, graph_duration: Option<u64>) -> (duration: Option<u64>)
        ensures
            duration == graph_duration,
    {
        graph_duration
    }

    /// The state of the engine.
    pub fn state(&self) -> (state: PipelineState)
        ensures
            state == self@.state,
    {
        self.state
    }
}

} // verus!
