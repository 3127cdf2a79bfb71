//! The dataflow graph of a cue: processing nodes and the links between them.
//!
//! Nodes live in an arena and are named by their position in it. A graph only
//! grows at its end, one branch at a time, until it is torn down as a whole.

use vstd::prelude::*;
use vstd::string::*;
use crate::output::native_handle::NativeHandle;

verus! {

/// The pixel format a frame forwarder is fed with.
#[derive(Debug, Clone, Copy, PartialEq, Eq, Structural)]
pub enum PixelFormat {
    /// Packed YUV, for network video.
    Uyvy,
    /// RGBA, for GPU texture shares.
    Rgba,
}

/// The name of a pixel format in stream capabilities.
pub open spec fn format_name_of(format: PixelFormat) -> Seq<char> {
    match format {
        PixelFormat::Uyvy => "UYVY"@,
        PixelFormat::Rgba => "RGBA"@,
    }
}

impl PixelFormat {
    /// The name of this format in stream capabilities.
    pub fn name(&self) -> (n: &'static str)
        ensures
            n@ == format_name_of(*self),
    {
        match self {
            PixelFormat::Uyvy => "UYVY",
            PixelFormat::Rgba => "RGBA",
        }
    }
}

/// One processing stage of the graph.
#[derive(Debug, PartialEq, Eq)]
pub enum Node {
    /// Reads a media file.
    FileSource { location: String },
    /// Detects the container format and decodes its streams.
    Decoder,
    /// Converts video between raw formats.
    VideoConvert,
    /// The brightness gain of one output, in millionths.
    VideoBalance { output_id: String, gain: i64 },
    /// Restricts the stream to one pixel format.
    FormatFilter { format: PixelFormat },
    /// The ingestion point of the frame forwarder of one output. It holds at
    /// most one frame and drops older ones.
    ForwarderSink { output_id: String, format: PixelFormat },
    /// The window sink of a display output.
    VideoSink { output_id: String, handle: Option<NativeHandle> },
    /// Swallows a stream that nothing plays.
    DiscardSink,
    /// Converts audio between raw formats.
    AudioConvert,
    /// Converts audio between sample rates.
    AudioResample,
    /// A named volume gain, in millionths.
    Volume { name: String, gain: i64 },
    /// The audio sink of one output.
    AudioSink { output_id: String },
}

/// A node with its texts as characters.
pub enum NodeView {
    FileSource { location: Seq<char> },
    Decoder,
    VideoConvert,
    VideoBalance { output_id: Seq<char>, gain: i64 },
    FormatFilter { format: PixelFormat },
    ForwarderSink { output_id: Seq<char>, format: PixelFormat },
    VideoSink { output_id: Seq<char>, handle: Option<NativeHandle> },
    DiscardSink,
    AudioConvert,
    AudioResample,
    Volume { name: Seq<char>, gain: i64 },
    AudioSink { output_id: Seq<char> },
}

impl View for Node {
    type V = NodeView;

    open spec fn view(&self) -> NodeView {
        match self {
            Node::FileSource { location } => NodeView::FileSource { location: location@ },
            Node::Decoder => NodeView::Decoder,
            Node::VideoConvert => NodeView::VideoConvert,
            Node::VideoBalance { output_id, gain } => NodeView::VideoBalance {
                output_id: output_id@,
                gain: *gain,
            },
            Node::FormatFilter { format } => NodeView::FormatFilter { format: *format },
            Node::ForwarderSink { output_id, format } => NodeView::ForwarderSink {
                output_id: output_id@,
                format: *format,
            },
            Node::VideoSink { output_id, handle } => NodeView::VideoSink {
                output_id: output_id@,
                handle: *handle,
            },
            Node::DiscardSink => NodeView::DiscardSink,
            Node::AudioConvert => NodeView::AudioConvert,
            Node::AudioResample => NodeView::AudioResample,
            Node::Volume { name, gain } => NodeView::Volume { name: name@, gain: *gain },
            Node::AudioSink { output_id } => NodeView::AudioSink { output_id: output_id@ },
        }
    }
}

impl Clone for Node {
    fn clone(&self) -> (r: Self)
        ensures
            r@ == self@,
    {
        match self {
            Node::FileSource { location } => Node::FileSource { location: location.clone() },
            Node::Decoder => Node::Decoder,
            Node::VideoConvert => Node::VideoConvert,
            Node::VideoBalance { output_id, gain } => Node::VideoBalance {
                output_id: output_id.clone(),
                gain: *gain,
            },
            Node::FormatFilter { format } => Node::FormatFilter { format: *format },
            Node::ForwarderSink { output_id, format } => Node::ForwarderSink {
                output_id: output_id.clone(),
                format: *format,
            },
            Node::VideoSink { output_id, handle } => Node::VideoSink {
                output_id: output_id.clone(),
                handle: *handle,
            },
            Node::DiscardSink => Node::DiscardSink,
            Node::AudioConvert => Node::AudioConvert,
            Node::AudioResample => Node::AudioResample,
            Node::Volume { name, gain } => Node::Volume { name: name.clone(), gain: *gain },
            Node::AudioSink { output_id } => Node::AudioSink { output_id: output_id.clone() },
        }
    }
}

/// The element of the media framework that stands behind a kind of node.
/// Window sinks and audio sinks are chosen per platform and have none here.
pub open spec fn element_name_of(node: NodeView) -> Option<Seq<char>> {
    match node {
        NodeView::FileSource { .. } => Some("filesrc"@),
        NodeView::Decoder => Some("decodebin"@),
        NodeView::VideoConvert => Some("videoconvert"@),
        NodeView::VideoBalance { .. } => Some("videobalance"@),
        NodeView::FormatFilter { .. } => Some("capsfilter"@),
        NodeView::ForwarderSink { .. } => Some("appsink"@),
        NodeView::VideoSink { .. } => None,
        NodeView::DiscardSink => Some("fakesink"@),
        NodeView::AudioConvert => Some("audioconvert"@),
        NodeView::AudioResample => Some("audioresample"@),
        NodeView::Volume { .. } => Some("volume"@),
        NodeView::AudioSink { .. } => None,
    }
}

impl Node {
    /// The element of the media framework that stands behind this node.
    pub fn element_name(&self) -> (n: Option<&'static str>)
        ensures
            match n {
                Some(text) => element_name_of(self@) == Some(text@),
                None => element_name_of(self@) is None,
            },
    {
        match self {
            Node::FileSource { .. } => Some("filesrc"),
            Node::Decoder => Some("decodebin"),
            Node::VideoConvert => Some("videoconvert"),
            Node::VideoBalance { .. } => Some("videobalance"),
            Node::FormatFilter { .. } => Some("capsfilter"),
            Node::ForwarderSink { .. } => Some("appsink"),
            Node::VideoSink { .. } => None,
            Node::DiscardSink => Some("fakesink"),
            Node::AudioConvert => Some("audioconvert"),
            Node::AudioResample => Some("audioresample"),
            Node::Volume { .. } => Some("volume"),
            Node::AudioSink { .. } => None,
        }
    }
}

/// A connection from the output of one node to the input of another.
#[derive(Debug, Clone, Copy, PartialEq, Eq, Structural)]
pub struct Link {
    pub from: usize,
    pub to: usize,
}

/// The nodes and links that one attachment added to a graph: the nodes
/// `first_node .. first_node + node_count` and the links
/// `first_link .. first_link + link_count`.
#[derive(Debug, Clone, Copy, PartialEq, Eq, Structural)]
pub struct Branch {
    pub first_node: usize,
    pub node_count: usize,
    pub first_link: usize,
    pub link_count: usize,
}

/// A graph as sequences of nodes and links.
pub struct GraphView {
    pub nodes: Seq<NodeView>,
    pub links: Seq<Link>,
}

/// The views of a sequence of nodes.
pub open spec fn node_views(nodes: Seq<Node>) -> Seq<NodeView> {
    Seq::new(nodes.len(), |i: int| nodes[i]@)
}

/// The graph with no node.
pub open spec fn empty_graph() -> GraphView {
    GraphView { nodes: Seq::empty(), links: Seq::empty() }
}

/// A graph with more nodes and links at its end.
pub open spec fn extended(g: GraphView, nodes: Seq<NodeView>, links: Seq<Link>) -> GraphView {
    GraphView { nodes: g.nodes + nodes, links: g.links + links }
}

/// Every link joins two nodes of the graph.
pub open spec fn links_in_range(g: GraphView) -> bool {
    forall|i: int|
        0 <= i < g.links.len() ==> #[trigger] g.links[i].from < g.nodes.len() && g.links[i].to
            < g.nodes.len()
}

/// Whether a node is a volume gain of the given name.
pub open spec fn is_volume_named(node: NodeView, name: Seq<char>) -> bool {
    node matches NodeView::Volume { name: n, .. } && n == name
}

/// Whether the graph has a volume gain of the given name.
pub open spec fn has_volume_named(g: GraphView, name: Seq<char>) -> bool {
    exists|i: int| 0 <= i < g.nodes.len() && is_volume_named(#[trigger] g.nodes[i], name)
}

/// No two volume gains of the graph have the same name.
pub open spec fn unique_gain_names(g: GraphView) -> bool {
    forall|i: int, j: int|
        0 <= i < j < g.nodes.len() ==> !(#[trigger] g.nodes[i] matches NodeView::Volume {
            name: a,
            ..
        } && #[trigger] g.nodes[j] matches NodeView::Volume { name: b, .. } && a == b)
}

/// The node with another gain, where it is a gain node.
pub open spec fn with_gain(node: NodeView, gain: i64) -> NodeView {
    match node {
        NodeView::VideoBalance { output_id, .. } => NodeView::VideoBalance { output_id, gain },
        NodeView::Volume { name, .. } => NodeView::Volume { name, gain },
        other => other,
    }
}

/// The dataflow graph of the loaded cue.
pub struct Graph {
    nodes: Vec<Node>,
    links: Vec<Link>,
}

impl View for Graph {
    type V = GraphView;

    closed spec fn view(&self) -> GraphView {
        GraphView { nodes: node_views(self.nodes@), links: self.links@ }
    }
}

impl Graph {
    /// A graph with no node.
    pub fn new() -> (g: Self)
        ensures
            g@ == empty_graph(),
    {
        let g = Graph { nodes: Vec::new(), links: Vec::new() };
        assert(g@.nodes =~= Seq::empty());
        g
    }

    /// The number of nodes.
    pub fn node_count(&self) -> (n: usize)
        ensures
            n == self@.nodes.len(),
    {
        self.nodes.len()
    }

    /// The number of links.
    pub fn link_count(&self) -> (n: usize)
        ensures
            n == self@.links.len(),
    {
        self.links.len()
    }

    /// The node at a position, if the graph has that many nodes.
    pub fn node(&self, index: usize) -> (n: Option<&Node>)
        ensures
            match n {
                Some(node) => index < self@.nodes.len() && node@ == self@.nodes[index as int],
                None => index >= self@.nodes.len(),
            },
    {
        if index < self.nodes.len() {
            Some(&self.nodes[index])
        } else {
            None
        }
    }

    /// The link at a position, if the graph has that many links.
    pub fn link(&self, index: usize) -> (l: Option<Link>)
        ensures
            match l {
                Some(link) => index < self@.links.len() && link == self@.links[index as int],
                None => index >= self@.links.len(),
            },
    {
        if index < self.links.len() {
            Some(self.links[index])
        } else {
            None
        }
    }

    /// Removes every node and link.
    pub fn clear(&mut self)
        ensures
            final(self)@ == empty_graph(),
    {
        self.nodes = Vec::new();
        self.links = Vec::new();
        assert(self@.nodes =~= Seq::empty());
    }

    /// Adds a node at the end and returns its position.
    pub fn add_node(&mut self, node: Node) -> (index: usize)
        ensures
            index == old(self)@.nodes.len(),
            final(self)@ == extended(old(self)@, seq![node@], Seq::empty()),
    {
        let index: usize = self.nodes.len();
        self.nodes.push(node);
        assert(self@.nodes =~= old(self)@.nodes + seq![node@]);
        assert(self@.links =~= old(self)@.links + Seq::<Link>::empty());
        index
    }

    /// Adds a link at the end.
    pub fn add_link(&mut self, from: usize, to: usize)
        ensures
            final(self)@ == extended(old(self)@, Seq::empty(), seq![Link { from, to }]),
    {
        self.links.push(Link { from, to });
        assert(self@.nodes =~= old(self)@.nodes + Seq::<NodeView>::empty());
        assert(self@.links =~= old(self)@.links + seq![Link { from, to }]);
    }

    /// Whether the graph has a volume gain of the given name.
    pub fn has_volume(&self, name: &str) -> (b: bool)
        ensures
            b == has_volume_named(self@, name@),
    {
        let wanted = String::from_str(name);
        let mut i: usize = 0;
        while i < self.nodes.len()
            invariant
                i <= self.nodes.len(),
                wanted@ == name@,
                forall|j: int| 0 <= j < i ==> !is_volume_named(#[trigger] self@.nodes[j], name@),
            decreases self.nodes.len() - i,
        {
            let found = match &self.nodes[i] {
                Node::Volume { name: n, .. } => *n == wanted,
                _ => false,
            };
            if found {
                assert(is_volume_named(self@.nodes[i as int], name@));
                return true;
            }
            i = i + 1;
        }
        false
    }

    /// Gives the node at a position another gain; a node that is no gain node
    /// stays as it is, and so does the graph where it has no such position.
    pub fn set_gain(&mut self, index: usize, gain: i64)
        ensures
            final(self)@.links == old(self)@.links,
            final(self)@.nodes == if index < old(self)@.nodes.len() {
                old(self)@.nodes.update(
                    index as int,
                    with_gain(old(self)@.nodes[index as int], gain),
                )
            } else {
                old(self)@.nodes
            },
    {
        if index >= self.nodes.len() {
            return;
        }
        let changed = match &self.nodes[index] {
            Node::VideoBalance { output_id, .. } => Node::VideoBalance {
                output_id: output_id.clone(),
                gain,
            },
            Node::Volume { name, .. } => Node::Volume { name: name.clone(), gain },
            other => other.clone(),
        };
        self.nodes.set(index, changed);
        assert(self@.nodes =~= old(self)@.nodes.update(
            index as int,
            with_gain(old(self)@.nodes[index as int], gain),
        ));
    }

    /// Takes a branch back: the graph is cut back to the nodes and links it
    /// had before the branch was attached. A branch that begins beyond the
    /// end of the graph changes nothing.
    pub fn discard_branch(&mut self, branch: Branch)
        ensures
            final(self)@ == if branch.first_node <= old(self)@.nodes.len() && branch.first_link
                <= old(self)@.links.len() {
                GraphView {
                    nodes: old(self)@.nodes.take(branch.first_node as int),
                    links: old(self)@.links.take(branch.first_link as int),
                }
            } else {
                old(self)@
            },
    {
        if branch.first_node <= self.nodes.len() && branch.first_link <= self.links.len() {
            self.nodes.truncate(branch.first_node);
            self.links.truncate(branch.first_link);
            assert(self@.nodes =~= old(self)@.nodes.take(branch.first_node as int));
            assert(self@.links =~= old(self)@.links.take(branch.first_link as int));
        }
    }
}

} // verus!
