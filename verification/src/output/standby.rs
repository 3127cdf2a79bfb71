//! The standby graph shown on an output while no cue plays on it.
//!
//! A standby graph is a black test picture of the output's size at a fixed
//! frame rate with a text laid over it, drawn into the output's window. Each
//! output has at most one.

use vstd::prelude::*;
use vstd::string::*;
use crate::id_map::{
    has_key, lemma_map_values, lemma_map_values_put, lemma_map_values_without, lookup, map_values,
    put, unique_keys, without, IdMap,
};
use crate::output::native_handle::NativeHandle;
use crate::text::{decimal, decimal_text};

verus! {

/// The frame rate of a standby picture, in frames per second.
pub const STANDBY_FRAME_RATE: u32 = 30;

/// The font of the standby text.
pub open spec fn standby_font() -> Seq<char> {
    "Sans Bold 48"@
}

/// The description of the font of the standby text.
pub fn standby_font_name() -> (font: &'static str)
    ensures
        font@ == standby_font(),
{
    "Sans Bold 48"
}

/// The text shown on an output: its name, its size, the state, and one more
/// line where there is more to say.
pub open spec fn standby_text_of(
    name: Seq<char>,
    width: u32,
    height: u32,
    state: Seq<char>,
    extra: Option<Seq<char>>,
) -> Seq<char> {
    let head = name + "\n"@ + decimal(width as nat) + "x"@ + decimal(height as nat) + "\n"@
        + state;
    match extra {
        Some(more) => head + "\n"@ + more,
        None => head,
    }
}

/// Builds the text shown on an output.
pub fn standby_text(name: &str, width: u32, height: u32, state: &str, extra: Option<&str>) -> (text:
    String)
    ensures
        text@ == standby_text_of(
            name@,
            width,
            height,
            state@,
            match extra {
                Some(e) => Some(e@),
                None => None,
            },
        ),
{
    let mut text = String::from_str(name);
    text.append("\n");
    text.append(decimal_text(width as u64).as_str());
    text.append("x");
    text.append(decimal_text(height as u64).as_str());
    text.append("\n");
    text.append(state);
    match extra {
        Some(more) => {
            text.append("\n");
            text.append(more);
        },
        None => {},
    }
    text
}

/// The standby graph of one output.
#[derive(Debug, PartialEq, Eq)]
pub struct StandbyPipeline {
    output_name: String,
    resolution: (u32, u32),
    handle: NativeHandle,
    text: String,
    running: bool,
}

/// A standby graph as the values it is made of.
pub struct StandbyView {
    pub output_name: Seq<char>,
    pub width: u32,
    pub height: u32,
    /// The window the picture is drawn into.
    pub handle: NativeHandle,
    /// The text laid over the picture.
    pub text: Seq<char>,
    pub running: bool,
}

impl View for StandbyPipeline {
    type V = StandbyView;

    closed spec fn view(&self) -> StandbyView {
        StandbyView {
            output_name: self.output_name@,
            width: self.resolution.0,
            height: self.resolution.1,
            handle: self.handle,
            text: self.text@,
            running: self.running,
        }
    }
}

impl Clone for StandbyPipeline {
    fn clone(&self) -> (r: Self)
        ensures
            r@ == self@,
    {
        StandbyPipeline {
            output_name: self.output_name.clone(),
            resolution: self.resolution,
            handle: self.handle,
            text: self.text.clone(),
            running: self.running,
        }
    }
}

/// The standby graph made for an output: it waits for input and does not
/// run yet.
pub open spec fn new_standby(
    name: Seq<char>,
    handle: NativeHandle,
    width: u32,
    height: u32,
) -> StandbyView {
    StandbyView {
        output_name: name,
        width,
        height,
        handle,
        text: standby_text_of(name, width, height, "Waiting for input..."@, None),
        running: false,
    }
}

impl StandbyPipeline {
    /// The standby graph of an output, of the output's size, with the
    /// output's name and size as its text.
    pub fn new(
        output_id: &str,
        output_name: &str,
        handle: &NativeHandle,
        width: u32,
        height: u32,
    ) -> (p: Self)
        ensures
            p@ == new_standby(output_name@, *handle, width, height),
    {
        StandbyPipeline {
            output_name: String::from_str(output_name),
            resolution: (width, height),
            handle: *handle,
            text: standby_text(output_name, width, height, "Waiting for input...", None),
            running: false,
        }
    }

    /// Starts the picture.
    pub fn start(&mut self)
        ensures
            final(self)@ == (StandbyView { running: true, ..old(self)@ }),
    {
        self.running = true;
    }

    /// Stops the picture.
    pub fn stop(&mut self)
        ensures
            final(self)@ == (StandbyView { running: false, ..old(self)@ }),
    {
        self.running = false;
    }

    /// Replaces the text.
    pub fn set_text(&mut self, text: &str)
        ensures
            final(self)@ == (StandbyView { text: text@, ..old(self)@ }),
    {
        self.text = String::from_str(text);
    }

    /// Shows a state, and one more line where there is more to say, below
    /// the output's name and size.
    pub fn update_debug_info(&mut self, state: &str, extra_info: Option<&str>)
        ensures
            final(self)@ == (StandbyView {
                text: standby_text_of(
                    old(self)@.output_name,
                    old(self)@.width,
                    old(self)@.height,
                    state@,
                    match extra_info {
                        Some(e) => Some(e@),
                        None => None,
                    },
                ),
                ..old(self)@
            }),
    {
        let text = standby_text(
            self.output_name.as_str(),
            self.resolution.0,
            self.resolution.1,
            state,
            extra_info,
        );
        self.text = text;
    }

    /// The text laid over the picture.
    pub fn text(&self) -> (t: &String)
        ensures
            t@ == self@.text,
    {
        &self.text
    }

    /// The size of the picture.
    pub fn resolution(&self) -> (r: (u32, u32))
        ensures
            r == (self@.width, self@.height),
    {
        self.resolution
    }

    /// The window the picture is drawn into.
    pub fn handle(&self) -> (h: NativeHandle)
        ensures
            h == self@.handle,
    {
        self.handle
    }

    /// Whether the picture runs.
    pub fn is_running(&self) -> (b: bool)
        ensures
            b == self@.running,
    {
        self.running
    }
}

/// The standby graphs of a table as their values.
pub open spec fn standby_views(s: Seq<(Seq<char>, StandbyPipeline)>) -> Seq<
    (Seq<char>, StandbyView),
> {
    map_values(s, |p: StandbyPipeline| p@)
}

/// The standby graphs of all outputs, keyed by output id.
pub struct StandbyManager {
    pipelines: IdMap<StandbyPipeline>,
}

impl View for StandbyManager {
    type V = Seq<(Seq<char>, StandbyView)>;

    closed spec fn view(&self) -> Seq<(Seq<char>, StandbyView)> {
        standby_views(self.pipelines@)
    }
}

impl StandbyManager {
    /// A table without standby graphs.
    pub fn new() -> (m: Self)
        ensures
            m@ == Seq::<(Seq<char>, StandbyView)>::empty(),
    {
        let m = StandbyManager { pipelines: IdMap::new() };
        assert(m@ =~= Seq::<(Seq<char>, StandbyView)>::empty());
        m
    }

    /// An output has at most one standby graph.
    pub fn ids_are_unique(&self)
        ensures
            unique_keys(self@),
    {
        self.pipelines.ids_are_unique();
        proof {
            lemma_map_values(self.pipelines@, |p: StandbyPipeline| p@, Seq::empty());
        }
    }

    /// Makes and starts the standby graph of an output. A standby graph that
    /// the output already has is taken away first: the result says whether
    /// there was one to stop.
    pub fn create_standby(
        &mut self,
        output_id: &str,
        output_name: &str,
        handle: &NativeHandle,
        width: u32,
        height: u32,
    ) -> (replaced: bool)
        ensures
            replaced == has_key(old(self)@, output_id@),
            final(self)@ == put(
                without(old(self)@, output_id@),
                output_id@,
                StandbyView {
                    running: true,
                    ..new_standby(output_name@, *handle, width, height)
                },
            ),
    {
        self.pipelines.ids_are_unique();
        let ghost before = self.pipelines@;
        proof {
            lemma_map_values(before, |p: StandbyPipeline| p@, output_id@);
            lemma_map_values_without(before, |p: StandbyPipeline| p@, output_id@);
        }
        let replaced = self.pipelines.remove(output_id).is_some();
        let mut pipeline = StandbyPipeline::new(output_id, output_name, handle, width, height);
        pipeline.start();
        self.pipelines.ids_are_unique();
        proof {
            lemma_map_values_put(
                self.pipelines@,
                |p: StandbyPipeline| p@,
                output_id@,
                pipeline,
            );
        }
        self.pipelines.insert(String::from_str(output_id), pipeline);
        replaced
    }

    /// Takes the standby graph of an output away; the result says whether
    /// there was one to stop.
    pub fn stop_standby(&mut self, output_id: &str) -> (stopped: bool)
        ensures
            stopped == has_key(old(self)@, output_id@),
            final(self)@ == without(old(self)@, output_id@),
    {
        self.pipelines.ids_are_unique();
        proof {
            lemma_map_values(self.pipelines@, |p: StandbyPipeline| p@, output_id@);
            lemma_map_values_without(self.pipelines@, |p: StandbyPipeline| p@, output_id@);
        }
        self.pipelines.remove(output_id).is_some()
    }

    /// Takes every standby graph away and returns the ids of the outputs
    /// whose graphs are to be stopped, in order.
    pub fn stop_all(&mut self) -> (stopped: Vec<String>)
        ensures
            final(self)@ == Seq::<(Seq<char>, StandbyView)>::empty(),
            stopped@.len() == old(self)@.len(),
            forall|i: int| 0 <= i < stopped@.len() ==> stopped@[i]@ == old(self)@[i].0,
    {
        let stopped = self.pipelines.keys();
        self.pipelines.clear();
        assert(self@ =~= Seq::<(Seq<char>, StandbyView)>::empty());
        stopped
    }

    /// Whether an output has a standby graph.
    pub fn has_standby(&self, output_id: &str) -> (b: bool)
        ensures
            b == has_key(self@, output_id@),
    {
        proof {
            lemma_map_values(self.pipelines@, |p: StandbyPipeline| p@, output_id@);
        }
        self.pipelines.contains_key(output_id)
    }

    /// A copy of the standby graph of an output, if it has one.
    pub fn pipeline_of(&self, output_id: &str) -> (pipeline: Option<StandbyPipeline>)
        ensures
            match lookup(self@, output_id@) {
                Some(p) => pipeline matches Some(copy) && copy@ == p,
                None => pipeline is None,
            },
    {
        self.pipelines.ids_are_unique();
        proof {
            lemma_map_values(self.pipelines@, |p: StandbyPipeline| p@, output_id@);
        }
        match self.pipelines.get(output_id) {
            Some(p) => Some(p.clone()),
            None => None,
        }
    }

    /// The text on the standby graph of an output, if it has one.
    pub fn text_of(&self, output_id: &str) -> (text: Option<String>)
        ensures
            match lookup(self@, output_id@) {
                Some(p) => text matches Some(t) && t@ == p.text,
                None => text is None,
            },
    {
        self.pipelines.ids_are_unique();
        proof {
            lemma_map_values(self.pipelines@, |p: StandbyPipeline| p@, output_id@);
        }
        match self.pipelines.get(output_id) {
            Some(p) => Some(p.text().clone()),
            None => None,
        }
    }

    /// Shows a state on the standby graph of an output, if it has one, and
    /// returns the new text.
    pub fn update_info(&mut self, output_id: &str, state: &str, extra: Option<&str>) -> (text:
        Option<String>)
        ensures
            match lookup(old(self)@, output_id@) {
                Some(p) => {
                    let shown = standby_text_of(
                        p.output_name,
                        p.width,
                        p.height,
                        state@,
                        match extra {
                            Some(e) => Some(e@),
                            None => None,
                        },
                    );
                    &&& text matches Some(t) && t@ == shown
                    &&& final(self)@ == put(
                        old(self)@,
                        output_id@,
                        StandbyView { text: shown, ..p },
                    )
                },
                None => text is None && final(self)@ == old(self)@,
            },
    {
        self.pipelines.ids_are_unique();
        proof {
            lemma_map_values(self.pipelines@, |p: StandbyPipeline| p@, output_id@);
        }
        let mut pipeline = match self.pipelines.get(output_id) {
            Some(p) => p.clone(),
            None => {
                return None;
            },
        };
        pipeline.update_debug_info(state, extra);
        let text = pipeline.text().clone();
        proof {
            lemma_map_values_put(
                self.pipelines@,
                |p: StandbyPipeline| p@,
                output_id@,
                pipeline,
            );
        }
        self.pipelines.insert(String::from_str(output_id), pipeline);
        Some(text)
    }
}

impl Default for StandbyManager {
    fn default() -> (m: Self)
        ensures
            m@ == Seq::<(Seq<char>, StandbyView)>::empty(),
    {
        StandbyManager::new()
    }
}

} // verus!
