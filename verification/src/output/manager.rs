//! The table of open outputs.

use vstd::prelude::*;
use vstd::string::*;
use crate::error::AppError;
use crate::id_map::{
    has_key, lemma_map_values, lemma_map_values_put, lemma_map_values_without, lookup, map_values,
    put, unique_keys, without, IdMap,
};
use crate::output::native_handle::NativeHandle;
use crate::text::concat2;
use crate::types::{MonitorInfo, OutputTarget, OutputType};

verus! {

/// What is kept for an open output.
#[derive(Debug, PartialEq, Eq)]
pub struct OutputWindowState {
    pub id: String,
    pub output_type: OutputType,
    /// The surface of the output's window, where it has one.
    pub native_handle: Option<NativeHandle>,
    pub monitor_index: Option<usize>,
}

/// An open output with its id as characters.
pub struct OutputWindowView {
    pub id: Seq<char>,
    pub output_type: OutputType,
    pub native_handle: Option<NativeHandle>,
    pub monitor_index: Option<usize>,
}

impl View for OutputWindowState {
    type V = OutputWindowView;

    open spec fn view(&self) -> OutputWindowView {
        OutputWindowView {
            id: self.id@,
            output_type: self.output_type,
            native_handle: self.native_handle,
            monitor_index: self.monitor_index,
        }
    }
}

/// How the window of a display output is to be opened.
#[derive(Debug, PartialEq, Eq)]
pub struct WindowPlan {
    /// The label under which the shell knows the window.
    pub label: String,
    pub title: String,
    /// Where the window is placed; `None` leaves it to the shell.
    pub position: Option<(i32, i32)>,
    pub width: u32,
    pub height: u32,
    pub fullscreen: bool,
    pub decorations: bool,
    pub always_on_top: bool,
    pub resizable: bool,
}

/// The width of a windowed output.
pub const WINDOWED_WIDTH: u32 = 1280;

/// The height of a windowed output.
pub const WINDOWED_HEIGHT: u32 = 720;

/// The label of the window of an output.
pub open spec fn window_label_of(id: Seq<char>) -> Seq<char> {
    "output_"@ + id
}

/// The label of the window of an output.
pub fn window_label(id: &str) -> (label: String)
    ensures
        label@ == window_label_of(id@),
{
    concat2("output_", id)
}

/// Whether an output of this kind is shown in a window.
pub open spec fn has_window(output_type: OutputType) -> bool {
    output_type == OutputType::Display
}

/// The error returned where the shell cannot open a window.
pub fn window_creation_failed(detail: &str) -> (e: AppError)
    ensures
        e@.kind == crate::error::ErrorKind::Output,
        e@.detail == "Failed to create window: "@ + detail@,
{
    AppError::Output(concat2("Failed to create window: ", detail))
}

/// Plans the window of an output. Only display outputs get one. With a
/// monitor the window covers that monitor, full screen, undecorated and on
/// top; without one it is an ordinary resizable window of 1280 by 720.
pub fn window_plan(config: &OutputTarget, monitor: Option<&MonitorInfo>) -> (plan: Option<
    WindowPlan,
>)
    ensures
        plan is Some <==> has_window(config.output_type),
        plan matches Some(p) ==> {
            &&& p.label@ == window_label_of(config.id@)
            &&& p.title@ == config.name@
            &&& monitor matches Some(m) ==> {
                &&& p.position == Some((m.x, m.y))
                &&& p.width == m.width
                &&& p.height == m.height
                &&& p.fullscreen
                &&& !p.decorations
                &&& p.always_on_top
                &&& p.resizable
            }
            &&& monitor is None ==> {
                &&& p.position is None
                &&& p.width == WINDOWED_WIDTH
                &&& p.height == WINDOWED_HEIGHT
                &&& !p.fullscreen
                &&& p.decorations
                &&& !p.always_on_top
                &&& p.resizable
            }
        },
{
    match config.output_type {
        OutputType::Display => {
            let label = window_label(config.id.as_str());
            let title = config.name.clone();
            match monitor {
                Some(m) => Some(
                    WindowPlan {
                        label,
                        title,
                        position: Some((m.x, m.y)),
                        width: m.width,
                        height: m.height,
                        fullscreen: true,
                        decorations: false,
                        always_on_top: true,
                        resizable: true,
                    },
                ),
                None => Some(
                    WindowPlan {
                        label,
                        title,
                        position: None,
                        width: WINDOWED_WIDTH,
                        height: WINDOWED_HEIGHT,
                        fullscreen: false,
                        decorations: true,
                        always_on_top: false,
                        resizable: true,
                    },
                ),
            }
        },
        _ => None,
    }
}

/// What `create_output` records for an output.
pub open spec fn recorded_state(
    config: OutputTarget,
    monitor: Option<&MonitorInfo>,
    native_handle: Option<NativeHandle>,
) -> OutputWindowView {
    if has_window(config.output_type) {
        OutputWindowView {
            id: config.id@,
            output_type: OutputType::Display,
            native_handle,
            monitor_index: match monitor {
                Some(m) => Some(m.index),
                None => None,
            },
        }
    } else {
        OutputWindowView {
            id: config.id@,
            output_type: config.output_type,
            native_handle: None,
            monitor_index: None,
        }
    }
}

/// The open outputs as pairs of id and recorded state.
pub open spec fn state_views(s: Seq<(Seq<char>, OutputWindowState)>) -> Seq<
    (Seq<char>, OutputWindowView),
> {
    map_values(s, |state: OutputWindowState| state@)
}

/// The labels of the windows of the display outputs among `s`, in order.
pub open spec fn window_labels(s: Seq<(Seq<char>, OutputWindowView)>) -> Seq<Seq<char>>
    decreases s.len(),
{
    if s.len() == 0 {
        Seq::empty()
    } else if has_window(s.last().1.output_type) {
        window_labels(s.drop_last()).push(window_label_of(s.last().0))
    } else {
        window_labels(s.drop_last())
    }
}

/// A monitor as the windowing shell describes it.
#[derive(Debug, PartialEq, Eq)]
pub struct RawMonitor {
    pub name: Option<String>,
    pub width: u32,
    pub height: u32,
    pub x: i32,
    pub y: i32,
}

/// The characters of a monitor's name; none for a monitor without a name.
pub open spec fn monitor_name_of(name: Option<String>) -> Seq<char> {
    match name {
        Some(n) => n@,
        None => Seq::empty(),
    }
}

/// Whether two optional names are the same.
pub open spec fn same_name(a: Option<String>, b: Option<String>) -> bool {
    match (a, b) {
        (Some(x), Some(y)) => x@ == y@,
        (None, None) => true,
        _ => false,
    }
}

/// Whether a monitor is the primary one: there is a primary monitor and it
/// has the same name.
pub open spec fn is_primary_of(primary: Option<&RawMonitor>, monitor: RawMonitor) -> bool {
    match primary {
        Some(p) => same_name(p.name, monitor.name),
        None => false,
    }
}

/// The table of open outputs, keyed by output id.
pub struct OutputManager {
    outputs: IdMap<OutputWindowState>,
}

impl View for OutputManager {
    type V = Seq<(Seq<char>, OutputWindowView)>;

    closed spec fn view(&self) -> Seq<(Seq<char>, OutputWindowView)> {
        state_views(self.outputs@)
    }
}

impl OutputManager {
    /// A table with no open output.
    pub fn new() -> (m: Self)
        ensures
            m@ == Seq::<(Seq<char>, OutputWindowView)>::empty(),
    {
        let m = OutputManager { outputs: IdMap::new() };
        assert(m@ =~= Seq::<(Seq<char>, OutputWindowView)>::empty());
        m
    }

    /// No output id occurs twice in the table.
    pub fn ids_are_unique(&self)
        ensures
            unique_keys(self@),
    {
        self.outputs.ids_are_unique();
        proof {
            lemma_map_values(self.outputs@, |state: OutputWindowState| state@, Seq::empty());
        }
    }

    /// Records an output as open. For a display output `native_handle` is the
    /// surface of the window that was opened for it, and it is handed back;
    /// other outputs have no window, are recorded without a handle, and
    /// `None` is returned. An output that was already open is replaced.
    pub fn create_output(
        &mut self,
        config: &OutputTarget,
        monitor: Option<&MonitorInfo>,
        native_handle: Option<NativeHandle>,
    ) -> (handle: Option<NativeHandle>)
        ensures
            final(self)@ == put(
                old(self)@,
                config.id@,
                recorded_state(*config, monitor, native_handle),
            ),
            handle == recorded_state(*config, monitor, native_handle).native_handle,
    {
        let state = match config.output_type {
            OutputType::Display => OutputWindowState {
                id: config.id.clone(),
                output_type: OutputType::Display,
                native_handle,
                monitor_index: match monitor {
                    Some(m) => Some(m.index),
                    None => None,
                },
            },
            _ => OutputWindowState {
                id: config.id.clone(),
                output_type: config.output_type,
                native_handle: None,
                monitor_index: None,
            },
        };
        let handle = state.native_handle;
        self.outputs.ids_are_unique();
        proof {
            lemma_map_values_put(
                self.outputs@,
                |state: OutputWindowState| state@,
                config.id@,
                state,
            );
        }
        self.outputs.insert(config.id.clone(), state);
        handle
    }

    /// The native handle recorded for an output, if it is open and has one.
    pub fn get_native_handle(&self, output_id: &str) -> (handle: Option<NativeHandle>)
        ensures
            handle == match lookup(self@, output_id@) {
                Some(state) => state.native_handle,
                None => None,
            },
    {
        self.outputs.ids_are_unique();
        proof {
            lemma_map_values(self.outputs@, |state: OutputWindowState| state@, output_id@);
        }
        match self.outputs.get(output_id) {
            Some(state) => state.native_handle,
            None => None,
        }
    }

    /// Whether an output is open.
    pub fn has_output(&self, output_id: &str) -> (open: bool)
        ensures
            open == has_key(self@, output_id@),
    {
        proof {
            lemma_map_values(self.outputs@, |state: OutputWindowState| state@, output_id@);
        }
        self.outputs.contains_key(output_id)
    }

    /// The ids of all open outputs, in the order in which they were opened.
    pub fn get_open_output_ids(&self) -> (ids: Vec<String>)
        ensures
            ids@.len() == self@.len(),
            forall|i: int| 0 <= i < ids@.len() ==> ids@[i]@ == self@[i].0,
    {
        self.outputs.keys()
    }

    /// Closes an output: it is no longer open. Where it was a display
    /// output, the label of its window is returned for the shell to close.
    pub fn close_output(&mut self, id: &str) -> (window: Option<String>)
        ensures
            final(self)@ == without(old(self)@, id@),
            match lookup(old(self)@, id@) {
                Some(state) => if has_window(state.output_type) {
                    window matches Some(label) && label@ == window_label_of(id@)
                } else {
                    window is None
                },
                None => window is None,
            },
    {
        self.outputs.ids_are_unique();
        proof {
            lemma_map_values(self.outputs@, |state: OutputWindowState| state@, id@);
            lemma_map_values_without(self.outputs@, |state: OutputWindowState| state@, id@);
        }
        match self.outputs.remove(id) {
            Some(state) => match state.output_type {
                OutputType::Display => Some(window_label(id)),
                _ => None,
            },
            None => None,
        }
    }

    /// Closes every output and returns the labels of the windows of the
    /// display outputs, in the order in which they were opened.
    pub fn close_all(&mut self) -> (windows: Vec<String>)
        ensures
            final(self)@ == Seq::<(Seq<char>, OutputWindowView)>::empty(),
            windows@.len() == window_labels(old(self)@).len(),
            forall|i: int|
                0 <= i < windows@.len() ==> windows@[i]@ == window_labels(old(self)@)[i],
    {
        let mut windows: Vec<String> = Vec::new();
        let count: usize = self.outputs.len();
        let mut i: usize = 0;
        assert(self@.take(0) =~= Seq::empty());
        while i < count
            invariant
                i <= count,
                count == self@.len(),
                self@ == old(self)@,
                self.outputs@.len() == count,
                windows@.len() == window_labels(self@.take(i as int)).len(),
                forall|k: int|
                    0 <= k < windows@.len() ==> windows@[k]@ == window_labels(
                        self@.take(i as int),
                    )[k],
            decreases count - i,
        {
            proof {
                let next = self@.take(i as int + 1);
                assert(next.drop_last() =~= self@.take(i as int));
                assert(next.last() == self@[i as int]);
            }
            match (self.outputs.key_at(i), self.outputs.value_at(i)) {
                (Some(id), Some(state)) => match state.output_type {
                    OutputType::Display => {
                        windows.push(window_label(id.as_str()));
                    },
                    _ => {},
                },
                _ => {},
            }
            i = i + 1;
        }
        assert(self@.take(count as int) =~= self@);
        self.outputs.clear();
        assert(self@ =~= Seq::<(Seq<char>, OutputWindowView)>::empty());
        windows
    }

    /// Lists the monitors of the machine: each with its position in the
    /// shell's list as its index, and marked primary where it has the name of
    /// the primary monitor.
    pub fn get_monitor_list(primary: Option<&RawMonitor>, monitors: &Vec<RawMonitor>) -> (list: Vec<
        MonitorInfo,
    >)
        ensures
            list@.len() == monitors@.len(),
            forall|i: int|
                0 <= i < list@.len() ==> {
                    &&& (#[trigger] list@[i]).index == i
                    &&& list@[i].name@ == monitor_name_of(monitors@[i].name)
                    &&& list@[i].width == monitors@[i].width
                    &&& list@[i].height == monitors@[i].height
                    &&& list@[i].x == monitors@[i].x
                    &&& list@[i].y == monitors@[i].y
                    &&& list@[i].is_primary == is_primary_of(primary, monitors@[i])
                },
    {
        let mut list: Vec<MonitorInfo> = Vec::new();
        let mut i: usize = 0;
        while i < monitors.len()
            invariant
                i <= monitors.len(),
                list@.len() == i,
                forall|k: int|
                    0 <= k < i ==> {
                        &&& (#[trigger] list@[k]).index == k
                        &&& list@[k].name@ == monitor_name_of(monitors@[k].name)
                        &&& list@[k].width == monitors@[k].width
                        &&& list@[k].height == monitors@[k].height
                        &&& list@[k].x == monitors@[k].x
                        &&& list@[k].y == monitors@[k].y
                        &&& list@[k].is_primary == is_primary_of(primary, monitors@[k])
                    },
            decreases monitors.len() - i,
        {
            let m = &monitors[i];
            let is_primary = match primary {
                Some(p) => match (&p.name, &m.name) {
                    (Some(a), Some(b)) => *a == *b,
                    (None, None) => true,
                    _ => false,
                },
                None => false,
            };
            let name = match &m.name {
                Some(n) => n.clone(),
                None => String::new(),
            };
            list.push(
                MonitorInfo {
                    index: i,
                    name,
                    width: m.width,
                    height: m.height,
                    x: m.x,
                    y: m.y,
                    is_primary,
                },
            );
            i = i + 1;
        }
        list
    }
}

impl Default for OutputManager {
    fn default() -> (m: Self)
        ensures
            m@ == Seq::<(Seq<char>, OutputWindowView)>::empty(),
    {
        OutputManager::new()
    }
}

} // verus!
