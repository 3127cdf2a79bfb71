//! The output router: each output of a project joined with its monitor and
//! the native surface of its window.

use vstd::prelude::*;
use vstd::string::*;
use crate::id_map::{lookup, put, unique_keys, IdMap};
use crate::output::native_handle::NativeHandle;
use crate::types::{MonitorInfo, OutputTarget, OutputTargetView, OutputType};
use crate::types::output::output_views;

verus! {

/// An output joined with the monitor it is shown on and the native surface
/// of its window. Made anew on every load of a cue.
#[derive(Debug, PartialEq, Eq)]
pub struct OutputWithMonitor {
    pub output: OutputTarget,
    pub monitor: Option<MonitorInfo>,
    pub native_handle: Option<NativeHandle>,
}

/// An output binding with the output's texts as characters.
pub struct OutputBindingView {
    pub output: OutputTargetView,
    pub monitor: Option<MonitorInfo>,
    pub native_handle: Option<NativeHandle>,
}

impl View for OutputWithMonitor {
    type V = OutputBindingView;

    open spec fn view(&self) -> OutputBindingView {
        OutputBindingView {
            output: self.output@,
            monitor: self.monitor,
            native_handle: self.native_handle,
        }
    }
}

impl Clone for OutputWithMonitor {
    fn clone(&self) -> (r: Self)
        ensures
            r@ == self@,
    {
        OutputWithMonitor {
            output: self.output.clone(),
            monitor: match &self.monitor {
                Some(m) => Some(m.clone()),
                None => None,
            },
            native_handle: self.native_handle,
        }
    }
}

/// The views of a sequence of bindings.
pub open spec fn binding_views(bindings: Seq<OutputWithMonitor>) -> Seq<OutputBindingView> {
    Seq::new(bindings.len(), |i: int| bindings[i]@)
}

/// The monitor of an output: for a display output the monitor at its display
/// index, index 0 where it names none, if there is such a monitor; for every
/// other kind of output none.
pub open spec fn monitor_of(output: OutputTargetView, monitors: Seq<MonitorInfo>) -> Option<
    MonitorInfo,
> {
    if output.output_type == OutputType::Display {
        let index: int = match output.display_index {
            Some(i) => i as int,
            None => 0,
        };
        if index < monitors.len() {
            Some(monitors[index])
        } else {
            None
        }
    } else {
        None
    }
}

/// The native surface of an output: for a display output the handle kept
/// under its id, if there is one; for every other kind of output none.
pub open spec fn surface_of(
    output: OutputTargetView,
    handles: Seq<(Seq<char>, NativeHandle)>,
) -> Option<NativeHandle> {
    if output.output_type == OutputType::Display {
        lookup(handles, output.id)
    } else {
        None
    }
}

/// The binding of one output.
pub open spec fn binding_of(
    output: OutputTargetView,
    monitors: Seq<MonitorInfo>,
    handles: Seq<(Seq<char>, NativeHandle)>,
) -> OutputBindingView {
    OutputBindingView {
        output,
        monitor: monitor_of(output, monitors),
        native_handle: surface_of(output, handles),
    }
}

/// The bindings of a list of outputs, in order.
pub open spec fn bindings_of(
    outputs: Seq<OutputTargetView>,
    monitors: Seq<MonitorInfo>,
    handles: Seq<(Seq<char>, NativeHandle)>,
) -> Seq<OutputBindingView> {
    Seq::new(outputs.len(), |i: int| binding_of(outputs[i], monitors, handles))
}

/// The table of brightness overrides after the overrides of `outputs` have
/// been written into it, one output after the other.
pub open spec fn recorded_overrides(
    table: Seq<(Seq<char>, Option<u32>)>,
    outputs: Seq<OutputTargetView>,
) -> Seq<(Seq<char>, Option<u32>)>
    decreases outputs.len(),
{
    if outputs.len() == 0 {
        table
    } else {
        put(
            recorded_overrides(table, outputs.drop_last()),
            outputs.last().id,
            outputs.last().brightness,
        )
    }
}

/// Writing overrides into a table keeps its ids unique.
pub proof fn lemma_recorded_overrides_unique(
    table: Seq<(Seq<char>, Option<u32>)>,
    outputs: Seq<OutputTargetView>,
)
    requires
        unique_keys(table),
    ensures
        unique_keys(recorded_overrides(table, outputs)),
    decreases outputs.len(),
{
    if outputs.len() > 0 {
        lemma_recorded_overrides_unique(table, outputs.drop_last());
        crate::id_map::lemma_put(
            recorded_overrides(table, outputs.drop_last()),
            outputs.last().id,
            outputs.last().brightness,
            outputs.last().id,
        );
    }
}

/// Resolves each output into its binding and writes its brightness override
/// into `overrides`.
pub fn build_outputs_with_monitors(
    overrides: &mut IdMap<Option<u32>>,
    outputs: &Vec<OutputTarget>,
    monitors: &Vec<MonitorInfo>,
    native_handles: &IdMap<NativeHandle>,
) -> (bindings: Vec<OutputWithMonitor>)
    ensures
        binding_views(bindings@) == bindings_of(
            output_views(outputs@),
            monitors@,
            native_handles@,
        ),
        final(overrides)@ == recorded_overrides(old(overrides)@, output_views(outputs@)),
{
    let mut bindings: Vec<OutputWithMonitor> = Vec::new();
    let mut i: usize = 0;
    assert(output_views(outputs@).take(0) =~= Seq::empty());
    while i < outputs.len()
        invariant
            i <= outputs.len(),
            bindings.len() == i,
            forall|j: int|
                0 <= j < i ==> bindings[j]@ == binding_of(
                    #[trigger] outputs[j]@,
                    monitors@,
                    native_handles@,
                ),
            overrides@ == recorded_overrides(
                old(overrides)@,
                output_views(outputs@).take(i as int),
            ),
        decreases outputs.len() - i,
    {
        let o = &outputs[i];
        let monitor = match o.output_type {
            OutputType::Display => {
                let index: usize = match o.display_index {
                    Some(k) => k,
                    None => 0,
                };
                if index < monitors.len() {
                    Some(monitors[index].clone())
                } else {
                    None
                }
            },
            _ => None,
        };
        let native_handle = match o.output_type {
            OutputType::Display => match native_handles.get(o.id.as_str()) {
                Some(h) => Some(*h),
                None => None,
            },
            _ => None,
        };
        proof {
            let next = output_views(outputs@).take(i as int + 1);
            assert(next.drop_last() =~= output_views(outputs@).take(i as int));
            assert(next.last() == outputs[i as int]@);
        }
        overrides.insert(o.id.clone(), o.brightness);
        bindings.push(OutputWithMonitor { output: o.clone(), monitor, native_handle });
        i = i + 1;
    }
    proof {
        assert(output_views(outputs@).take(outputs.len() as int) =~= output_views(outputs@));
        assert(binding_views(bindings@) =~= bindings_of(
            output_views(outputs@),
            monitors@,
            native_handles@,
        ));
    }
    bindings
}

/// The position of the first binding with the given output id.
pub open spec fn binding_index(bindings: Seq<OutputBindingView>, id: Seq<char>) -> Option<int>
    decreases bindings.len(),
{
    if bindings.len() == 0 {
        None
    } else {
        match binding_index(bindings.drop_last(), id) {
            Some(i) => Some(i),
            None => if bindings.last().output.id == id {
                Some(bindings.len() - 1)
            } else {
                None
            },
        }
    }
}

/// The position found for an id is the first one that holds it.
pub proof fn lemma_binding_index(bindings: Seq<OutputBindingView>, id: Seq<char>)
    ensures
        match binding_index(bindings, id) {
            Some(i) => 0 <= i < bindings.len() && bindings[i].output.id == id && forall|j: int|
                0 <= j < i ==> bindings[j].output.id != id,
            None => forall|j: int| 0 <= j < bindings.len() ==> bindings[j].output.id != id,
        },
    decreases bindings.len(),
{
    if bindings.len() > 0 {
        let shorter = bindings.drop_last();
        lemma_binding_index(shorter, id);
        assert forall|j: int| 0 <= j < shorter.len() implies shorter[j] == bindings[j] by {}
        match binding_index(shorter, id) {
            Some(i) => {
                assert(shorter[i] == bindings[i]);
            },
            None => {
                assert forall|j: int| 0 <= j < bindings.len() - 1 implies bindings[j].output.id
                    != id by {
                    assert(shorter[j] == bindings[j]);
                }
            },
        }
    }
}

/// Finds the first binding with the given output id.
pub fn find_binding(bindings: &Vec<OutputWithMonitor>, id: &str) -> (found: Option<usize>)
    ensures
        match found {
            Some(i) => binding_index(binding_views(bindings@), id@) == Some(i as int),
            None => binding_index(binding_views(bindings@), id@) is None,
        },
{
    let wanted = String::from_str(id);
    let mut i: usize = 0;
    assert(binding_views(bindings@).take(0) =~= Seq::empty());
    while i < bindings.len()
        invariant
            i <= bindings.len(),
            wanted@ == id@,
            binding_index(binding_views(bindings@).take(i as int), id@) is None,
        decreases bindings.len() - i,
    {
        proof {
            let next = binding_views(bindings@).take(i as int + 1);
            assert(next.drop_last() =~= binding_views(bindings@).take(i as int));
            assert(next.last() == bindings[i as int]@);
        }
        if bindings[i].output.id == wanted {
            proof {
                lemma_binding_index_extends(binding_views(bindings@), id@, i as int + 1);
            }
            return Some(i);
        }
        i = i + 1;
    }
    assert(binding_views(bindings@).take(bindings.len() as int) =~= binding_views(bindings@));
    None
}

/// What is found in a prefix of the bindings is found in all of them.
proof fn lemma_binding_index_extends(bindings: Seq<OutputBindingView>, id: Seq<char>, n: int)
    requires
        0 <= n <= bindings.len(),
        binding_index(bindings.take(n), id) is Some,
    ensures
        binding_index(bindings, id) == binding_index(bindings.take(n), id),
    decreases bindings.len() - n,
{
    if n < bindings.len() {
        let longer = bindings.take(n + 1);
        assert(longer.drop_last() =~= bindings.take(n));
        lemma_binding_index_extends(bindings, id, n + 1);
    } else {
        assert(bindings.take(n) =~= bindings);
    }
}

} // verus!
