//! Commands on the outputs of a session.

use vstd::prelude::*;
use vstd::string::*;
use crate::audio::sink::{asio_devices_of, asio_views, list_asio_devices, AsioDevice, AudioDevice};
use crate::id_map::{has_key, lookup, put, without};
use crate::output::manager::{
    is_primary_of, monitor_name_of, recorded_state, window_label_of, window_labels, OutputManager,
    RawMonitor, WINDOWED_HEIGHT, WINDOWED_WIDTH,
};
use crate::output::native_handle::{NativeHandle, Platform};
use crate::output::standby::{new_standby, StandbyView};
use crate::state::AppState;
use crate::types::{MonitorInfo, OutputTarget};

verus! {

/// The monitors of the machine, from what the shell reports.
pub fn get_monitors(primary: Option<&RawMonitor>, monitors: &Vec<RawMonitor>) -> (list: Vec<
    MonitorInfo,
>)
    ensures
        list@.len() == monitors@.len(),
        forall|i: int|
            0 <= i < list@.len() ==> {
                &&& (#[trigger] list@[i]).index == i
                &&& list@[i].name@ == monitor_name_of(monitors@[i].name)
                &&& list@[i].width == monitors@[i].width
                &&& list@[i].height == monitors@[i].height
                &&& list@[i].x == monitors@[i].x
                &&& list@[i].y == monitors@[i].y
                &&& list@[i].is_primary == is_primary_of(primary, monitors@[i])
            },
{
    OutputManager::get_monitor_list(primary, monitors)
}

/// The size of the standby picture of an output: that of its monitor, or
/// that of a windowed output.
pub open spec fn standby_size_of(monitor: Option<&MonitorInfo>) -> (u32, u32) {
    match monitor {
        Some(m) => (m.width, m.height),
        None => (WINDOWED_WIDTH, WINDOWED_HEIGHT),
    }
}

/// Records an output whose window, if it has one, has been opened, and
/// gives it a standby graph where the window has a native surface.
/// `native_handle` is that surface. The result says whether a standby graph
/// is to be started, and whether an older one is to be stopped first.
pub fn open_output_window(
    state: &mut AppState,
    config: &OutputTarget,
    monitor: Option<&MonitorInfo>,
    native_handle: Option<NativeHandle>,
) -> (standby: Option<bool>)
    ensures
        final(state).output_manager@ == put(
            old(state).output_manager@,
            config.id@,
            recorded_state(*config, monitor, native_handle),
        ),
        match recorded_state(*config, monitor, native_handle).native_handle {
            Some(handle) => standby == Some(has_key(old(state).standby_manager@, config.id@))
                && final(state).standby_manager@ == put(
                without(old(state).standby_manager@, config.id@),
                config.id@,
                StandbyView {
                    running: true,
                    ..new_standby(
                        config.name@,
                        handle,
                        standby_size_of(monitor).0,
                        standby_size_of(monitor).1,
                    )
                },
            ),
            None => standby is None && final(state).standby_manager@ == old(
                state,
            ).standby_manager@,
        },
{
    let recorded = state.output_manager.create_output(config, monitor, native_handle);
    match recorded {
        Some(handle) => {
            let (width, height) = match monitor {
                Some(m) => (m.width, m.height),
                None => (WINDOWED_WIDTH, WINDOWED_HEIGHT),
            };
            let replaced = state.standby_manager.create_standby(
                config.id.as_str(),
                config.name.as_str(),
                &handle,
                width,
                height,
            );
            Some(replaced)
        },
        None => None,
    }
}

/// What the shell has to do when an output is closed.
pub struct CloseOutput {
    /// Whether the output had a standby graph, which is to be stopped.
    pub stop_standby: bool,
    /// The label of the output's window, which is to be closed.
    pub window: Option<String>,
}

/// Closes an output: its standby graph is taken away first, then the output
/// itself.
pub fn close_output_window(state: &mut AppState, id: &str) -> (work: CloseOutput)
    ensures
        final(state).standby_manager@ == without(old(state).standby_manager@, id@),
        final(state).output_manager@ == without(old(state).output_manager@, id@),
        work.stop_standby == has_key(old(state).standby_manager@, id@),
        match lookup(old(state).output_manager@, id@) {
            Some(s) => if crate::output::manager::has_window(s.output_type) {
                work.window matches Some(label) && label@ == window_label_of(id@)
            } else {
                work.window is None
            },
            None => work.window is None,
        },
{
    let stop_standby = state.standby_manager.stop_standby(id);
    let window = state.output_manager.close_output(id);
    CloseOutput { stop_standby, window }
}

/// What the shell has to do when all outputs are closed.
pub struct CloseAll {
    /// The ids of the outputs whose standby graphs are to be stopped.
    pub standbys: Vec<String>,
    /// The labels of the windows that are to be closed.
    pub windows: Vec<String>,
}

/// Closes every output: the standby graphs are taken away first, then the
/// outputs.
pub fn close_all_outputs(state: &mut AppState) -> (work: CloseAll)
    ensures
        final(state).standby_manager@.len() == 0,
        final(state).output_manager@.len() == 0,
        work.standbys@.len() == old(state).standby_manager@.len(),
        forall|i: int|
            0 <= i < work.standbys@.len() ==> work.standbys@[i]@ == old(
                state,
            ).standby_manager@[i].0,
        work.windows@.len() == window_labels(old(state).output_manager@).len(),
        forall|i: int|
            0 <= i < work.windows@.len() ==> work.windows@[i]@ == window_labels(
                old(state).output_manager@,
            )[i],
{
    let standbys = state.standby_manager.stop_all();
    let windows = state.output_manager.close_all();
    CloseAll { standbys, windows }
}

/// The ASIO devices among the audio sinks that the device monitor reports.
pub fn get_asio_devices(platform: Platform, devices: &Vec<AudioDevice>) -> (list: Vec<AsioDevice>)
    ensures
        asio_views(list@) == asio_devices_of(platform, devices@),
{
    list_asio_devices(platform, devices)
}

} // verus!
