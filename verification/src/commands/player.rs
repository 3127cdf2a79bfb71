//! Commands on the engine of a session.

use vstd::prelude::*;
use vstd::string::*;
use crate::error::message_of;
use crate::gain::{brightness_gain_of, volume_gain_of};
use crate::id_map::{has_key, index_of, is_index_of, lemma_index_of_unique, unique_keys, IdMap};
use crate::output::manager::{OutputManager, OutputWindowView};
use crate::output::native_handle::NativeHandle;
use crate::pipeline::cue_player::{GainKind, GainUpdate, PipelineState, SeekRequest, StateChange};
use crate::pipeline::model::{
    gain_updates, load_error, loaded, position_of, with_master_brightness, with_master_volume,
    with_output_brightness, PlayerView,
};
use crate::pipeline::router::bindings_of;
use crate::state::AppState;
use crate::types::{
    Cue, CueView, MediaItem, MediaItemView, MediaType, MonitorInfo, OutputTarget, OutputTargetView,
    OutputType, PlayerState, PlayerStatus, ProjectView,
};
use crate::types::output::output_views;
use crate::types::project::outputs_with_brightness;

verus! {

/// What a command says when the session has no engine yet.
pub open spec fn no_player_text() -> Seq<char> {
    "Player not initialized"@
}

/// The error of a command on a session without engine.
fn no_player() -> (e: String)
    ensures
        e@ == no_player_text(),
{
    String::from_str("Player not initialized")
}

/// The cue that plays a single video file on the test display.
pub open spec fn test_cue_view(path: Seq<char>) -> CueView {
    CueView {
        id: "test"@,
        name: "Test Video"@,
        items: seq![
            MediaItemView {
                id: "test-item"@,
                media_type: MediaType::Video,
                name: "Test"@,
                path,
                output_id: "display-1"@,
                offset: None,
                trim_start: None,
                trim_end: None,
            },
        ],
        duration: 0,
        loop_playback: false,
        auto_advance: false,
        color: None,
    }
}

/// The windowed display output on the first monitor that test videos play
/// on.
pub open spec fn test_output_view() -> OutputTargetView {
    OutputTargetView {
        id: "display-1"@,
        name: "Test Display"@,
        output_type: OutputType::Display,
        brightness: None,
        display_index: Some(0usize),
        fullscreen: Some(false),
        ndi_name: None,
        audio_driver: None,
        audio_device: None,
        audio_channels: None,
        syphon_name: None,
        spout_name: None,
    }
}

/// Makes the cue that plays a single video file on the test display.
pub fn test_cue(path: String) -> (cue: Cue)
    ensures
        cue@ == test_cue_view(path@),
{
    let mut items: Vec<MediaItem> = Vec::new();
    items.push(
        MediaItem {
            id: String::from_str("test-item"),
            name: String::from_str("Test"),
            path,
            output_id: String::from_str("display-1"),
            media_type: MediaType::Video,
            offset: None,
            trim_start: None,
            trim_end: None,
        },
    );
    let cue = Cue {
        id: String::from_str("test"),
        name: String::from_str("Test Video"),
        items,
        duration: 0,
        loop_playback: false,
        auto_advance: false,
        color: None,
    };
    assert(cue@.items =~= test_cue_view(path@).items);
    cue
}

/// Makes the output that test videos play on.
pub fn test_output() -> (output: OutputTarget)
    ensures
        output@ == test_output_view(),
{
    OutputTarget {
        id: String::from_str("display-1"),
        name: String::from_str("Test Display"),
        output_type: OutputType::Display,
        brightness: None,
        display_index: Some(0),
        fullscreen: Some(false),
        ndi_name: None,
        syphon_name: None,
        spout_name: None,
        audio_driver: None,
        audio_device: None,
        audio_channels: None,
    }
}

/// Loads a single video file for the test display, without any native
/// surface. The caller prerolls and plays. A failed load is reported with
/// the message of its error.
pub fn play_test_video(state: &mut AppState, monitors: &Vec<MonitorInfo>, path: String) -> (result:
    Result<(), String>)
    ensures
        final(state).project == old(state).project,
        final(state).current_cue_index == old(state).current_cue_index,
        match old(state).player {
            None => result matches Err(e) && e@ == no_player_text() && final(state).player is None,
            Some(p) => {
                &&& final(state).player matches Some(q) && q@ == loaded(
                    p@,
                    test_cue_view(path@),
                    seq![test_output_view()],
                    monitors@,
                    Seq::empty(),
                )
                &&& match load_error(
                    test_cue_view(path@).items,
                    bindings_of(seq![test_output_view()], monitors@, Seq::empty()),
                ) {
                    Some(e) => result matches Err(text) && text@ == message_of(e),
                    None => result is Ok,
                }
            },
        },
{
    let player = match &mut state.player {
        Some(p) => p,
        None => {
            return Err(no_player());
        },
    };
    let cue = test_cue(path);
    let mut outputs: Vec<OutputTarget> = Vec::new();
    outputs.push(test_output());
    assert(output_views(outputs@) =~= seq![test_output_view()]);
    let native_handles: IdMap<NativeHandle> = IdMap::new();
    match player.load_cue(&cue, &outputs, monitors, &native_handles) {
        Ok(_) => Ok(()),
        Err(e) => Err(e.message()),
    }
}

/// The native handles of the open outputs that have one, by output id, in
/// the order in which the outputs were opened.
pub open spec fn open_handles(outputs: Seq<(Seq<char>, OutputWindowView)>) -> Seq<
    (Seq<char>, NativeHandle),
>
    decreases outputs.len(),
{
    if outputs.len() == 0 {
        Seq::empty()
    } else {
        let before = open_handles(outputs.drop_last());
        match outputs.last().1.native_handle {
            Some(handle) => before.push((outputs.last().0, handle)),
            None => before,
        }
    }
}

/// Every id among the handles of some outputs is the id of one of them.
proof fn lemma_open_handles_ids(outputs: Seq<(Seq<char>, OutputWindowView)>, id: Seq<char>)
    requires
        has_key(open_handles(outputs), id),
    ensures
        has_key(outputs, id),
    decreases outputs.len(),
{
    let handles = open_handles(outputs);
    let at = index_of(handles, id);
    assert(is_index_of(handles, id, at));
    if outputs.len() > 0 {
        let before = open_handles(outputs.drop_last());
        if at < before.len() {
            assert(is_index_of(before, id, at));
            lemma_open_handles_ids(outputs.drop_last(), id);
            let k = index_of(outputs.drop_last(), id);
            assert(is_index_of(outputs.drop_last(), id, k));
            assert(is_index_of(outputs, id, k));
        } else {
            assert(is_index_of(outputs, id, outputs.len() - 1));
        }
    }
}

/// Collects the native handles of the open outputs that have one.
pub fn collect_native_handles(manager: &OutputManager) -> (handles: IdMap<NativeHandle>)
    ensures
        handles@ == open_handles(manager@),
{
    let ids = manager.get_open_output_ids();
    manager.ids_are_unique();
    let mut handles: IdMap<NativeHandle> = IdMap::new();
    let mut i: usize = 0;
    assert(manager@.take(0) =~= Seq::empty());
    while i < ids.len()
        invariant
            i <= ids.len(),
            ids@.len() == manager@.len(),
            unique_keys(manager@),
            forall|k: int| 0 <= k < ids@.len() ==> ids@[k]@ == manager@[k].0,
            handles@ == open_handles(manager@.take(i as int)),
        decreases ids.len() - i,
    {
        let ghost key = ids@[i as int]@;
        proof {
            let next = manager@.take(i as int + 1);
            assert(next.drop_last() =~= manager@.take(i as int));
            assert(next.last() == manager@[i as int]);
            assert(is_index_of(manager@, key, i as int));
            lemma_index_of_unique(manager@, key, i as int);
            if has_key(handles@, key) {
                lemma_open_handles_ids(manager@.take(i as int), key);
                let k = index_of(manager@.take(i as int), key);
                assert(is_index_of(manager@.take(i as int), key, k));
                assert(manager@[k].0 == manager@[i as int].0);
            }
        }
        match manager.get_native_handle(ids[i].as_str()) {
            Some(handle) => {
                handles.insert(ids[i].clone(), handle);
            },
            None => {},
        }
        i = i + 1;
    }
    assert(manager@.take(ids.len() as int) =~= manager@);
    handles
}

/// Why a cue cannot be loaded, before the engine is asked: the session has
/// no project, the project has no cue of that index, or the session has no
/// engine.
pub open spec fn load_refusal(state: AppState, cue_index: usize) -> Option<Seq<char>> {
    match state.project {
        None => Some("No project loaded"@),
        Some(project) => if cue_index >= project.cues@.len() {
            Some("Cue not found"@)
        } else if state.player is None {
            Some(no_player_text())
        } else {
            None
        },
    }
}

/// Loads the cue of the given index of the session's project into the
/// engine, with the native handles of the open outputs. A failed load is
/// reported with the message of its error. The index becomes the session's
/// current cue once the caller has prerolled the graph and reports it with
/// `cue_loaded`.
pub fn load_cue(state: &mut AppState, monitors: &Vec<MonitorInfo>, cue_index: usize) -> (result:
    Result<(), String>)
    ensures
        final(state).project == old(state).project,
        final(state).current_cue_index == old(state).current_cue_index,
        final(state).output_manager == old(state).output_manager,
        match load_refusal(*old(state), cue_index) {
            Some(text) => result matches Err(e) && e@ == text && final(state).player == old(
                state,
            ).player,
            None => {
                let project = old(state).project->0;
                let handles = open_handles(old(state).output_manager@);
                &&& final(state).player matches Some(q) && q@ == loaded(
                    old(state).player->0@,
                    project.cues[cue_index as int]@,
                    project@.outputs,
                    monitors@,
                    handles,
                )
                &&& match load_error(
                    project.cues[cue_index as int]@.items,
                    bindings_of(project@.outputs, monitors@, handles),
                ) {
                    Some(e) => result matches Err(text) && text@ == message_of(e),
                    None => result is Ok,
                }
            },
        },
{
    let native_handles = collect_native_handles(&state.output_manager);
    let project = match &state.project {
        Some(p) => p,
        None => {
            return Err(String::from_str("No project loaded"));
        },
    };
    if cue_index >= project.cues.len() {
        return Err(String::from_str("Cue not found"));
    }
    let player = match &mut state.player {
        Some(p) => p,
        None => {
            return Err(no_player());
        },
    };
    match player.load_cue(&project.cues[cue_index], &project.outputs, monitors, &native_handles) {
        Ok(_) => Ok(()),
        Err(e) => Err(e.message()),
    }
}

/// Makes a cue the session's current cue, after its load has completed. An
/// index beyond the range of the counter is kept as the largest index.
pub fn cue_loaded(state: &mut AppState, cue_index: usize)
    ensures
        final(state).current_cue_index == if cue_index <= i32::MAX {
            cue_index as i32
        } else {
            i32::MAX
        },
        final(state).project == old(state).project,
        final(state).player == old(state).player,
{
    state.current_cue_index = if cue_index <= i32::MAX as usize {
        cue_index as i32
    } else {
        i32::MAX
    };
}

/// Starts playback.
pub fn play(state: &mut AppState) -> (result: Result<StateChange, String>)
    ensures
        match old(state).player {
            Some(p) => {
                &&& result == Ok::<StateChange, String>(
                    StateChange { target: PipelineState::Playing, wait_ms: 100 },
                )
                &&& final(state).player matches Some(q) && q@ == (PlayerView {
                    state: PipelineState::Playing,
                    ..p@
                })
            },
            None => result matches Err(e) && e@ == no_player_text() && final(state).player is None,
        },
{
    match &mut state.player {
        Some(p) => Ok(p.play()),
        None => Err(no_player()),
    }
}

/// Halts playback.
pub fn pause(state: &mut AppState) -> (result: Result<StateChange, String>)
    ensures
        match old(state).player {
            Some(p) => {
                &&& result == Ok::<StateChange, String>(
                    StateChange { target: PipelineState::Paused, wait_ms: 2_000 },
                )
                &&& final(state).player matches Some(q) && q@ == (PlayerView {
                    state: PipelineState::Paused,
                    ..p@
                })
            },
            None => result matches Err(e) && e@ == no_player_text() && final(state).player is None,
        },
{
    match &mut state.player {
        Some(p) => Ok(p.pause()),
        None => Err(no_player()),
    }
}

/// Stops playback.
pub fn stop(state: &mut AppState) -> (result: Result<StateChange, String>)
    ensures
        match old(state).player {
            Some(p) => {
                &&& result == Ok::<StateChange, String>(
                    StateChange { target: PipelineState::Null, wait_ms: 100 },
                )
                &&& final(state).player matches Some(q) && q@ == (PlayerView {
                    state: PipelineState::Null,
                    ..p@
                })
            },
            None => result matches Err(e) && e@ == no_player_text() && final(state).player is None,
        },
{
    match &mut state.player {
        Some(p) => Ok(p.stop()),
        None => Err(no_player()),
    }
}

/// Asks for playback at a position, in nanoseconds.
pub fn seek(state: &AppState, position_ns: u64) -> (result: Result<SeekRequest, String>)
    ensures
        match state.player {
            Some(_) => result == Ok::<SeekRequest, String>(
                SeekRequest { position_ns, flush: true, accurate: true },
            ),
            None => result matches Err(e) && e@ == no_player_text(),
        },
{
    match &state.player {
        Some(p) => Ok(p.seek(position_ns)),
        None => Err(no_player()),
    }
}

/// Sets the master brightness of the engine and of the project.
pub fn set_master_brightness(state: &mut AppState, value: u32) -> (result: Result<
    Vec<GainUpdate>,
    String,
>)
    ensures
        match old(state).player {
            Some(p) => {
                &&& final(state).player matches Some(q) && q@ == with_master_brightness(p@, value)
                &&& result matches Ok(updates) && updates@ == gain_updates(
                    p@.graph.nodes,
                    GainKind::MasterBrightness,
                    Seq::empty(),
                    p@.overrides,
                    brightness_gain_of(value) as i64,
                )
                &&& match old(state).project {
                    Some(project) => final(state).project matches Some(after) && after@ == (
                    ProjectView { master_brightness: value, ..project@ }),
                    None => final(state).project is None,
                }
            },
            None => result matches Err(e) && e@ == no_player_text() && final(state).project == old(
                state,
            ).project && final(state).player is None,
        },
{
    let updates = match &mut state.player {
        Some(p) => p.set_master_brightness(value),
        None => {
            return Err(no_player());
        },
    };
    match &mut state.project {
        Some(project) => {
            project.master_brightness = value;
        },
        None => {},
    }
    Ok(updates)
}

/// Sets or clears the brightness override of an output, in the engine and
/// in the project.
pub fn set_output_brightness(state: &mut AppState, output_id: &str, value: Option<u32>) -> (result:
    Result<Vec<GainUpdate>, String>)
    ensures
        match old(state).player {
            Some(p) => {
                &&& final(state).player matches Some(q) && q@ == with_output_brightness(
                    p@,
                    output_id@,
                    value,
                )
                &&& result matches Ok(updates) && updates@ == match value {
                    Some(level) => gain_updates(
                        p@.graph.nodes,
                        GainKind::OutputBrightness,
                        output_id@,
                        p@.overrides,
                        brightness_gain_of(level) as i64,
                    ),
                    None => Seq::empty(),
                }
                &&& match old(state).project {
                    Some(project) => final(state).project matches Some(after) && after@ == (
                    ProjectView {
                        outputs: outputs_with_brightness(project@.outputs, output_id@, value),
                        ..project@
                    }),
                    None => final(state).project is None,
                }
            },
            None => result matches Err(e) && e@ == no_player_text() && final(state).project == old(
                state,
            ).project && final(state).player is None,
        },
{
    let updates = match &mut state.player {
        Some(p) => p.set_output_brightness(output_id, value),
        None => {
            return Err(no_player());
        },
    };
    match &mut state.project {
        Some(project) => {
            project.set_output_brightness(output_id, value);
        },
        None => {},
    }
    Ok(updates)
}

/// Sets the master volume of the engine and of the project.
pub fn set_master_volume(state: &mut AppState, value: u32) -> (result: Result<
    Vec<GainUpdate>,
    String,
>)
    ensures
        match old(state).player {
            Some(p) => {
                &&& final(state).player matches Some(q) && q@ == with_master_volume(p@, value)
                &&& result matches Ok(updates) && updates@ == gain_updates(
                    p@.graph.nodes,
                    GainKind::Volume,
                    Seq::empty(),
                    p@.overrides,
                    volume_gain_of(value) as i64,
                )
                &&& match old(state).project {
                    Some(project) => final(state).project matches Some(after) && after@ == (
                    ProjectView { master_volume: value, ..project@ }),
                    None => final(state).project is None,
                }
            },
            None => result matches Err(e) && e@ == no_player_text() && final(state).project == old(
                state,
            ).project && final(state).player is None,
        },
{
    let updates = match &mut state.player {
        Some(p) => p.set_master_volume(value),
        None => {
            return Err(no_player());
        },
    };
    match &mut state.project {
        Some(project) => {
            project.master_volume = value;
        },
        None => {},
    }
    Ok(updates)
}

/// The status shown for a state of the engine.
pub open spec fn status_of(state: PipelineState) -> PlayerStatus {
    match state {
        PipelineState::Null => PlayerStatus::Idle,
        PipelineState::Ready => PlayerStatus::Ready,
        PipelineState::Paused => PlayerStatus::Paused,
        PipelineState::Playing => PlayerStatus::Playing,
    }
}

/// The number, or zero where there is none.
pub open spec fn or_zero(value: Option<u64>) -> u64 {
    match value {
        Some(v) => v,
        None => 0,
    }
}

/// The snapshot of the player for the user interface, from what the graph
/// reports as its position and duration. A session without engine is idle
/// at zero.
pub fn get_player_state(
    state: &AppState,
    graph_position: Option<u64>,
    graph_duration: Option<u64>,
) -> (snapshot: PlayerState)
    ensures
        snapshot.current_cue_index == state.current_cue_index,
        snapshot.error is None,
        match state.player {
            Some(p) => {
                &&& snapshot.status == status_of(p@.state)
                &&& snapshot.current_time == or_zero(position_of(p@, graph_position))
                &&& snapshot.duration == or_zero(graph_duration)
            },
            None => {
                &&& snapshot.status == PlayerStatus::Idle
                &&& snapshot.current_time == 0
                &&& snapshot.duration == 0
            },
        },
{
    let (status, current_time, duration) = match &state.player {
        Some(player) => {
            let status = match player.state() {
                PipelineState::Null => PlayerStatus::Idle,
                PipelineState::Ready => PlayerStatus::Ready,
                PipelineState::Paused => PlayerStatus::Paused,
                PipelineState::Playing => PlayerStatus::Playing,
            };
            let position: u64 = match player.position(graph_position) {
                Some(p) => p,
                None => 0,
            };
            let duration: u64 = match player.duration(graph_duration) {
                Some(d) => d,
                None => 0,
            };
            (status, position, duration)
        },
        None => (PlayerStatus::Idle, 0, 0),
    };
    PlayerState {
        status,
        current_cue_index: state.current_cue_index,
        current_time,
        duration,
        error: None,
    }
}

} // verus!
