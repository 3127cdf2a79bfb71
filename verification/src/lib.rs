//! Playback orchestration core for a multi-destination live show player.
//!
//! A project names output destinations (screens, network video feeds, GPU
//! texture shares, audio devices) and cues; a cue is a set of media items,
//! each routed to one destination and played in lock-step with the others.
//!
//! This crate holds the decisions of the playback engine as verified code
//! over plain values: which processing nodes a cue needs and how they are
//! linked, how a negotiated stream is routed to its destination, which gain
//! each destination gets, how transport commands move the engine between its
//! states, and what a frame forwarder reports as the live position. The
//! media framework, the windowing shell and the network SDKs stay outside:
//! the embedding program performs what the engine has decided and reports
//! back what happened.
//!
//! Units: brightness and volume levels are integers in thousandths of a
//! user-interface unit (`100_000` is the neutral brightness 100), gains are
//! integers in millionths (`1_000_000` is unity), and all times are
//! nanoseconds.

pub mod audio;
pub mod commands;
pub mod error;
pub mod gain;
pub mod id_map;
pub mod output;
pub mod pipeline;
pub mod state;
pub mod text;
pub mod types;

use vstd::prelude::*;
use crate::output::native_handle::Platform;

verus! {

/// The name of the environment variable that tells the network video
/// plugin where the library of the SDK lies.
pub open spec fn ndi_runtime_variable_name() -> Seq<char> {
    "NDI_RUNTIME_DIR_V6"@
}

/// The name of the environment variable that tells the network video
/// plugin where the library of the SDK lies.
pub fn ndi_runtime_variable() -> (name: &'static str)
    ensures
        name@ == ndi_runtime_variable_name(),
{
    "NDI_RUNTIME_DIR_V6"
}

/// Decides what the runtime variable of the network video plugin is set to
/// before the media framework starts. `current` is the variable's value as
/// the environment has it. On macOS a variable that is not set is set to the
/// directory the SDK installs its library in; a variable that is set stays,
/// and other platforms find the library by themselves.
pub fn setup_ndi_library_path(platform: Platform, current: Option<&str>) -> (value: Option<
    &'static str,
>)
    ensures
        match value {
            Some(path) => platform == Platform::MacOs && current is None && path@
                == "/usr/local/lib"@,
            None => platform != Platform::MacOs || current is Some,
        },
{
    match platform {
        Platform::MacOs => match current {
            Some(_) => None,
            None => Some("/usr/local/lib"),
        },
        _ => None,
    }
}

} // verus!
