//! What the player reports about itself.

use vstd::prelude::*;
use vstd::string::*;

verus! {

/// The status shown for the player.
#[derive(Debug, Clone, Copy, PartialEq, Eq, Structural)]
pub enum PlayerStatus {
    Idle,
    Loading,
    Ready,
    Playing,
    Paused,
    Error,
}

/// A snapshot of the player for the user interface.
#[derive(Debug, PartialEq, Eq)]
pub struct PlayerState {
    pub status: PlayerStatus,
    /// Index of the loaded cue, or -1 when none is loaded.
    pub current_cue_index: i32,
    /// Position in nanoseconds.
    pub current_time: u64,
    /// Duration in nanoseconds.
    pub duration: u64,
    pub error: Option<String>,
}

impl Clone for PlayerState {
    fn clone(&self) -> (r: Self)
        ensures
            r.status == self.status,
            r.current_cue_index == self.current_cue_index,
            r.current_time == self.current_time,
            r.duration == self.duration,
            super::media::opt_chars(r.error) == super::media::opt_chars(self.error),
    {
        PlayerState {
            status: self.status,
            current_cue_index: self.current_cue_index,
            current_time: self.current_time,
            duration: self.duration,
            error: super::media::clone_opt_text(&self.error),
        }
    }
}

impl Default for PlayerState {
    /// An idle player with no cue loaded.
    fn default() -> (r: Self)
        ensures
            r.status == PlayerStatus::Idle,
            r.current_cue_index == -1,
            r.current_time == 0,
            r.duration == 0,
            r.error is None,
    {
        PlayerState {
            status: PlayerStatus::Idle,
            current_cue_index: -1,
            current_time: 0,
            duration: 0,
            error: None,
        }
    }
}

} // verus!
