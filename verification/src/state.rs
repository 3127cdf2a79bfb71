//! The state of one session of the player.

use vstd::prelude::*;
use crate::output::manager::OutputManager;
use crate::output::native_handle::Platform;
use crate::output::standby::StandbyManager;
use crate::pipeline::cue_player::CuePlayer;
use crate::types::Project;

verus! {

/// Everything a session holds: the engine, the open outputs, their standby
/// graphs, the project and the index of the loaded cue.
pub struct AppState {
    /// The engine, once the media framework is up.
    pub player: Option<CuePlayer>,
    pub output_manager: OutputManager,
    pub standby_manager: StandbyManager,
    pub project: Option<Project>,
    /// The index of the loaded cue, or -1 while none is loaded.
    pub current_cue_index: i32,
}

impl AppState {
    /// A session without engine, outputs or project.
    pub fn new() -> (state: Self)
        ensures
            state.player is None,
            state.output_manager@.len() == 0,
            state.standby_manager@.len() == 0,
            state.project is None,
            state.current_cue_index == -1,
    {
        AppState {
            player: None,
            output_manager: OutputManager::new(),
            standby_manager: StandbyManager::new(),
            project: None,
            current_cue_index: -1,
        }
    }

    /// Gives the session its engine, with nothing loaded. Called once the
    /// media framework has been started.
    pub fn init_player(&mut self, platform: Platform)
        ensures
            final(self).player matches Some(p) && p@ == crate::pipeline::model::initial_player(
                platform,
            ),
            final(self).output_manager == old(self).output_manager,
            final(self).standby_manager == old(self).standby_manager,
            final(self).project == old(self).project,
            final(self).current_cue_index == old(self).current_cue_index,
    {
        self.player = Some(CuePlayer::new(platform));
    }
}

impl Default for AppState {
    fn default() -> (state: Self)
        ensures
            state.player is None,
            state.output_manager@.len() == 0,
            state.standby_manager@.len() == 0,
            state.project is None,
            state.current_cue_index == -1,
    {
        AppState::new()
    }
}

} // verus!
