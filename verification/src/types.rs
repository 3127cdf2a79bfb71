//! The data model: projects, cues, media items, outputs and player state.

pub mod media;
pub mod output;
pub mod player;
pub mod project;

pub use media::{Cue, CueView, MediaItem, MediaItemView, MediaType};
pub use output::{
    AudioDriver, MonitorInfo, NdiSource, OutputTarget, OutputTargetView, OutputType,
};
pub use player::{PlayerState, PlayerStatus};
pub use project::{PreviewQuality, Project, ProjectSettings, ProjectView};
