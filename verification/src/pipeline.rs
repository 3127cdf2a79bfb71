//! The playback engine: the dataflow graph of a cue, the routing of its
//! streams, the frame forwarders and the player that drives them.

pub mod cue_player;
pub mod forwarder;
pub mod graph;
pub mod laws;
pub mod media_handler;
pub mod model;
pub mod ndi_sender;
pub mod router;
pub mod syphon_sender;
