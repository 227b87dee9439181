//! Playback control for a single-stream audio player: a cursor-navigable play
//! queue and the state machine that turns transport commands into requests
//! to a streaming engine.

pub mod command;
pub mod play_queue;
pub mod player;
pub mod stream;
pub mod track;

pub use command::{EventListener, PlayerCommand};
pub use play_queue::PlayQueue;
pub use player::Player;
pub use stream::{EngineAction, EngineState, StreamEvent, StreamState};
pub use track::Track;
