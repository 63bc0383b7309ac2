//! A playlist/playback state machine.
//!
//! The library owns the waiting and played queues, the active-track record,
//! the playback mode and the session transitions of a music player, all with
//! verified contracts.  The audio backend (device, decoding, the blocking
//! play call) and the thread/lock plumbing around this state live outside
//! the library and drive it through the public methods.

pub mod asset;
pub mod laws;
pub mod make;
pub mod queue;
pub mod song;

pub use asset::PlaybackMode;
pub use asset::PlayerAsset;
pub use make::Make;
pub use song::ActiveSong;
pub use song::Song;
pub use song::SongState;
