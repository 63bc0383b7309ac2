use vstd::prelude::*;

verus! {

/// A named reference to a playable audio resource.
#[derive(Clone, Debug)]
pub struct Song {
    pub name: String,
    pub path: String,
}

impl Song {
    pub fn from(name: String, path: String) -> (s: Song)
        ensures
            s.name == name,
            s.path == path,
    {
        Song { name, path }
    }
}

/// Lifecycle state of the active track record.
///
/// `NONE` means playback never started; `STOP` means the track finished or
/// was halted, which counts as inactive rather than paused.
#[allow(non_camel_case_types)]
#[derive(Clone, Copy, Debug, PartialEq, Eq, Structural)]
pub enum SongState {
    NONE,
    PLAY,
    PAUSE,
    STOP,
}

/// Snapshot of what is currently loaded: the optional track, its lifecycle
/// state, and elapsed/total time in milliseconds.
///
/// Exactly one such record exists per player; it describes "now playing",
/// not history, and is replaced wholesale when a new track starts.
#[derive(Clone, Debug)]
pub struct ActiveSong {
    pub song: Option<Song>,
    pub state: SongState,
    /// Elapsed playback time, in milliseconds.
    pub progress: u64,
    /// Total length of the track, in milliseconds; zero when unknown.
    pub duration: u64,
}

impl ActiveSong {
    pub fn from(song: Song, duration: u64) -> (r: ActiveSong)
        ensures
            r.song == Some(song),
            r.state == SongState::NONE,
            r.progress == 0,
            r.duration == duration,
    {
        ActiveSong { song: Some(song), state: SongState::NONE, progress: 0, duration }
    }
}

impl Default for ActiveSong {
    /// The record of a player that never started: no track loaded.
    fn default() -> (r: ActiveSong)
        ensures
            r.song is None,
            r.state == SongState::NONE,
            r.progress == 0,
            r.duration == 0,
    {
        ActiveSong { song: None, state: SongState::NONE, progress: 0, duration: 0 }
    }
}

} // verus!
