use vstd::prelude::*;

use crate::make::Make;
use crate::queue::{
    queue_cap, queue_clear, queue_pop, queue_push, queue_seq, queue_to_vec, queue_with_capacity,
};
use crate::song::{ActiveSong, Song, SongState};
use limited_queue::LimitedQueue;

verus! {

/// Upper bound on the waiting and played queues: pushing beyond it
/// silently evicts the oldest entry.
pub const QUEUE_LIMIT: usize = 1000;

/// Volume is kept in permille of full scale, so it ranges over
/// `0..=VOLUME_SCALE`; the backend divides by this scale.
pub const VOLUME_SCALE: u32 = 1000;

/// Default volume: half of full scale.
pub const DEFAULT_VOLUME: u32 = 500;

/// Whether a finished track ends the session (`NORMAL`) or the worker
/// drains the waiting queue continuously (`AUTO`).
#[allow(non_camel_case_types)]
#[derive(Clone, Copy, Debug, PartialEq, Eq, Structural)]
pub enum PlaybackMode {
    NORMAL,
    AUTO,
}

impl Default for PlaybackMode {
    fn default() -> (r: PlaybackMode)
        ensures
            r == PlaybackMode::NORMAL,
    {
        PlaybackMode::NORMAL
    }
}

/// The mathematical state of a player: what `PlayerAsset` looks like once
/// the queues are read as sequences, oldest first.  All contracts and laws
/// are stated over this model.
#[verifier::ext_equal]
pub struct PlayerModel {
    /// Whether an output channel is attached; it stands for the live
    /// backend session that outlives every track of one `play` call.
    pub sink_open: bool,
    pub waiting: Seq<Song>,
    pub current: ActiveSong,
    pub played: Seq<Song>,
    pub volume: u32,
    pub mode: PlaybackMode,
}

impl PlayerModel {
    /// The state invariant: both queues stay within the bound, the volume
    /// is a valid permille value, and a playing track implies an attached
    /// output channel.
    pub open spec fn inv(self) -> bool {
        &&& self.waiting.len() <= QUEUE_LIMIT
        &&& self.played.len() <= QUEUE_LIMIT
        &&& self.volume <= VOLUME_SCALE
        &&& self.current.state == SongState::PLAY ==> self.sink_open
    }
}

/// The state a player starts in: nothing queued, nothing played, no track
/// loaded, half volume, normal mode, no output channel.
pub open spec fn initial_model() -> PlayerModel {
    PlayerModel {
        sink_open: false,
        waiting: Seq::<Song>::empty(),
        current: ActiveSong { song: None, state: SongState::NONE, progress: 0, duration: 0 },
        played: Seq::<Song>::empty(),
        volume: DEFAULT_VOLUME,
        mode: PlaybackMode::NORMAL,
    }
}

/// Append to a bounded queue: beyond `QUEUE_LIMIT` the oldest entry falls
/// out, first in, first evicted.
pub open spec fn bounded_push(q: Seq<Song>, s: Song) -> Seq<Song> {
    if q.len() < QUEUE_LIMIT {
        q.push(s)
    } else {
        q.drop_first().push(s)
    }
}

/// `add`: the song joins the end of the waiting queue.
pub open spec fn spec_add(m: PlayerModel, s: Song) -> PlayerModel {
    PlayerModel { waiting: bounded_push(m.waiting, s), ..m }
}

/// `take_next`: the oldest waiting song leaves the queue and is handed to
/// the worker; on an empty queue nothing changes.
pub open spec fn spec_take(m: PlayerModel) -> (PlayerModel, Option<Song>) {
    if m.waiting.len() == 0 {
        (m, None)
    } else {
        (PlayerModel { waiting: m.waiting.drop_first(), ..m }, Some(m.waiting[0]))
    }
}

/// `start_song`: the active record is replaced wholesale for this track
/// and playback begins at progress zero.
pub open spec fn spec_start(m: PlayerModel, s: Song, duration: u64) -> PlayerModel {
    PlayerModel {
        current: ActiveSong {
            song: Some(s),
            state: SongState::PLAY,
            progress: 0,
            duration,
        },
        ..m
    }
}

/// `finish_song`: progress snaps to the full duration, the record goes
/// inactive, and the track enters the played history.
pub open spec fn spec_finish(m: PlayerModel, s: Song) -> PlayerModel {
    PlayerModel {
        current: ActiveSong {
            song: None,
            state: SongState::STOP,
            progress: m.current.duration,
            duration: m.current.duration,
        },
        played: bounded_push(m.played, s),
        ..m
    }
}

/// `use_normal_play` / `use_auto_play`: only the mode changes.
pub open spec fn spec_set_mode(m: PlayerModel, mode: PlaybackMode) -> PlayerModel {
    PlayerModel { mode, ..m }
}

/// `open_sink`: an output channel is attached for the coming session.
pub open spec fn spec_open_sink(m: PlayerModel) -> PlayerModel {
    PlayerModel { sink_open: true, ..m }
}

/// `clear`: both queues are emptied; the active record and the channel
/// are untouched.
pub open spec fn spec_clear(m: PlayerModel) -> PlayerModel {
    PlayerModel { waiting: Seq::<Song>::empty(), played: Seq::<Song>::empty(), ..m }
}

/// `stop`: with an output channel attached the whole session is aborted
/// and both queues are discarded; with none it is a no-op.
pub open spec fn spec_stop(m: PlayerModel) -> PlayerModel {
    if m.sink_open {
        spec_clear(m)
    } else {
        m
    }
}

/// Whether a `play` call starts a session: it is refused while a track is
/// already playing, so at most one worker runs per player.
pub open spec fn spec_play_starts(m: PlayerModel) -> bool {
    m.current.state != SongState::PLAY
}

/// The state one player owns: the bounded waiting and played queues, the
/// active-track record, the volume, the playback mode, and whether an
/// output channel is attached.  The audio objects themselves (the channel,
/// the device factory) live with the backend that drives this state.
pub struct PlayerAsset {
    pub sink_open: bool,
    pub waiting_q: LimitedQueue<Song>,
    pub current: ActiveSong,
    pub played_q: LimitedQueue<Song>,
    pub volume: u32,
    pub mode: PlaybackMode,
}

impl View for PlayerAsset {
    type V = PlayerModel;

    open spec fn view(&self) -> PlayerModel {
        PlayerModel {
            sink_open: self.sink_open,
            waiting: queue_seq(self.waiting_q),
            current: self.current,
            played: queue_seq(self.played_q),
            volume: self.volume,
            mode: self.mode,
        }
    }
}

impl PlayerAsset {
    /// Well-formed: both queues were created with the fixed bound, and the
    /// model invariant holds.  Every method keeps this.
    pub open spec fn wf(&self) -> bool {
        &&& queue_cap(self.waiting_q) == QUEUE_LIMIT as nat
        &&& queue_cap(self.played_q) == QUEUE_LIMIT as nat
        &&& self@.inv()
    }

    /// Append a song to the waiting queue; beyond the bound the oldest
    /// waiting song is silently evicted.  Never fails.
    pub fn add(&mut self, song: Song)
        requires
            old(self).wf(),
        ensures
            final(self).wf(),
            final(self)@ == spec_add(old(self)@, song),
    {
        queue_push(&mut self.waiting_q, song);
    }

    /// Point-in-time copy of the waiting queue, oldest first.
    pub fn waiting_list(&self) -> (r: Vec<Song>)
        ensures
            r@ == self@.waiting,
    {
        queue_to_vec(&self.waiting_q)
    }

    /// Point-in-time copy of the played history, oldest first.
    pub fn played_list(&self) -> (r: Vec<Song>)
        ensures
            r@ == self@.played,
    {
        queue_to_vec(&self.played_q)
    }

    /// Point-in-time copy of the active-track record.
    pub fn current_song(&self) -> (r: ActiveSong)
        ensures
            r == self.current,
    {
        let song = match &self.current.song {
            Some(s) => Some(Song { name: s.name.clone(), path: s.path.clone() }),
            None => None,
        };
        ActiveSong {
            song,
            state: self.current.state,
            progress: self.current.progress,
            duration: self.current.duration,
        }
    }

    /// Whether the active track is in the `PLAY` state right now.
    pub fn is_playing(&self) -> (r: bool)
        ensures
            r == (self@.current.state == SongState::PLAY),
            r == !spec_play_starts(self@),
    {
        self.current.state == SongState::PLAY
    }

    /// Whether the worker loop continues after a finished track.
    pub fn is_auto_mode(&self) -> (r: bool)
        ensures
            r == (self@.mode == PlaybackMode::AUTO),
    {
        self.mode == PlaybackMode::AUTO
    }

    /// Switch to normal mode: play one track, then stop.  Takes effect at
    /// the next loop decision, never for the track in progress.
    pub fn use_normal_play(&mut self)
        requires
            old(self).wf(),
        ensures
            final(self).wf(),
            final(self)@ == spec_set_mode(old(self)@, PlaybackMode::NORMAL),
    {
        self.mode = PlaybackMode::NORMAL;
    }

    /// Switch to auto mode: drain the waiting queue continuously.
    pub fn use_auto_play(&mut self)
        requires
            old(self).wf(),
        ensures
            final(self).wf(),
            final(self)@ == spec_set_mode(old(self)@, PlaybackMode::AUTO),
    {
        self.mode = PlaybackMode::AUTO;
    }

    /// Record that an output channel was attached for the coming session.
    /// The channel itself lives with the backend; it is created once per
    /// `play` call and reused for every track of that session.
    pub fn open_sink(&mut self)
        requires
            old(self).wf(),
        ensures
            final(self).wf(),
            final(self)@ == spec_open_sink(old(self)@),
    {
        self.sink_open = true;
    }

    /// Pop the oldest waiting song for the worker; `None` ends the
    /// session and leaves the state as it is.
    pub fn take_next(&mut self) -> (r: Option<Song>)
        requires
            old(self).wf(),
        ensures
            final(self).wf(),
            final(self)@ == spec_take(old(self)@).0,
            r == spec_take(old(self)@).1,
    {
        queue_pop(&mut self.waiting_q)
    }

    /// Replace the active record for this track and mark it playing.
    /// Needs the output channel of the session to be attached: a playing
    /// track without one would break the invariant.
    pub fn start_song(&mut self, song: Song, duration: u64)
        requires
            old(self).wf(),
            old(self)@.sink_open,
        ensures
            final(self).wf(),
            final(self)@ == spec_start(old(self)@, song, duration),
    {
        self.current = ActiveSong::from(song, duration);
        self.current.state = SongState::PLAY;
    }

    /// End-of-play bookkeeping: progress snaps to the duration, the
    /// record goes inactive, and the track joins the played history
    /// (evicting its oldest entry when full).
    pub fn finish_song(&mut self, song: Song)
        requires
            old(self).wf(),
        ensures
            final(self).wf(),
            final(self)@ == spec_finish(old(self)@, song),
    {
        self.current.progress = self.current.duration;
        self.current.state = SongState::STOP;
        self.current.song = None;
        queue_push(&mut self.played_q, song);
    }

    /// Empty both queues; the active record and the channel are left
    /// alone.
    pub fn clear(&mut self)
        requires
            old(self).wf(),
        ensures
            final(self).wf(),
            final(self)@ == spec_clear(old(self)@),
    {
        queue_clear(&mut self.waiting_q);
        queue_clear(&mut self.played_q);
    }

    /// Abort the whole session: with an output channel attached (the
    /// backend is told to halt alongside), every pending and played track
    /// is discarded.  With no channel it is a defined no-op.
    pub fn stop(&mut self)
        requires
            old(self).wf(),
        ensures
            final(self).wf(),
            final(self)@ == spec_stop(old(self)@),
    {
        if self.sink_open {
            self.clear();
        }
    }
}

impl Make<PlayerAsset> for PlayerAsset {
    /// A fresh player: empty bounded queues, no track, half volume,
    /// normal mode, no output channel.
    fn make() -> (r: PlayerAsset)
        ensures
            r.wf(),
            r@ == initial_model(),
    {
        PlayerAsset {
            sink_open: false,
            waiting_q: queue_with_capacity(QUEUE_LIMIT),
            current: ActiveSong::default(),
            played_q: queue_with_capacity(QUEUE_LIMIT),
            volume: DEFAULT_VOLUME,
            mode: PlaybackMode::NORMAL,
        }
    }
}

} // verus!
