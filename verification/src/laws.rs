use vstd::prelude::*;

use crate::asset::{
    bounded_push, spec_add, spec_finish, spec_play_starts, spec_set_mode, spec_start, spec_stop,
    spec_take, PlaybackMode, PlayerModel, QUEUE_LIMIT,
};
use crate::song::{Song, SongState};

verus! {

/// One round of the worker loop, seen from the state: the oldest waiting
/// song is taken, started with the duration the decoder reported, played
/// to its end by the backend, and finished into the history.
pub open spec fn spec_session_round(m: PlayerModel, duration: u64) -> PlayerModel
    recommends
        m.waiting.len() > 0,
{
    let s = m.waiting[0];
    spec_finish(spec_start(spec_take(m).0, s, duration), s)
}

/// A whole worker session: rounds repeat while songs wait and the mode
/// read after each finished track is still `AUTO`.  The durations are the
/// values the decoder reports, one per round.
pub open spec fn spec_auto_session(m: PlayerModel, durations: Seq<u64>) -> PlayerModel
    decreases durations.len(),
{
    if m.waiting.len() == 0 || durations.len() == 0 {
        m
    } else {
        let m2 = spec_session_round(m, durations[0]);
        if m2.mode == PlaybackMode::AUTO {
            spec_auto_session(m2, durations.drop_first())
        } else {
            m2
        }
    }
}

/// Repeated `add`, one song after the other.
pub open spec fn spec_add_all(m: PlayerModel, songs: Seq<Song>) -> PlayerModel
    decreases songs.len(),
{
    if songs.len() == 0 {
        m
    } else {
        spec_add_all(spec_add(m, songs[0]), songs.drop_first())
    }
}

/// Once a track is started, a further `play` call is refused until the
/// track leaves the `PLAY` state: sessions are idempotent, never stacked.
pub proof fn lemma_play_refused_while_playing(m: PlayerModel, s: Song, duration: u64)
    ensures
        !spec_play_starts(spec_start(m, s, duration)),
{
}

/// One worker round moves exactly the head of the waiting queue to the
/// tail of the played history and touches no other queue entry; mode,
/// volume and channel stay as they were.
pub proof fn lemma_round_fifo(m: PlayerModel, duration: u64)
    requires
        m.inv(),
        m.waiting.len() > 0,
        m.played.len() < QUEUE_LIMIT,
    ensures
        spec_session_round(m, duration).waiting == m.waiting.drop_first(),
        spec_session_round(m, duration).played == m.played.push(m.waiting[0]),
        spec_session_round(m, duration).mode == m.mode,
        spec_session_round(m, duration).sink_open == m.sink_open,
        spec_session_round(m, duration).volume == m.volume,
        spec_session_round(m, duration).inv(),
{
}

/// First in, first out: a full auto-mode session empties the waiting
/// queue and appends it, in order, to the played history.
pub proof fn lemma_auto_session_fifo(m: PlayerModel, durations: Seq<u64>)
    requires
        m.inv(),
        m.mode == PlaybackMode::AUTO,
        durations.len() == m.waiting.len(),
        m.played.len() + m.waiting.len() <= QUEUE_LIMIT,
    ensures
        spec_auto_session(m, durations).waiting.len() == 0,
        spec_auto_session(m, durations).played == m.played + m.waiting,
    decreases durations.len(),
{
    if m.waiting.len() == 0 {
        assert(m.played + m.waiting =~= m.played);
    } else {
        let s = m.waiting[0];
        let m2 = spec_session_round(m, durations[0]);
        lemma_round_fifo(m, durations[0]);
        lemma_auto_session_fifo(m2, durations.drop_first());
        assert(m2.played + m2.waiting =~= m.played + m.waiting);
    }
}

/// Bounded eviction: however many songs are added, the waiting queue
/// never exceeds the bound, and once the bound is passed it holds exactly
/// the newest `QUEUE_LIMIT` entries, the oldest evicted first.  Nothing
/// else in the state moves.
pub proof fn lemma_bounded_eviction(m: PlayerModel, songs: Seq<Song>)
    requires
        m.inv(),
    ensures
        spec_add_all(m, songs).waiting.len() <= QUEUE_LIMIT,
        m.waiting.len() + songs.len() <= QUEUE_LIMIT ==> spec_add_all(m, songs).waiting
            == m.waiting + songs,
        m.waiting.len() + songs.len() > QUEUE_LIMIT ==> spec_add_all(m, songs).waiting == (
        m.waiting + songs).skip(m.waiting.len() + songs.len() - QUEUE_LIMIT),
        spec_add_all(m, songs).played == m.played,
        spec_add_all(m, songs).current == m.current,
        spec_add_all(m, songs).mode == m.mode,
        spec_add_all(m, songs).sink_open == m.sink_open,
    decreases songs.len(),
{
    if songs.len() == 0 {
        assert(m.waiting + songs =~= m.waiting);
    } else {
        let s0 = songs[0];
        let rest = songs.drop_first();
        let m1 = spec_add(m, s0);
        lemma_bounded_eviction(m1, rest);
        if m.waiting.len() < QUEUE_LIMIT {
            assert(m1.waiting + rest =~= m.waiting + songs);
        } else {
            assert(m1.waiting + rest =~= (m.waiting + songs).skip(1));
            if m1.waiting.len() + rest.len() > QUEUE_LIMIT {
                let over: int = m1.waiting.len() + rest.len() - QUEUE_LIMIT;
                assert(((m.waiting + songs).skip(1)).skip(over) =~= (m.waiting + songs).skip(
                    over + 1,
                ));
            }
        }
    }
}

/// A mode switch mid-session has no retroactive effect: switching to
/// `NORMAL` while a track plays commutes with finishing that track, the
/// track still completes into the history, the pending queue is
/// untouched, and only the decision to continue changes.
pub proof fn lemma_mode_switch_not_retroactive(m: PlayerModel, s: Song)
    ensures
        spec_finish(spec_set_mode(m, PlaybackMode::NORMAL), s) == spec_set_mode(
            spec_finish(m, s),
            PlaybackMode::NORMAL,
        ),
        spec_finish(spec_set_mode(m, PlaybackMode::NORMAL), s).waiting == m.waiting,
        spec_finish(spec_set_mode(m, PlaybackMode::NORMAL), s).played == bounded_push(
            m.played,
            s,
        ),
        spec_finish(spec_set_mode(m, PlaybackMode::NORMAL), s).mode != PlaybackMode::AUTO,
{
}

/// Stop clears everything: with an output channel attached, stopping
/// discards every pending and every played track, however far playback
/// had progressed.
pub proof fn lemma_stop_clears(m: PlayerModel)
    requires
        m.sink_open,
    ensures
        spec_stop(m).waiting.len() == 0,
        spec_stop(m).played.len() == 0,
        spec_stop(m).current == m.current,
{
}

/// Snapshot consistency: right after a track finishes, the record reads
/// as inactive, with no track loaded and the progress equal to the full
/// duration.
pub proof fn lemma_snapshot_after_finish(m: PlayerModel, s: Song)
    ensures
        spec_finish(m, s).current.state == SongState::STOP,
        spec_finish(m, s).current.progress == spec_finish(m, s).current.duration,
        spec_finish(m, s).current.song is None,
{
}

} // verus!
