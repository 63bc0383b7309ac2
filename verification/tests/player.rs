use super_rodio::{ActiveSong, Make, PlaybackMode, PlayerAsset, Song, SongState};

fn song(name: &str, path: &str) -> Song {
    Song::from(String::from(name), String::from(path))
}

/// Drive one worker round the way a play session does: pop, start with
/// the decoded duration, play (outside the library), finish.  Returns
/// false when the waiting queue was empty.
fn run_round(p: &mut PlayerAsset, duration: u64) -> bool {
    match p.take_next() {
        Some(s) => {
            let copy = Song::from(s.name.clone(), s.path.clone());
            p.start_song(s, duration);
            p.finish_song(copy);
            true
        }
        None => false,
    }
}

#[test]
fn test_make_defaults() {
    let p = PlayerAsset::make();
    assert!(p.waiting_list().is_empty());
    assert!(p.played_list().is_empty());
    let active = p.current_song();
    assert!(active.song.is_none());
    assert_eq!(active.state, SongState::NONE);
    assert_eq!(active.progress, 0);
    assert_eq!(active.duration, 0);
    assert_eq!(p.volume, 500);
    assert_eq!(p.mode, PlaybackMode::NORMAL);
    assert!(!p.sink_open);
    assert!(!p.is_playing());
    assert!(!p.is_auto_mode());
}

#[test]
fn test_song_from() {
    let s = song("Music", "audio/music");
    assert_eq!(s.name, "Music");
    assert_eq!(s.path, "audio/music");
}

#[test]
fn test_active_song_from() {
    let a = ActiveSong::from(song("Music", "audio/music"), 2500);
    assert_eq!(a.song.as_ref().unwrap().name, "Music");
    assert_eq!(a.state, SongState::NONE);
    assert_eq!(a.progress, 0);
    assert_eq!(a.duration, 2500);
}

#[test]
fn test_add_then_waiting_list() {
    let mut p = PlayerAsset::make();
    p.add(song("A", "audio/a"));
    p.add(song("B", "audio/b"));
    let waiting = p.waiting_list();
    assert_eq!(waiting.len(), 2);
    assert_eq!(waiting[0].name, "A");
    assert_eq!(waiting[1].name, "B");
    assert!(p.played_list().is_empty());
}

#[test]
fn test_take_next_is_fifo_and_empties() {
    let mut p = PlayerAsset::make();
    p.add(song("A", "audio/a"));
    p.add(song("B", "audio/b"));
    let first = p.take_next().unwrap();
    assert_eq!(first.name, "A");
    let second = p.take_next().unwrap();
    assert_eq!(second.name, "B");
    assert!(p.take_next().is_none());
    assert!(p.waiting_list().is_empty());
}

#[test]
fn test_auto_session_fifo_order() {
    let mut p = PlayerAsset::make();
    p.add(song("A", "audio/a"));
    p.add(song("B", "audio/b"));
    p.add(song("C", "audio/c"));
    p.use_auto_play();
    p.open_sink();
    while run_round(&mut p, 1000) {
        if !p.is_auto_mode() {
            break;
        }
    }
    assert!(p.waiting_list().is_empty());
    let played = p.played_list();
    assert_eq!(played.len(), 3);
    assert_eq!(played[0].name, "A");
    assert_eq!(played[1].name, "B");
    assert_eq!(played[2].name, "C");
}

#[test]
fn test_bounded_eviction_on_waiting() {
    let mut p = PlayerAsset::make();
    for i in 0..1001u32 {
        p.add(song(&format!("t{}", i), "audio/t"));
    }
    let waiting = p.waiting_list();
    assert_eq!(waiting.len(), 1000);
    // the oldest entry, t0, was evicted
    assert_eq!(waiting[0].name, "t1");
    assert_eq!(waiting[999].name, "t1000");
}

#[test]
fn test_bounded_eviction_on_played() {
    let mut p = PlayerAsset::make();
    p.open_sink();
    for i in 0..1001u32 {
        p.add(song(&format!("t{}", i), "audio/t"));
        run_round(&mut p, 10);
    }
    let played = p.played_list();
    assert_eq!(played.len(), 1000);
    assert_eq!(played[0].name, "t1");
    assert_eq!(played[999].name, "t1000");
}

#[test]
fn test_mode_switch_mid_session_not_retroactive() {
    let mut p = PlayerAsset::make();
    p.add(song("A", "audio/a"));
    p.add(song("B", "audio/b"));
    p.add(song("C", "audio/c"));
    p.use_auto_play();
    p.open_sink();
    // round for A
    assert!(run_round(&mut p, 1000));
    assert!(p.is_auto_mode());
    // B starts playing, then the mode is switched mid-track
    let b = p.take_next().unwrap();
    let b_copy = Song::from(b.name.clone(), b.path.clone());
    p.start_song(b, 1000);
    p.use_normal_play();
    // B still finishes normally
    p.finish_song(b_copy);
    let snapshot = p.current_song();
    assert_eq!(snapshot.state, SongState::STOP);
    // only now does the session decision see NORMAL and end the loop
    assert!(!p.is_auto_mode());
    let waiting = p.waiting_list();
    assert_eq!(waiting.len(), 1);
    assert_eq!(waiting[0].name, "C");
    let played = p.played_list();
    assert_eq!(played.len(), 2);
    assert_eq!(played[0].name, "A");
    assert_eq!(played[1].name, "B");
}

#[test]
fn test_stop_clears_everything() {
    let mut p = PlayerAsset::make();
    p.add(song("A", "audio/a"));
    p.add(song("B", "audio/b"));
    p.open_sink();
    // the first track is mid-play when stop arrives
    let a = p.take_next().unwrap();
    p.start_song(a, 5000);
    p.stop();
    assert!(p.waiting_list().is_empty());
    assert!(p.played_list().is_empty());
}

#[test]
fn test_stop_without_session_is_noop() {
    let mut p = PlayerAsset::make();
    p.add(song("A", "audio/a"));
    p.stop();
    let waiting = p.waiting_list();
    assert_eq!(waiting.len(), 1);
    assert_eq!(waiting[0].name, "A");
}

#[test]
fn test_clear_empties_both_but_keeps_current() {
    let mut p = PlayerAsset::make();
    p.add(song("A", "audio/a"));
    p.add(song("B", "audio/b"));
    p.open_sink();
    run_round(&mut p, 700);
    p.clear();
    assert!(p.waiting_list().is_empty());
    assert!(p.played_list().is_empty());
    let snapshot = p.current_song();
    assert_eq!(snapshot.state, SongState::STOP);
    assert_eq!(snapshot.duration, 700);
}

#[test]
fn test_snapshot_after_normal_session() {
    let mut p = PlayerAsset::make();
    p.add(song("Music", "audio/music"));
    p.open_sink();
    let s = p.take_next().unwrap();
    let copy = Song::from(s.name.clone(), s.path.clone());
    p.start_song(s, 2500);
    assert!(p.is_playing());
    let mid = p.current_song();
    assert_eq!(mid.state, SongState::PLAY);
    assert_eq!(mid.song.as_ref().unwrap().name, "Music");
    assert_eq!(mid.progress, 0);
    p.finish_song(copy);
    let done = p.current_song();
    assert_eq!(done.state, SongState::STOP);
    assert_eq!(done.progress, done.duration);
    assert_eq!(done.duration, 2500);
    assert!(done.song.is_none());
}

#[test]
fn test_play_guard_refuses_second_session() {
    let mut p = PlayerAsset::make();
    p.add(song("A", "audio/a"));
    p.open_sink();
    let a = p.take_next().unwrap();
    let a_copy = Song::from(a.name.clone(), a.path.clone());
    p.start_song(a, 9000);
    // while the track plays, a second play() is a no-op: its guard sees this
    assert!(p.is_playing());
    p.finish_song(a_copy);
    assert!(!p.is_playing());
}

#[test]
fn test_empty_queue_session_is_noop() {
    let mut p = PlayerAsset::make();
    p.open_sink();
    assert!(p.take_next().is_none());
    let snapshot = p.current_song();
    assert!(snapshot.song.is_none());
    assert_eq!(snapshot.state, SongState::NONE);
    assert!(p.waiting_list().is_empty());
    assert!(p.played_list().is_empty());
}
