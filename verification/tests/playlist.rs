use std::collections::HashMap;

use music_bot::playlist::internal::{PlayMode, Playlist};
use music_bot::playlist::key::{
    add_song, can_take_next_song, current_track, next_song, refresh_current_track,
    set_current_track, switch_shuffle, SongAction,
};

fn s(text: &str) -> String {
    text.to_string()
}

#[test]
fn default_mode_is_shuffle() {
    assert_eq!(PlayMode::default(), PlayMode::Shuffle);
}

#[test]
fn fresh_playlist_cannot_advance() {
    let playlist: Playlist<u32> = Playlist::default();
    assert!(!playlist.can_advance());
    assert!(playlist.current_track.is_none());
}

#[test]
fn add_now_then_next_song_gives_it_back() {
    let mut playlist: Playlist<u32> = Playlist::default();
    playlist.add_now(s("abc"));
    assert!(playlist.can_advance());
    assert_eq!(playlist.next_song(), Some(s("abc")));
    assert!(!playlist.can_advance());
}

#[test]
fn immediate_queue_is_fifo_and_served_first() {
    let mut playlist: Playlist<u32> = Playlist::default();
    playlist.add_to_playlist(s("loop"));
    playlist.add_now(s("first"));
    playlist.add_now(s("second"));
    assert_eq!(playlist.next_song_with(7), Some(s("first")));
    assert_eq!(playlist.next_song_with(7), Some(s("second")));
    assert_eq!(playlist.next_song_with(7), Some(s("loop")));
}

#[test]
fn shuffle_picks_roll_modulo_length() {
    let mut playlist: Playlist<u32> = Playlist::default();
    playlist.add_to_playlist(s("a"));
    playlist.add_to_playlist(s("b"));
    playlist.add_to_playlist(s("c"));
    assert_eq!(playlist.next_song_with(4), Some(s("b")));
    assert_eq!(playlist.next_song_with(4), Some(s("a")));
    assert_eq!(playlist.next_song_with(4), Some(s("c")));
    assert!(!playlist.can_advance());
}

#[test]
fn shuffle_random_song_comes_from_the_list() {
    let mut playlist: Playlist<u32> = Playlist::default();
    let songs = vec![s("a"), s("b"), s("c"), s("d")];
    for song in &songs {
        playlist.add_to_playlist(song.clone());
    }
    let mut taken = Vec::new();
    while playlist.can_advance() {
        taken.push(playlist.next_song().unwrap());
    }
    taken.sort();
    assert_eq!(taken, songs);
}

#[test]
fn shuffle_single_song_any_roll() {
    for roll in [0u64, 1, 99, u64::MAX] {
        let mut playlist: Playlist<u32> = Playlist::default();
        playlist.add_to_playlist(s("only"));
        assert_eq!(playlist.next_song_with(roll), Some(s("only")));
    }
}

#[test]
fn switch_playstate_announces_opposite_and_changes_nothing() {
    let mut playlist: Playlist<u32> = Playlist::default();
    assert_eq!(playlist.switch_playstate(), PlayMode::Playing);
    assert_eq!(playlist.switch_playstate(), PlayMode::Playing);
    playlist.add_to_playlist(s("a"));
    playlist.add_to_playlist(s("b"));
    // still shuffling: roll 1 picks the second song
    assert_eq!(playlist.next_song_with(1), Some(s("b")));
}

#[test]
fn current_track_kept_while_playing_and_forgotten_after() {
    let mut playlist: Playlist<u32> = Playlist::default();
    assert_eq!(playlist.get_current_track(true), None);
    playlist.set_current_track(5);
    assert_eq!(playlist.get_current_track(true), Some(&5));
    assert_eq!(playlist.current_track(), Some(&5));
    assert_eq!(playlist.get_current_track(false), None);
    assert_eq!(playlist.current_track(), None);
}

#[test]
fn add_song_when_idle_plays_and_keeps_in_loop() {
    let mut map: HashMap<u64, Playlist<u32>> = HashMap::new();
    let action = add_song(&mut map, 1, s("song"), false);
    assert_eq!(action, SongAction::Play(s("song")));
    assert!(map.contains_key(&1));
    set_current_track(&mut map, 1, 10);
    assert_eq!(current_track(&map, 1), Some(&10));
    refresh_current_track(&mut map, 1, false);
    assert_eq!(current_track(&map, 1), None);
    assert!(can_take_next_song(&map, 1));
    assert_eq!(next_song(&mut map, 1), Some(s("song")));
    assert!(!can_take_next_song(&map, 1));
}

#[test]
fn add_song_immediate_when_idle_is_not_kept() {
    let mut map: HashMap<u64, Playlist<u32>> = HashMap::new();
    assert_eq!(add_song(&mut map, 3, s("now"), true), SongAction::Play(s("now")));
    assert!(!can_take_next_song(&map, 3));
}

#[test]
fn add_song_while_playing_queues() {
    let mut map: HashMap<u64, Playlist<u32>> = HashMap::new();
    set_current_track(&mut map, 2, 1);
    assert_eq!(add_song(&mut map, 2, s("later"), false), SongAction::Queued);
    assert_eq!(add_song(&mut map, 2, s("next"), true), SongAction::Queued);
    assert_eq!(next_song(&mut map, 2), Some(s("next")));
    assert_eq!(next_song(&mut map, 2), Some(s("later")));
    assert_eq!(current_track(&map, 2), Some(&1));
}

#[test]
fn guilds_are_independent() {
    let mut map: HashMap<u64, Playlist<u32>> = HashMap::new();
    set_current_track(&mut map, 1, 1);
    add_song(&mut map, 1, s("one"), true);
    assert_eq!(add_song(&mut map, 2, s("two"), true), SongAction::Play(s("two")));
    assert!(can_take_next_song(&map, 1));
    assert!(!can_take_next_song(&map, 2));
    assert_eq!(current_track(&map, 2), None);
}

#[test]
fn switch_shuffle_replies() {
    let mut map: HashMap<u64, Playlist<u32>> = HashMap::new();
    assert_eq!(switch_shuffle(&mut map, 9), Err(s("Missing playlist")));
    assert!(map.is_empty());
    refresh_current_track(&mut map, 9, true);
    assert_eq!(switch_shuffle(&mut map, 9), Ok(s("Playing in order")));
    assert_eq!(switch_shuffle(&mut map, 9), Ok(s("Playing in order")));
}
