use std::collections::HashMap;
use vstd::prelude::*;

use crate::playlist::internal::{opposite_mode, PlayMode, Playlist, PlaylistView};

verus! {

broadcast use vstd::std_specs::hash::group_hash_axioms;

/// What the caller must do after a song was handed to a guild's playlist.
#[derive(Debug, PartialEq, Eq)]
pub enum SongAction {
    /// A track is playing; the song waits in the playlist.
    Queued,
    /// Nothing is playing; start this song now and record its track.
    Play(String),
}

/// The playlist of `guild_id` in `playlists`, a fresh one where there is none.
pub open spec fn guild_playlist<T>(playlists: Map<u64, Playlist<T>>, guild_id: u64) -> PlaylistView<
    T,
> {
    if playlists.contains_key(guild_id) {
        playlists[guild_id]@
    } else {
        PlaylistView::empty()
    }
}

/// `after` holds `guild_id` with a playlist whose state is `view`, and
/// every other guild's playlist as `before` had it.
pub open spec fn updated_guild<T>(
    before: Map<u64, Playlist<T>>,
    after: Map<u64, Playlist<T>>,
    guild_id: u64,
    view: PlaylistView<T>,
) -> bool {
    &&& after.dom() == before.dom().insert(guild_id)
    &&& forall|g: u64| g != guild_id && before.contains_key(g) ==> #[trigger] after[g] == before[g]
    &&& after[guild_id]@ == view
}

/// Putting a playlist back under its guild after taking it out updates
/// that guild alone.
proof fn lemma_put_back<T>(before: Map<u64, Playlist<T>>, guild_id: u64, playlist: Playlist<T>)
    ensures
        updated_guild(before, before.remove(guild_id).insert(guild_id, playlist), guild_id, playlist@),
{
    assert(before.remove(guild_id).insert(guild_id, playlist).dom() =~= before.dom().insert(guild_id));
}

/// The reply that names a mode.
pub open spec fn mode_message(mode: PlayMode) -> Seq<char> {
    match mode {
        PlayMode::Playing => "Playing in order"@,
        PlayMode::Shuffle => "Playing random shuffle"@,
    }
}

/// Takes the playlist of `guild_id` out of the map, or a fresh one.
fn take_playlist<T>(playlists: &mut HashMap<u64, Playlist<T>>, guild_id: u64) -> (playlist:
    Playlist<T>)
    ensures
        playlist@ == guild_playlist(old(playlists)@, guild_id),
        old(playlists)@.contains_key(guild_id) ==> playlist == old(playlists)@[guild_id],
        final(playlists)@ == old(playlists)@.remove(guild_id),
{
    match playlists.remove(&guild_id) {
        Some(playlist) => playlist,
        None => Playlist::default(),
    }
}

/// The track now playing in `guild_id`, if any.
pub fn current_track<T>(playlists: &HashMap<u64, Playlist<T>>, guild_id: u64) -> (track: Option<
    &T,
>)
    ensures
        match track {
            Some(t) => guild_playlist(playlists@, guild_id).current_track == Some(*t),
            None => guild_playlist(playlists@, guild_id).current_track is None,
        },
{
    match playlists.get(&guild_id) {
        Some(playlist) => playlist.current_track(),
        None => None,
    }
}

/// Creates the guild's playlist if needed and forgets its current track
/// unless the player reported it still playing.
pub fn refresh_current_track<T>(
    playlists: &mut HashMap<u64, Playlist<T>>,
    guild_id: u64,
    still_playing: bool,
)
    ensures
        updated_guild(
            old(playlists)@,
            final(playlists)@,
            guild_id,
            PlaylistView {
                current_track: if still_playing {
                    guild_playlist(old(playlists)@, guild_id).current_track
                } else {
                    None
                },
                ..guild_playlist(old(playlists)@, guild_id)
            },
        ),
{
    let mut playlist = take_playlist(playlists, guild_id);
    let _ = playlist.get_current_track(still_playing);
    proof {
        lemma_put_back(old(playlists)@, guild_id, playlist);
    }
    playlists.insert(guild_id, playlist);
}

/// Hands a song to the guild's playlist (created if needed). With a track
/// playing the song waits: on the immediate queue if `immediate`, else on
/// the loop list. With nothing playing the song is to be played at once,
/// and unless `immediate` it also joins the loop list.
pub fn add_song<T>(
    playlists: &mut HashMap<u64, Playlist<T>>,
    guild_id: u64,
    song: String,
    immediate: bool,
) -> (action: SongAction)
    ensures
        ({
            let before = guild_playlist(old(playlists)@, guild_id);
            if before.current_track is Some {
                &&& action == SongAction::Queued
                &&& updated_guild(
                    old(playlists)@,
                    final(playlists)@,
                    guild_id,
                    if immediate {
                        PlaylistView {
                            immediate_songs: before.immediate_songs.push(song),
                            ..before
                        }
                    } else {
                        PlaylistView { loop_songs: before.loop_songs.push(song), ..before }
                    },
                )
            } else {
                &&& action == SongAction::Play(song)
                &&& updated_guild(
                    old(playlists)@,
                    final(playlists)@,
                    guild_id,
                    if immediate {
                        before
                    } else {
                        PlaylistView { loop_songs: before.loop_songs.push(song), ..before }
                    },
                )
            }
        }),
{
    let mut playlist = take_playlist(playlists, guild_id);
    let playing = playlist.current_track().is_some();
    let action = if playing {
        if immediate {
            playlist.add_now(song);
        } else {
            playlist.add_to_playlist(song);
        }
        SongAction::Queued
    } else {
        if !immediate {
            playlist.add_to_playlist(song.clone());
        }
        SongAction::Play(song)
    };
    proof {
        lemma_put_back(old(playlists)@, guild_id, playlist);
    }
    playlists.insert(guild_id, playlist);
    action
}

/// Records the track just started for the guild (playlist created if needed).
pub fn set_current_track<T>(playlists: &mut HashMap<u64, Playlist<T>>, guild_id: u64, track: T)
    ensures
        updated_guild(
            old(playlists)@,
            final(playlists)@,
            guild_id,
            PlaylistView {
                current_track: Some(track),
                ..guild_playlist(old(playlists)@, guild_id)
            },
        ),
{
    let mut playlist = take_playlist(playlists, guild_id);
    playlist.set_current_track(track);
    proof {
        lemma_put_back(old(playlists)@, guild_id, playlist);
    }
    playlists.insert(guild_id, playlist);
}

/// Whether the guild's playlist (a fresh one where there is none) can hand
/// out a next song without taking a random index modulo zero.
pub fn can_take_next_song<T>(playlists: &HashMap<u64, Playlist<T>>, guild_id: u64) -> (ok: bool)
    ensures
        ok == guild_playlist(playlists@, guild_id).can_advance(),
{
    match playlists.get(&guild_id) {
        Some(playlist) => playlist.can_advance(),
        None => false,
    }
}

/// Takes the next song of the guild's playlist (created if needed).
pub fn next_song<T>(playlists: &mut HashMap<u64, Playlist<T>>, guild_id: u64) -> (song: Option<
    String,
>)
    requires
        guild_playlist(old(playlists)@, guild_id).can_advance(),
    ensures
        exists|roll: u64|
            {
                let (after, taken) = #[trigger] guild_playlist(old(playlists)@, guild_id).next_song(
                    roll,
                );
                &&& taken == song
                &&& updated_guild(old(playlists)@, final(playlists)@, guild_id, after)
            },
{
    let mut playlist = take_playlist(playlists, guild_id);
    let song = playlist.next_song();
    proof {
        lemma_put_back(old(playlists)@, guild_id, playlist);
    }
    playlists.insert(guild_id, playlist);
    song
}

/// Answers a request to switch the guild's play mode: an error where the
/// guild has no playlist, else the name of the mode opposite to the
/// current one. The playlists are left as they are.
pub fn switch_shuffle<T>(playlists: &mut HashMap<u64, Playlist<T>>, guild_id: u64) -> (reply:
    Result<String, String>)
    ensures
        final(playlists)@ == old(playlists)@,
        match reply {
            Ok(text) => {
                &&& old(playlists)@.contains_key(guild_id)
                &&& text@ == mode_message(opposite_mode(old(playlists)@[guild_id]@.play_state))
            },
            Err(text) => {
                &&& !old(playlists)@.contains_key(guild_id)
                &&& text@ == "Missing playlist"@
            },
        },
{
    if !playlists.contains_key(&guild_id) {
        return Err("Missing playlist".to_owned());
    }
    let mut playlist = take_playlist(playlists, guild_id);
    let mode = playlist.switch_playstate();
    playlists.insert(guild_id, playlist);
    proof {
        assert(final(playlists)@ =~= old(playlists)@);
    }
    let text = match mode {
        PlayMode::Playing => "Playing in order",
        PlayMode::Shuffle => "Playing random shuffle",
    };
    Ok(text.to_owned())
}

} // verus!
