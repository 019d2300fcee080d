use std::collections::VecDeque;
use vstd::prelude::*;

verus! {

/// How songs are taken from the loop list once the immediate queue is empty.
#[derive(Clone, Copy, Debug, PartialEq, Eq, Structural)]
pub enum PlayMode {
    /// Songs come out in the order they were added.
    Playing,
    /// Songs come out at a random position of the loop list.
    Shuffle,
}

impl Default for PlayMode {
    fn default() -> (mode: PlayMode)
        ensures
            mode == PlayMode::Shuffle,
    {
        PlayMode::Shuffle
    }
}

/// The mode that a switch of `mode` announces.
pub open spec fn opposite_mode(mode: PlayMode) -> PlayMode {
    match mode {
        PlayMode::Playing => PlayMode::Shuffle,
        PlayMode::Shuffle => PlayMode::Playing,
    }
}

/// Abstract state of a playlist.
pub struct PlaylistView<T> {
    pub play_state: PlayMode,
    pub paused: bool,
    pub loop_songs: Seq<String>,
    pub immediate_songs: Seq<String>,
    pub current_track: Option<T>,
}

impl<T> PlaylistView<T> {
    /// The state of a fresh playlist.
    pub open spec fn empty() -> PlaylistView<T> {
        PlaylistView {
            play_state: PlayMode::Shuffle,
            paused: false,
            loop_songs: Seq::empty(),
            immediate_songs: Seq::empty(),
            current_track: None,
        }
    }

    /// Whether taking the next song is defined: in shuffle mode with both
    /// lists empty the random index would be taken modulo zero.
    pub open spec fn can_advance(self) -> bool {
        !(self.immediate_songs.len() == 0 && self.play_state == PlayMode::Shuffle
            && self.loop_songs.len() == 0)
    }

    /// The state after taking the next song with random number `roll`,
    /// and the song taken.
    pub open spec fn next_song(self, roll: u64) -> (PlaylistView<T>, Option<String>) {
        if self.immediate_songs.len() > 0 {
            (
                PlaylistView { immediate_songs: self.immediate_songs.drop_first(), ..self },
                Some(self.immediate_songs[0]),
            )
        } else {
            match self.play_state {
                PlayMode::Playing => {
                    if self.loop_songs.len() == 0 {
                        (self, None)
                    } else {
                        (
                            PlaylistView { loop_songs: self.loop_songs.drop_first(), ..self },
                            Some(self.loop_songs[0]),
                        )
                    }
                },
                PlayMode::Shuffle => {
                    let i = (roll as int) % (self.loop_songs.len() as int);
                    (
                        PlaylistView { loop_songs: self.loop_songs.remove(i), ..self },
                        Some(self.loop_songs[i]),
                    )
                },
            }
        }
    }

    /// All songs the playlist still holds, queued ones first.
    pub open spec fn songs(self) -> Seq<String> {
        self.immediate_songs + self.loop_songs
    }
}

/// The songs of one guild: an immediate queue that is served first and a
/// loop list served in order or at random, plus the track now playing.
pub struct Playlist<T> {
    play_state: PlayMode,
    _paused: bool,
    loop_song_list: Vec<String>,
    immideate_song_list: VecDeque<String>,
    pub current_track: Option<T>,
}

impl<T> View for Playlist<T> {
    type V = PlaylistView<T>;

    closed spec fn view(&self) -> PlaylistView<T> {
        PlaylistView {
            play_state: self.play_state,
            paused: self._paused,
            loop_songs: self.loop_song_list@,
            immediate_songs: self.immideate_song_list@,
            current_track: self.current_track,
        }
    }
}

impl<T> Default for Playlist<T> {
    fn default() -> (playlist: Playlist<T>)
        ensures
            playlist@ == PlaylistView::<T>::empty(),
    {
        Playlist {
            play_state: PlayMode::Shuffle,
            _paused: false,
            loop_song_list: Vec::new(),
            immideate_song_list: VecDeque::new(),
            current_track: None,
        }
    }
}

/// `rand::random::<u64>()`: a number drawn from the thread-local generator.
/// Any `u64` may come back, so nothing is promised of it.
#[verifier::external_body]
fn random_u64() -> u64 {
    rand::random::<u64>()
}

impl<T> Playlist<T> {
    /// Keeps the current track if the player reports it still playing and
    /// forgets it otherwise; then hands out the track that remains.
    /// `still_playing` is what the track's player reported; it is read only
    /// when a track is set.
    pub fn get_current_track(&mut self, still_playing: bool) -> (track: Option<&T>)
        ensures
            final(self)@ == (PlaylistView {
                current_track: if still_playing { old(self)@.current_track } else { None },
                ..old(self)@
            }),
            match track {
                Some(t) => final(self)@.current_track == Some(*t),
                None => final(self)@.current_track is None,
            },
    {
        if !still_playing {
            self.current_track = None;
        }
        self.current_track.as_ref()
    }

    /// The track now playing, if any.
    pub fn current_track(&self) -> (track: Option<&T>)
        ensures
            match track {
                Some(t) => self@.current_track == Some(*t),
                None => self@.current_track is None,
            },
    {
        self.current_track.as_ref()
    }

    /// Records the track that was just started.
    pub fn set_current_track(&mut self, current_track: T)
        ensures
            final(self)@ == (PlaylistView { current_track: Some(current_track), ..old(self)@ }),
    {
        self.current_track = Some(current_track)
    }

    /// Whether a next song can be taken without a random index modulo zero.
    pub fn can_advance(&self) -> (ok: bool)
        ensures
            ok == self@.can_advance(),
    {
        !(self.immideate_song_list.len() == 0 && self.play_state == PlayMode::Shuffle
            && self.loop_song_list.len() == 0)
    }

    /// Takes the next song, using `roll` as the random number where the
    /// playlist shuffles.
    pub fn next_song_with(&mut self, roll: u64) -> (song: Option<String>)
        requires
            old(self)@.can_advance(),
        ensures
            (final(self)@, song) == old(self)@.next_song(roll),
    {
        if let Some(song) = self.immideate_song_list.pop_front() {
            Some(song)
        } else {
            match self.play_state {
                PlayMode::Playing => {
                    if self.loop_song_list.len() > 0 {
                        Some(self.loop_song_list.remove(0))
                    } else {
                        None
                    }
                },
                PlayMode::Shuffle => {
                    let len: u64 = self.loop_song_list.len() as u64;
                    let index: u64 = roll % len;
                    Some(self.loop_song_list.remove(index as usize))
                },
            }
        }
    }

    /// Takes the next song: the front of the immediate queue if there is
    /// one; else, in order, the first song of the loop list; else, in
    /// shuffle mode, a song at a random position of the loop list.
    pub fn next_song(&mut self) -> (song: Option<String>)
        requires
            old(self)@.can_advance(),
        ensures
            exists|roll: u64| (final(self)@, song) == #[trigger] old(self)@.next_song(roll),
    {
        let roll: u64 = if self.immideate_song_list.len() == 0 && self.play_state
            == PlayMode::Shuffle {
            random_u64()
        } else {
            0
        };
        self.next_song_with(roll)
    }

    /// Appends a song to the loop list.
    pub fn add_to_playlist(&mut self, song: String)
        ensures
            final(self)@ == (PlaylistView {
                loop_songs: old(self)@.loop_songs.push(song),
                ..old(self)@
            }),
    {
        self.loop_song_list.push(song);
    }

    /// Appends a song to the immediate queue.
    pub fn add_now(&mut self, song: String)
        ensures
            final(self)@ == (PlaylistView {
                immediate_songs: old(self)@.immediate_songs.push(song),
                ..old(self)@
            }),
    {
        self.immideate_song_list.push_back(song);
    }

    /// Announces the mode opposite to the current one. The playlist's own
    /// mode is left as it is.
    pub fn switch_playstate(&mut self) -> (mode: PlayMode)
        ensures
            *final(self) == *old(self),
            mode == opposite_mode(old(self)@.play_state),
    {
        match self.play_state {
            PlayMode::Playing => PlayMode::Shuffle,
            PlayMode::Shuffle => PlayMode::Playing,
        }
    }
}

/// A song put on the immediate queue of a playlist whose immediate queue is
/// empty is the next song that comes out, whatever the mode and the random
/// number, and taking it leaves the playlist as it was before the song was
/// added.
pub proof fn lemma_add_now_then_next_song<T>(v: PlaylistView<T>, song: String, roll: u64)
    requires
        v.immediate_songs.len() == 0,
    ensures
        (PlaylistView { immediate_songs: v.immediate_songs.push(song), ..v }).next_song(roll)
            == (v, Some(song)),
{
    let w = PlaylistView { immediate_songs: v.immediate_songs.push(song), ..v };
    assert(w.immediate_songs.drop_first() =~= v.immediate_songs);
}

/// The immediate queue is first in, first out: the song that comes out next
/// is the one that was queued earliest, and songs queued later stay behind it.
pub proof fn lemma_immediate_queue_is_fifo<T>(v: PlaylistView<T>, song: String, roll: u64)
    requires
        v.immediate_songs.len() > 0,
    ensures
        (PlaylistView { immediate_songs: v.immediate_songs.push(song), ..v }).next_song(roll)
            == ((PlaylistView {
            immediate_songs: v.immediate_songs.drop_first().push(song),
            ..v
        }), Some(v.immediate_songs[0])),
{
    let w = PlaylistView { immediate_songs: v.immediate_songs.push(song), ..v };
    assert(w.immediate_songs.drop_first() =~= v.immediate_songs.drop_first().push(song));
}

/// In order mode with nothing queued, the loop list is first in, first out:
/// a song added to an empty loop list is the next song, and taking it
/// leaves the playlist as it was.
pub proof fn lemma_add_to_playlist_then_next_song_in_order<T>(
    v: PlaylistView<T>,
    song: String,
    roll: u64,
)
    requires
        v.immediate_songs.len() == 0,
        v.loop_songs.len() == 0,
        v.play_state == PlayMode::Playing,
    ensures
        (PlaylistView { loop_songs: v.loop_songs.push(song), ..v }).next_song(roll) == (
            v,
            Some(song),
        ),
{
    let w = PlaylistView { loop_songs: v.loop_songs.push(song), ..v };
    assert(w.loop_songs.drop_first() =~= v.loop_songs);
}

/// In shuffle mode a lone song in the loop list is the next song, whatever
/// the random number.
pub proof fn lemma_shuffle_single_song<T>(v: PlaylistView<T>, song: String, roll: u64)
    requires
        v.immediate_songs.len() == 0,
        v.loop_songs.len() == 0,
        v.play_state == PlayMode::Shuffle,
    ensures
        (PlaylistView { loop_songs: v.loop_songs.push(song), ..v }).next_song(roll) == (
            v,
            Some(song),
        ),
{
    let w = PlaylistView { loop_songs: v.loop_songs.push(song), ..v };
    assert((roll as int) % 1 == 0);
    assert(w.loop_songs.remove(0) =~= v.loop_songs);
}

/// Taking the next song loses and invents nothing: the song handed out was
/// in the playlist, and the songs left are those before minus that one.
/// Nothing comes out only when both lists are empty, and then nothing
/// changes. The mode, the pause flag and the current track stay.
pub proof fn lemma_next_song_conserves_songs<T>(v: PlaylistView<T>, roll: u64)
    requires
        v.can_advance(),
    ensures
        ({
            let (w, song) = v.next_song(roll);
            &&& w.play_state == v.play_state
            &&& w.paused == v.paused
            &&& w.current_track == v.current_track
            &&& match song {
                Some(s) => {
                    &&& v.songs().contains(s)
                    &&& w.songs().to_multiset().insert(s) == v.songs().to_multiset()
                    &&& w.songs().len() + 1 == v.songs().len()
                },
                None => {
                    &&& v.songs().len() == 0
                    &&& w == v
                },
            }
        }),
{
    broadcast use vstd::seq_lib::group_to_multiset_ensures;
    broadcast use vstd::seq_lib::lemma_multiset_commutative;
    broadcast use vstd::multiset::group_multiset_axioms;

    let (w, song) = v.next_song(roll);
    if v.immediate_songs.len() > 0 {
        let s = v.immediate_songs[0];
        assert(v.immediate_songs =~= v.immediate_songs.remove(0).insert(0, s));
        assert(v.immediate_songs.drop_first() =~= v.immediate_songs.remove(0));
        assert(v.songs()[0] == s);
        assert(v.songs().remove(0) =~= w.songs());
        assert(v.songs().to_multiset().remove(s) == w.songs().to_multiset());
        assert(v.songs().to_multiset().count(s) > 0);
    } else {
        assert(v.songs() =~= v.loop_songs);
        assert(w.songs() =~= w.loop_songs);
        match v.play_state {
            PlayMode::Playing => {
                if v.loop_songs.len() > 0 {
                    assert(v.loop_songs.drop_first() =~= v.loop_songs.remove(0));
                    assert(v.songs().to_multiset().count(v.loop_songs[0]) > 0);
                }
            },
            PlayMode::Shuffle => {
                let i = (roll as int) % (v.loop_songs.len() as int);
                assert(v.songs()[i] == v.loop_songs[i]);
                assert(v.songs().to_multiset().count(v.loop_songs[i]) > 0);
            },
        }
    }
}

/// In shuffle mode with nothing queued, the random number picks the
/// position: the song at position `i` of the loop list comes out for the
/// number `i` (and for every number congruent to it), so every song of the
/// loop list can come out, and it is removed from its place.
pub proof fn lemma_shuffle_every_position_can_come_out<T>(v: PlaylistView<T>, roll: u64, i: int)
    requires
        v.immediate_songs.len() == 0,
        v.play_state == PlayMode::Shuffle,
        0 <= i < v.loop_songs.len(),
        roll as int % v.loop_songs.len() as int == i,
    ensures
        v.next_song(roll).1 == Some(v.loop_songs[i]),
        v.next_song(roll).0.loop_songs == v.loop_songs.subrange(0, i) + v.loop_songs.subrange(
            i + 1,
            v.loop_songs.len() as int,
        ),
        v.next_song(roll).0.immediate_songs == v.immediate_songs,
{
    assert(v.loop_songs.remove(i) =~= v.loop_songs.subrange(0, i) + v.loop_songs.subrange(
        i + 1,
        v.loop_songs.len() as int,
    ));
}

/// Announcing a switch twice names the mode one started from.
pub proof fn lemma_switch_playstate_twice(mode: PlayMode)
    ensures
        opposite_mode(opposite_mode(mode)) == mode,
        opposite_mode(mode) != mode,
{
}

} // verus!
