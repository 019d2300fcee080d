use vstd::prelude::*;

use crate::my_commands::base_command::{defines_with_option, join_text, CommandDefinition, StringOption};

verus! {

/// The decoded query pairs of `input` parsed as an absolute URL by the
/// `url` crate (`Url::parse`, then `Url::query_pairs`); `None` where
/// parsing fails.
pub uninterp spec fn url_query_pairs(input: Seq<char>) -> Option<Seq<(Seq<char>, Seq<char>)>>;

/// The views of a list of key/value pairs.
pub open spec fn pairs_view(pairs: Seq<(String, String)>) -> Seq<(Seq<char>, Seq<char>)> {
    pairs.map_values(|p: (String, String)| (p.0@, p.1@))
}

/// `url::Url::parse(input)` followed by `Url::query_pairs`, each pair taken
/// as two owned strings. Nothing about URL syntax is stated: the result is
/// the name `url_query_pairs` of the input.
#[verifier::external_body]
fn parse_query_pairs(input: &str) -> (pairs: Option<Vec<(String, String)>>)
    ensures
        match pairs {
            Some(v) => url_query_pairs(input@) == Some(pairs_view(v@)),
            None => url_query_pairs(input@) is None,
        },
{
    url::Url::parse(input).ok().map(
        |u| u.query_pairs().map(|(k, v)| (k.into_owned(), v.into_owned())).collect(),
    )
}

/// The value of the last pair whose key is `key`.
pub open spec fn last_value(pairs: Seq<(Seq<char>, Seq<char>)>, key: Seq<char>) -> Option<
    Seq<char>,
>
    decreases pairs.len(),
{
    if pairs.len() == 0 {
        None
    } else if pairs.last().0 == key {
        Some(pairs.last().1)
    } else {
        last_value(pairs.drop_last(), key)
    }
}

/// A key given again in a URL overrides its earlier values, and leaves the
/// values of other keys as they were.
pub proof fn lemma_last_value_push(
    pairs: Seq<(Seq<char>, Seq<char>)>,
    key: Seq<char>,
    value: Seq<char>,
    other: Seq<char>,
)
    requires
        other != key,
    ensures
        last_value(pairs.push((key, value)), key) == Some(value),
        last_value(pairs.push((key, value)), other) == last_value(pairs, other),
{
    assert(pairs.push((key, value)).drop_last() =~= pairs);
}

/// A key has a last value exactly when some pair carries that key.
pub proof fn lemma_last_value_present(pairs: Seq<(Seq<char>, Seq<char>)>, key: Seq<char>)
    ensures
        last_value(pairs, key) is Some <==> exists|i: int| 0 <= i < pairs.len() && #[trigger] pairs[i].0 == key,
    decreases pairs.len(),
{
    if pairs.len() > 0 {
        lemma_last_value_present(pairs.drop_last(), key);
        if last_value(pairs.drop_last(), key) is Some {
            let i = choose|i: int| 0 <= i < pairs.drop_last().len() && #[trigger] pairs.drop_last()[i].0 == key;
            assert(pairs[i].0 == key);
        }
        if exists|i: int| 0 <= i < pairs.len() && #[trigger] pairs[i].0 == key {
            let i = choose|i: int| 0 <= i < pairs.len() && #[trigger] pairs[i].0 == key;
            if i < pairs.len() - 1 {
                assert(pairs.drop_last()[i].0 == key);
            }
        }
    }
}

/// What a `play` URL asks for.
#[derive(Debug)]
pub enum PlaySource {
    /// A YouTube playlist, by its id (query key `list`).
    Playlist(String),
    /// A single YouTube video, by its id (query key `v`).
    Video(String),
    /// Neither.
    Unsupported,
}

/// `source` is what the query pairs ask for: a playlist wins over a video,
/// and a key given twice counts with its last value.
pub open spec fn source_of(source: PlaySource, pairs: Seq<(Seq<char>, Seq<char>)>) -> bool {
    let list = last_value(pairs, "list"@);
    let video = last_value(pairs, "v"@);
    match source {
        PlaySource::Playlist(id) => list == Some(id@),
        PlaySource::Video(id) => list is None && video == Some(id@),
        PlaySource::Unsupported => list is None && video is None,
    }
}

/// A URL whose query carries a `list` key asks for the playlist of the
/// last `list` value, whether or not a `v` key is present.
pub proof fn lemma_list_key_asks_for_playlist(
    source: PlaySource,
    pairs: Seq<(Seq<char>, Seq<char>)>,
    id: Seq<char>,
)
    requires
        source_of(source, pairs.push(("list"@, id))),
    ensures
        source matches PlaySource::Playlist(p) && p@ == id,
{
    assert(pairs.push(("list"@, id)).drop_last() =~= pairs);
}

/// Any `list` key anywhere in the query makes the request a playlist
/// request; without one, a `v` key makes it a video request for the last
/// `v` value; only a query with neither key is unsupported.
pub proof fn lemma_source_by_keys(source: PlaySource, pairs: Seq<(Seq<char>, Seq<char>)>)
    requires
        source_of(source, pairs),
    ensures
        (exists|i: int| 0 <= i < pairs.len() && #[trigger] pairs[i].0 == "list"@) ==> source is Playlist,
        (forall|i: int| 0 <= i < pairs.len() ==> #[trigger] pairs[i].0 != "list"@) && (exists|i: int|
            0 <= i < pairs.len() && #[trigger] pairs[i].0 == "v"@) ==> source is Video,
        source is Unsupported <==> (forall|i: int|
            0 <= i < pairs.len() ==> #[trigger] pairs[i].0 != "list"@ && pairs[i].0 != "v"@),
{
    lemma_last_value_present(pairs, "list"@);
    lemma_last_value_present(pairs, "v"@);
}

/// A URL without a `list` key whose last `v` value is `id` asks for the
/// video `id`.
pub proof fn lemma_v_key_asks_for_video(
    source: PlaySource,
    pairs: Seq<(Seq<char>, Seq<char>)>,
    id: Seq<char>,
)
    requires
        forall|i: int| 0 <= i < pairs.len() ==> #[trigger] pairs[i].0 != "list"@,
        source_of(source, pairs.push(("v"@, id))),
    ensures
        source matches PlaySource::Video(v) && v@ == id,
{
    reveal_strlit("v");
    reveal_strlit("list");
    let all = pairs.push(("v"@, id));
    assert(all.drop_last() =~= pairs);
    assert forall|i: int| 0 <= i < all.len() implies #[trigger] all[i].0 != "list"@ by {
        if i == pairs.len() {
            assert("v"@.len() != "list"@.len());
        }
    }
    lemma_last_value_present(all, "list"@);
}

pub fn register() -> (definition: CommandDefinition)
    ensures
        defines_with_option(
            definition,
            "play"@,
            "Play a track"@,
            "url"@,
            "The link where the video, audio or playlist is located"@,
        ),
{
    CommandDefinition {
        name: "play",
        description: "Play a track",
        option: Some(
            StringOption {
                name: "url",
                description: "The link where the video, audio or playlist is located",
                required: true,
            },
        ),
    }
}

/// Reads the video and playlist ids out of a URL's query pairs.
pub fn source_from_query(pairs: &Vec<(String, String)>) -> (source: PlaySource)
    ensures
        source_of(source, pairs_view(pairs@)),
{
    let ghost all = pairs_view(pairs@);
    proof {
        reveal_strlit("v");
        reveal_strlit("list");
        assert("v"@.len() == 1);
        assert("list"@.len() == 4);
        assert("v"@ != "list"@);
    }
    let mut video_id: Option<String> = None;
    let mut playlist_id: Option<String> = None;
    let v_key = "v".to_owned();
    let list_key = "list".to_owned();
    let mut i: usize = 0;
    while i < pairs.len()
        invariant
            0 <= i <= pairs.len(),
            all == pairs_view(pairs@),
            v_key@ == "v"@,
            list_key@ == "list"@,
            "v"@ != "list"@,
            match video_id {
                Some(id) => last_value(all.take(i as int), "v"@) == Some(id@),
                None => last_value(all.take(i as int), "v"@) is None,
            },
            match playlist_id {
                Some(id) => last_value(all.take(i as int), "list"@) == Some(id@),
                None => last_value(all.take(i as int), "list"@) is None,
            },
        decreases pairs.len() - i,
    {
        let (key, value) = &pairs[i];
        assert(all.take(i + 1).drop_last() =~= all.take(i as int));
        assert(all.take(i + 1).last() == all[i as int]);
        if *key == v_key {
            video_id = Some(value.clone());
        } else if *key == list_key {
            playlist_id = Some(value.clone());
        }
        i = i + 1;
    }
    assert(all.take(pairs.len() as int) =~= all);
    match playlist_id {
        Some(id) => PlaySource::Playlist(id),
        None => match video_id {
            Some(id) => PlaySource::Video(id),
            None => PlaySource::Unsupported,
        },
    }
}

/// Reads what a `play` command asks for from its `url` argument: an
/// error text where the argument is missing or is no URL.
pub fn parse_request(url: Option<&str>) -> (request: Result<PlaySource, String>)
    ensures
        match url {
            None => request matches Err(e) && e@ == "Must provide a URL to a video or audio"@,
            Some(u) => match url_query_pairs(u@) {
                None => request matches Err(e) && e@
                    == "Must provide a valid URL to a video, audio or playlist"@,
                Some(pairs) => request matches Ok(source) && source_of(source, pairs),
            },
        },
{
    let url = match url {
        Some(u) => u,
        None => return Err("Must provide a URL to a video or audio".to_owned()),
    };
    match parse_query_pairs(url) {
        Some(pairs) => Ok(source_from_query(&pairs)),
        None => Err("Must provide a valid URL to a video, audio or playlist".to_owned()),
    }
}

/// The decimal digits of `n`, most significant first, without sign or
/// leading zeros.
pub open spec fn decimal(n: nat) -> Seq<char>
    decreases n,
{
    if n < 10 {
        seq![(48 + n) as char]
    } else {
        decimal(n / 10).push((48 + n % 10) as char)
    }
}

/// `ToString::to_string` on a `usize`: its `Display` form, the decimal
/// digits of the number.
#[verifier::external_body]
fn usize_to_string(n: usize) -> (text: String)
    ensures
        text@ == decimal(n as nat),
{
    n.to_string()
}

/// The text answering `play`. `playlist_len` is, for a playlist, the number
/// of items fetched, or `None` where fetching failed.
pub open spec fn play_text(source: PlaySource, playlist_len: Option<usize>) -> Seq<char> {
    match source {
        PlaySource::Playlist(_) => match playlist_len {
            Some(n) => "Playing "@ + decimal(n as nat) + " songs from playist"@,
            None => "Could not load the playlist"@,
        },
        PlaySource::Video(_) => "Added new song, will play next"@,
        PlaySource::Unsupported => "Other sources not implemented"@,
    }
}

/// The answer to `play` once the request was carried out.
pub fn run(source: &PlaySource, playlist_len: Option<usize>) -> (text: String)
    ensures
        text@ == play_text(*source, playlist_len),
{
    match source {
        PlaySource::Playlist(_) => match playlist_len {
            Some(n) => {
                let count = usize_to_string(n);
                let head = join_text("Playing ", count.as_str());
                join_text(head.as_str(), " songs from playist")
            },
            None => "Could not load the playlist".to_owned(),
        },
        PlaySource::Video(_) => "Added new song, will play next".to_owned(),
        PlaySource::Unsupported => "Other sources not implemented".to_owned(),
    }
}

} // verus!
