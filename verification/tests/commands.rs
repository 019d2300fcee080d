use std::collections::HashMap;

use music_bot::handler::{CommandKind, Handler};
use music_bot::my_commands::audio::deafen::{self, DeafenOutcome};
use music_bot::my_commands::audio::join;
use music_bot::my_commands::audio::leave::Leave;
use music_bot::my_commands::audio::play::{self, PlaySource};
use music_bot::my_commands::audio::register_all as audio_register_all;
use music_bot::my_commands::audio::shuffle::Shuffle;
use music_bot::my_commands::audio::skip::{self, SkipOutcome};
use music_bot::my_commands::base_command::CommandResponse;
use music_bot::my_commands::manager::play::PlaylistManager;
use music_bot::my_commands::manager::playlist;
use music_bot::my_commands::manager::register_all as manager_register_all;
use music_bot::my_commands::ping::Ping;
use music_bot::playlist::internal::Playlist;

fn text(response: CommandResponse) -> String {
    match response {
        CommandResponse::String(s) => s,
        CommandResponse::InternallyHandled => panic!("no text"),
    }
}

#[test]
fn ping_answers_pong() {
    assert_eq!(Ping.command_name(), "ping");
    assert_eq!(text(Ping.run()), "pong");
    let def = Ping.generate_create_command();
    assert_eq!(def.name, "ping");
    assert_eq!(def.description, "A ping command");
    assert!(def.option.is_none());
}

#[test]
fn leave_replies() {
    assert_eq!(Leave.command_name(), "leave");
    assert_eq!(text(Leave.run(None)), "Not in a voice channel");
    assert_eq!(text(Leave.run(Some(Ok(())))), "Left voice channel");
    assert_eq!(text(Leave.run(Some(Err("NoCall".to_string())))), "Failed: NoCall");
}

#[test]
fn shuffle_replies() {
    assert_eq!(Shuffle.command_name(), "shuffle");
    assert_eq!(Shuffle.generate_create_command().description, "shuffle the queue");
    let mut map: HashMap<u64, Playlist<u8>> = HashMap::new();
    assert_eq!(text(Shuffle.run(&mut map, 4)), "Missing playlist");
    map.insert(4, Playlist::default());
    assert_eq!(text(Shuffle.run(&mut map, 4)), "Playing in order");
}

#[test]
fn skip_replies() {
    assert_eq!(skip::run(SkipOutcome::NotInCall), "Not in a voice channel");
    assert_eq!(skip::run(SkipOutcome::NoTrack), "Error getting the track");
    assert_eq!(skip::run(SkipOutcome::Stopped(Ok(()))), "Skipped a song");
    assert_eq!(
        skip::run(SkipOutcome::Stopped(Err("gone".to_string()))),
        "Error skipping track: gone"
    );
    assert_eq!(skip::register().name, "skip");
}

#[test]
fn deafen_replies() {
    assert_eq!(deafen::run(DeafenOutcome::NotInCall), "Not in a voice call");
    assert_eq!(deafen::run(DeafenOutcome::AlreadyDeafened), "Already deafened");
    assert_eq!(deafen::run(DeafenOutcome::Attempted(Ok(()))), "Deafened");
    assert_eq!(deafen::run(DeafenOutcome::Attempted(Err("x".to_string()))), "Failed: x");
    assert_eq!(deafen::register().description, "Deafen the bot");
}

#[test]
fn join_replies() {
    assert_eq!(join::run(Some(5)), "Joined the channel");
    assert_eq!(join::run(None), "Not in a voice channel");
    assert_eq!(join::register().name, "join");
}

#[test]
fn play_request_parsing() {
    assert_eq!(
        play::parse_request(None).unwrap_err(),
        "Must provide a URL to a video or audio"
    );
    assert_eq!(
        play::parse_request(Some("not a url")).unwrap_err(),
        "Must provide a valid URL to a video, audio or playlist"
    );
    match play::parse_request(Some("https://www.youtube.com/watch?v=abc&list=PL1")).unwrap() {
        PlaySource::Playlist(id) => assert_eq!(id, "PL1"),
        other => panic!("{other:?}"),
    }
    match play::parse_request(Some("https://www.youtube.com/watch?v=abc&v=def")).unwrap() {
        PlaySource::Video(id) => assert_eq!(id, "def"),
        other => panic!("{other:?}"),
    }
    match play::parse_request(Some("https://youtu.be/abc")).unwrap() {
        PlaySource::Unsupported => {}
        other => panic!("{other:?}"),
    }
    match play::parse_request(Some("https://example.com/?v=a%20b")).unwrap() {
        PlaySource::Video(id) => assert_eq!(id, "a b"),
        other => panic!("{other:?}"),
    }
}

#[test]
fn play_source_from_query_last_value_wins() {
    let pairs = vec![
        ("list".to_string(), "L1".to_string()),
        ("v".to_string(), "V1".to_string()),
        ("list".to_string(), "L2".to_string()),
    ];
    match play::source_from_query(&pairs) {
        PlaySource::Playlist(id) => assert_eq!(id, "L2"),
        other => panic!("{other:?}"),
    }
    match play::source_from_query(&vec![]) {
        PlaySource::Unsupported => {}
        other => panic!("{other:?}"),
    }
}

#[test]
fn play_replies() {
    let list = PlaySource::Playlist("L".to_string());
    assert_eq!(play::run(&list, Some(12)), "Playing 12 songs from playist");
    assert_eq!(play::run(&list, Some(0)), "Playing 0 songs from playist");
    assert_eq!(play::run(&list, None), "Could not load the playlist");
    assert_eq!(
        play::run(&PlaySource::Video("v".to_string()), None),
        "Added new song, will play next"
    );
    assert_eq!(play::run(&PlaySource::Unsupported, None), "Other sources not implemented");
    let def = play::register();
    assert_eq!(def.name, "play");
    let option = def.option.unwrap();
    assert_eq!(option.name, "url");
    assert!(option.required);
}

#[test]
fn register_all_lists() {
    let names: Vec<&str> = audio_register_all().iter().map(|d| d.name).collect();
    assert_eq!(names, vec!["leave", "play", "shuffle", "skip"]);
    let names: Vec<&str> = manager_register_all().iter().map(|d| d.name).collect();
    assert_eq!(names, vec!["playlist"]);
}

#[test]
fn manager_playlist_replies() {
    assert_eq!(playlist::run(Ok(())), "Success!");
    assert_eq!(playlist::run(Err("quota".to_string())), "quota");
    assert_eq!(PlaylistManager::song_file_path("xyz"), "music/xyz.mp3");
}

#[test]
fn handler_dispatch() {
    let handler = Handler::new();
    let names: Vec<&str> = handler.command_list().iter().map(|c| c.command_name()).collect();
    assert_eq!(names, vec!["ping", "leave", "play", "shuffle", "skip"]);
    assert_eq!(handler.command_map("skip"), Some(CommandKind::Skip));
    assert_eq!(handler.command_map("ping"), Some(CommandKind::Ping));
    assert_eq!(handler.command_map("deafen"), None);
    assert_eq!(text(handler.unknown_command()), "not implemented :(");
}

#[test]
fn guild_id_parsing() {
    let handler = Handler::new();
    assert_eq!(handler.parse_guild_id("1234567890"), Some(1234567890));
    assert_eq!(handler.parse_guild_id("+42"), Some(42));
    assert_eq!(handler.parse_guild_id("007"), Some(7));
    assert_eq!(handler.parse_guild_id("18446744073709551615"), Some(u64::MAX));
    assert_eq!(handler.parse_guild_id("18446744073709551616"), None);
    assert_eq!(handler.parse_guild_id("-1"), None);
    assert_eq!(handler.parse_guild_id("+"), None);
    assert_eq!(handler.parse_guild_id(""), None);
    assert_eq!(handler.parse_guild_id(" 1"), None);
}
