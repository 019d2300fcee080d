use vstd::prelude::*;

use crate::my_commands::base_command::join_text;

verus! {

/// The tools tried, in this order, to download a YouTube video's audio.
#[derive(Clone, Copy, Debug, PartialEq, Eq, Structural)]
pub enum Downloader {
    /// The `yt-dlp` program.
    YtDlp,
    /// The `rusty_ytdl` crate.
    RustyYtdl,
    /// The `rustube` crate.
    Rustube,
}

/// The downloader tried after `failures` failed ones for `provider`: only
/// the `youtube` provider is known, and it tries yt-dlp, then rusty_ytdl,
/// then rustube.
pub open spec fn downloader_after(provider: Seq<char>, failures: nat) -> Option<Downloader> {
    if provider != "youtube"@ {
        None
    } else if failures == 0 {
        Some(Downloader::YtDlp)
    } else if failures == 1 {
        Some(Downloader::RustyYtdl)
    } else if failures == 2 {
        Some(Downloader::Rustube)
    } else {
        None
    }
}

/// Where the audio of a YouTube video is kept.
pub fn youtube_file_path(video_id: &str) -> (path: String)
    ensures
        path@ == "music/youtube/"@ + video_id@ + ".mp3"@,
{
    let head = join_text("music/youtube/", video_id);
    join_text(head.as_str(), ".mp3")
}

/// The next downloader to try once `failures` downloaders have failed;
/// `None` when the provider is unknown or all have failed.
pub fn next_downloader(provider: &str, failures: usize) -> (downloader: Option<Downloader>)
    ensures
        downloader == downloader_after(provider@, failures as nat),
{
    if provider.to_owned() != "youtube".to_owned() {
        return None;
    }
    if failures == 0 {
        Some(Downloader::YtDlp)
    } else if failures == 1 {
        Some(Downloader::RustyYtdl)
    } else if failures == 2 {
        Some(Downloader::Rustube)
    } else {
        None
    }
}

/// The command-line arguments given to `yt-dlp` to fetch a video's audio
/// as mp3 into its file.
pub fn yt_dlp_args(video_id: &str) -> (args: Vec<String>)
    ensures
        args@.len() == 7,
        args@[0]@ == "https://www.youtube.com/watch?v="@ + video_id@,
        args@[1]@ == "--embed-thumbnail"@,
        args@[2]@ == "-x"@,
        args@[3]@ == "--audio-format"@,
        args@[4]@ == "mp3"@,
        args@[5]@ == "-o"@,
        args@[6]@ == "music/youtube/"@ + video_id@ + ".mp3"@,
{
    let mut args: Vec<String> = Vec::new();
    args.push(join_text("https://www.youtube.com/watch?v=", video_id));
    args.push("--embed-thumbnail".to_owned());
    args.push("-x".to_owned());
    args.push("--audio-format".to_owned());
    args.push("mp3".to_owned());
    args.push("-o".to_owned());
    args.push(youtube_file_path(video_id));
    args
}

} // verus!
