use vstd::prelude::*;

use crate::my_commands::base_command::join_text;

verus! {

/// Keeps track of songs kept on disk.
pub struct PlaylistManager {
    song_names: Vec<String>,
}

impl PlaylistManager {
    /// Where the audio of a downloaded video is kept.
    pub fn song_file_path(video_id: &str) -> (path: String)
        ensures
            path@ == "music/"@ + video_id@ + ".mp3"@,
    {
        let head = join_text("music/", video_id);
        join_text(head.as_str(), ".mp3")
    }
}

} // verus!
