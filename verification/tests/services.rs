use music_bot::voice_handlers::auto_disconnection::{check_for_clients, count_users_in_channel};
use music_bot::youtube::download::{next_downloader, yt_dlp_args, youtube_file_path, Downloader};
use music_bot::youtube::playlist::PlaylistPager;

#[test]
fn counts_users_in_channel_without_leaver() {
    let states = vec![(1, Some(10)), (2, Some(10)), (3, Some(11)), (4, None), (5, Some(10))];
    assert_eq!(count_users_in_channel(&states, 10, 5), 2);
    assert_eq!(count_users_in_channel(&states, 10, 99), 3);
    assert!(!check_for_clients(&states, 10, 5));
    let states = vec![(1, Some(10)), (5, Some(10))];
    assert!(check_for_clients(&states, 10, 5));
    assert!(!check_for_clients(&vec![], 10, 5));
}

#[test]
fn downloaders_in_order() {
    assert_eq!(next_downloader("youtube", 0), Some(Downloader::YtDlp));
    assert_eq!(next_downloader("youtube", 1), Some(Downloader::RustyYtdl));
    assert_eq!(next_downloader("youtube", 2), Some(Downloader::Rustube));
    assert_eq!(next_downloader("youtube", 3), None);
    assert_eq!(next_downloader("soundcloud", 0), None);
}

#[test]
fn download_paths_and_args() {
    assert_eq!(youtube_file_path("abc"), "music/youtube/abc.mp3");
    assert_eq!(
        yt_dlp_args("abc"),
        vec![
            "https://www.youtube.com/watch?v=abc",
            "--embed-thumbnail",
            "-x",
            "--audio-format",
            "mp3",
            "-o",
            "music/youtube/abc.mp3"
        ]
    );
}

#[test]
fn pager_concatenates_pages() {
    let mut pager: PlaylistPager<u32> = PlaylistPager::new();
    let first = pager.first_request();
    assert_eq!(first.page_token, None);
    assert_eq!(first.max_results, 2);
    let next = pager.on_page(Some(vec![1, 2]), Some("t1".to_string())).unwrap();
    assert_eq!(next.page_token, Some("t1".to_string()));
    assert_eq!(next.max_results, 50);
    let next = pager.on_page(None, Some("t2".to_string())).unwrap();
    assert_eq!(next.page_token, Some("t2".to_string()));
    assert!(pager.on_page(Some(vec![3]), None).is_none());
    assert_eq!(pager.into_items(), vec![1, 2, 3]);
}
