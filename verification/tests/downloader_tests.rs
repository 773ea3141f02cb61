use schmu::downloader::audio::{AudioAction, AudioEvent, AudioStage, WAIT_INTERVAL_MS};
use schmu::downloader::info::{cache_probe, InfoAction, InfoEvent, InfoStage};
use schmu::downloader::{
    build_song, get_youtube_url, normalize_artist, oembed_url, song_with_thumbnail,
    upgrade_thumbnail, Backlog, DownloadEntry, FetchError, Message, YoutubeVideoResponse,
    DOWNLOAD_ATTEMPTS,
};
use schmu::state::{Song, State};
use std::io::Cursor;

fn song(id: &str, downloaded: bool) -> Song {
    Song {
        id: id.to_string(),
        title: "t".to_string(),
        artist: "a".to_string(),
        downloaded,
        thumbnail: vec![],
    }
}

fn download(id: &str, is_fallback: bool) -> Message {
    Message::Download { id: id.to_string(), is_fallback }
}

fn response(author: &str, thumb: &str, title: &str) -> YoutubeVideoResponse {
    YoutubeVideoResponse {
        author_name: author.to_string(),
        thumbnail_url: thumb.to_string(),
        title: title.to_string(),
    }
}

#[test]
fn entry_starts_with_full_budget() {
    let e = DownloadEntry::new("YBdyc1WDlBQ".to_string(), true);
    assert_eq!(e.id, "YBdyc1WDlBQ");
    assert_eq!(e.tries_left, 3);
    assert_eq!(DOWNLOAD_ATTEMPTS, 3);
    assert!(e.is_fallback);
    assert_eq!(e.audio_cache_location(), "schmu/YBdyc1WDlBQ.m4a");
    assert_eq!(e.song_info_cache_location(), "schmu/YBdyc1WDlBQ.json");
    assert_eq!(e.youtube_url(), "https://music.youtube.com/watch?v=YBdyc1WDlBQ");
}

#[test]
fn addresses_are_built_from_id() {
    assert_eq!(get_youtube_url("abc"), "https://music.youtube.com/watch?v=abc");
    assert_eq!(
        oembed_url("YBdyc1WDlBQ"),
        "https://www.youtube.com/oembed?format=json&url=https://www.youtube.com/watch?v=YBdyc1WDlBQ"
    );
}

#[test]
fn backlog_is_first_in_first_out() {
    let mut b = Backlog::new();
    assert!(b.is_empty());
    assert!(b.dequeue().is_none());
    b.enqueue("a".to_string(), false);
    b.enqueue("b".to_string(), true);
    assert!(!b.is_empty());
    let a = b.dequeue().unwrap();
    assert_eq!((a.id.as_str(), a.tries_left, a.is_fallback), ("a", 3, false));
    let bb = b.dequeue().unwrap();
    assert_eq!((bb.id.as_str(), bb.tries_left, bb.is_fallback), ("b", 3, true));
    assert!(b.dequeue().is_none());
    assert!(b.is_empty());
}

#[test]
fn requeue_goes_to_the_front_with_one_try_less() {
    let mut b = Backlog::new();
    b.enqueue("a".to_string(), false);
    b.enqueue("b".to_string(), false);
    let a = b.dequeue().unwrap();
    b.requeue(a);
    let a = b.dequeue().unwrap();
    assert_eq!((a.id.as_str(), a.tries_left), ("a", 2));
    b.requeue(a);
    let a = b.dequeue().unwrap();
    assert_eq!((a.id.as_str(), a.tries_left), ("a", 1));
    b.requeue(a);
    let a = b.dequeue().unwrap();
    assert_eq!((a.id.as_str(), a.tries_left), ("a", 0));
    b.requeue(a);
    let next = b.dequeue().unwrap();
    assert_eq!((next.id.as_str(), next.tries_left), ("b", 3));
    assert!(b.is_empty());
}

#[test]
fn artist_loses_topic_suffix() {
    assert_eq!(normalize_artist("Daft Punk - Topic"), "Daft Punk");
    assert_eq!(normalize_artist("Daft Punk"), "Daft Punk");
    assert_eq!(normalize_artist(" - Topic"), "");
    assert_eq!(normalize_artist("A - Topic - Topic"), "A - Topic");
    assert_eq!(normalize_artist("Topic"), "Topic");
    assert_eq!(normalize_artist("Björk - Topic"), "Björk");
    assert_eq!(normalize_artist("x - topic"), "x - topic");
    assert_eq!(normalize_artist(""), "");
}

#[test]
fn thumbnail_address_asks_for_highest_resolution() {
    assert_eq!(
        upgrade_thumbnail("https://i.ytimg.com/vi/YBdyc1WDlBQ/hqdefault.jpg"),
        "https://i.ytimg.com/vi/YBdyc1WDlBQ/maxresdefault.jpg"
    );
    assert_eq!(upgrade_thumbnail("https://example.org/a.png"), "https://example.org/a.png");
    assert_eq!(upgrade_thumbnail(""), "");
}

#[test]
fn response_is_normalized() {
    let r = response("Artist - Topic", "https://h/hqdefault.jpg", "Title").normalize();
    assert_eq!(r.author_name, "Artist");
    assert_eq!(r.thumbnail_url, "https://h/maxresdefault.jpg");
    assert_eq!(r.title, "Title");
}

#[test]
fn song_takes_metadata_and_thumbnail() {
    let s = song_with_thumbnail("YBdyc1WDlBQ", response("Artist", "u", "Title"), vec![1, 2, 3]);
    assert_eq!(s.id, "YBdyc1WDlBQ");
    assert_eq!(s.title, "Title");
    assert_eq!(s.artist, "Artist");
    assert!(!s.downloaded);
    assert_eq!(s.thumbnail, [1, 2, 3]);
}

#[test]
fn build_song_writes_the_thumbnail_as_png() {
    let picture = image::RgbImage::from_pixel(4, 3, image::Rgb([200, 10, 30]));
    let mut jpeg = Vec::new();
    image::DynamicImage::ImageRgb8(picture)
        .write_to(&mut Cursor::new(&mut jpeg), image::ImageFormat::Jpeg)
        .unwrap();
    assert_eq!(image::guess_format(&jpeg).unwrap(), image::ImageFormat::Jpeg);
    let s = build_song("YBdyc1WDlBQ", response("Artist", "u", "Title"), &jpeg).unwrap();
    assert_eq!(s.id, "YBdyc1WDlBQ");
    assert_eq!(s.title, "Title");
    assert_eq!(s.artist, "Artist");
    assert!(!s.downloaded);
    assert_ne!(s.thumbnail, jpeg);
    assert_eq!(&s.thumbnail[..8], [0x89, b'P', b'N', b'G', 0x0d, 0x0a, 0x1a, 0x0a]);
    let back = image::load_from_memory(&s.thumbnail).unwrap();
    assert_eq!((back.width(), back.height()), (4, 3));
}

#[test]
fn build_song_writes_a_png_anew() {
    let picture = image::RgbImage::from_pixel(5, 2, image::Rgb([1, 2, 3]));
    let mut png = Vec::new();
    image::DynamicImage::ImageRgb8(picture)
        .write_to(&mut Cursor::new(&mut png), image::ImageFormat::Png)
        .unwrap();
    let song = build_song("AAAAAAAAAAA", response("a", "u", "t"), &png).unwrap();
    assert_eq!(&song.thumbnail[..8], [137, 80, 78, 71, 13, 10, 26, 10]);
    let back = image::load_from_memory(&song.thumbnail).unwrap();
    assert_eq!((back.width(), back.height()), (5, 2));
}

#[test]
fn build_song_fails_on_bytes_that_are_no_image() {
    let r = build_song("YBdyc1WDlBQ", response("Artist", "u", "Title"), b"<html>404</html>");
    assert!(matches!(r, Err(FetchError::Thumbnail)));
    let r = build_song("YBdyc1WDlBQ", response("Artist", "u", "Title"), &[]);
    assert!(matches!(r, Err(FetchError::Thumbnail)));
}

#[test]
fn info_stage_waits_when_idle() {
    let mut state = State::new();
    let mut stage = InfoStage::new();
    assert!(matches!(stage.step(&mut state, InfoEvent::Drained), InfoAction::Receive));
    assert!(matches!(stage.step(&mut state, InfoEvent::Forwarded), InfoAction::Receive));
    assert!(matches!(stage.step(&mut state, InfoEvent::FetchFailed), InfoAction::Receive));
}

#[test]
fn info_stage_fetches_and_forwards() {
    let mut state = State::new();
    let mut stage = InfoStage::new();
    let a = stage.step(&mut state, InfoEvent::Message(download("AAAAAAAAAAA", false)));
    assert!(matches!(a, InfoAction::Poll));
    let a = stage.step(&mut state, InfoEvent::Message(download("BBBBBBBBBBB", true)));
    assert!(matches!(a, InfoAction::Poll));
    let a = stage.step(&mut state, InfoEvent::Drained);
    assert!(matches!(a, InfoAction::Probe { id } if id == "AAAAAAAAAAA"));
    let a = stage.step(&mut state, InfoEvent::NotCached);
    assert!(matches!(a, InfoAction::Fetch { id } if id == "AAAAAAAAAAA"));
    let a = stage.step(&mut state, InfoEvent::Fetched(song("AAAAAAAAAAA", true)));
    assert!(matches!(a, InfoAction::Forward { id } if id == "AAAAAAAAAAA"));
    let queued = state.queue().next().unwrap();
    assert_eq!(queued.id, "AAAAAAAAAAA");
    assert!(!queued.downloaded);
    assert!(!state.has_fallback_queue());
    let a = stage.step(&mut state, InfoEvent::Forwarded);
    assert!(matches!(a, InfoAction::Poll));
    let a = stage.step(&mut state, InfoEvent::Drained);
    assert!(matches!(a, InfoAction::Probe { id } if id == "BBBBBBBBBBB"));
    stage.step(&mut state, InfoEvent::NotCached);
    let a = stage.step(&mut state, InfoEvent::Fetched(song("BBBBBBBBBBB", false)));
    assert!(matches!(a, InfoAction::Forward { id } if id == "BBBBBBBBBBB"));
    assert_eq!(state.fallback_queue().next().unwrap().id, "BBBBBBBBBBB");
    let a = stage.step(&mut state, InfoEvent::Forwarded);
    assert!(matches!(a, InfoAction::Receive));
}

#[test]
fn info_stage_takes_cached_entry_as_downloaded() {
    let mut state = State::new();
    let mut stage = InfoStage::new();
    stage.step(&mut state, InfoEvent::Message(download("AAAAAAAAAAA", false)));
    stage.step(&mut state, InfoEvent::Drained);
    let a = stage.step(&mut state, InfoEvent::Cached(song("AAAAAAAAAAA", false)));
    assert!(matches!(a, InfoAction::Receive));
    let queued = state.queue().next().unwrap();
    assert_eq!(queued.id, "AAAAAAAAAAA");
    assert!(queued.downloaded);
    assert_eq!(state.get_next_song(), Some("AAAAAAAAAAA".to_string()));
}

#[test]
fn info_stage_retries_at_the_front_then_drops() {
    let mut state = State::new();
    let mut stage = InfoStage::new();
    stage.step(&mut state, InfoEvent::Message(download("AAAAAAAAAAA", false)));
    stage.step(&mut state, InfoEvent::Message(download("BBBBBBBBBBB", false)));
    for attempt in 0..4 {
        let a = stage.step(&mut state, InfoEvent::Drained);
        assert!(matches!(a, InfoAction::Probe { id } if id == "AAAAAAAAAAA"), "attempt {attempt}");
        let a = stage.step(&mut state, InfoEvent::NotCached);
        assert!(matches!(a, InfoAction::Fetch { id } if id == "AAAAAAAAAAA"));
        let a = stage.step(&mut state, InfoEvent::FetchFailed);
        assert!(matches!(a, InfoAction::Poll));
    }
    let a = stage.step(&mut state, InfoEvent::Drained);
    assert!(matches!(a, InfoAction::Probe { id } if id == "BBBBBBBBBBB"));
    assert!(!state.has_song_suggestions());
    let a = stage.step(&mut state, InfoEvent::FetchFailed);
    assert!(matches!(a, InfoAction::Poll));
}

#[test]
fn info_stage_drops_last_entry_and_waits() {
    let mut state = State::new();
    let mut stage = InfoStage::new();
    stage.step(&mut state, InfoEvent::Message(download("AAAAAAAAAAA", false)));
    for _ in 0..3 {
        stage.step(&mut state, InfoEvent::Drained);
        assert!(matches!(stage.step(&mut state, InfoEvent::FetchFailed), InfoAction::Poll));
    }
    stage.step(&mut state, InfoEvent::Drained);
    assert!(matches!(stage.step(&mut state, InfoEvent::FetchFailed), InfoAction::Receive));
}

#[test]
fn info_stage_stops_on_quit_and_on_closed_channel() {
    let mut state = State::new();
    let mut stage = InfoStage::new();
    stage.step(&mut state, InfoEvent::Message(download("AAAAAAAAAAA", false)));
    assert!(matches!(stage.step(&mut state, InfoEvent::Message(Message::Quit)), InfoAction::Stop));
    assert!(matches!(stage.step(&mut state, InfoEvent::Drained), InfoAction::Stop));
    assert!(matches!(
        stage.step(&mut state, InfoEvent::Fetched(song("AAAAAAAAAAA", false))),
        InfoAction::Stop
    ));
    assert!(!state.has_song_suggestions());
    let mut stage = InfoStage::new();
    stage.step(&mut state, InfoEvent::Message(download("AAAAAAAAAAA", false)));
    stage.step(&mut state, InfoEvent::Drained);
    assert!(matches!(stage.step(&mut state, InfoEvent::Disconnected), InfoAction::Stop));
    assert!(matches!(stage.step(&mut state, InfoEvent::NotCached), InfoAction::Stop));
}

#[test]
fn audio_stage_skips_cached_audio() {
    let mut state = State::new();
    state.enqueue(song("AAAAAAAAAAA", false), false);
    let mut stage = AudioStage::new();
    assert!(matches!(stage.step(&mut state, AudioEvent::Drained), AudioAction::Receive));
    let a = stage.step(&mut state, AudioEvent::Message(download("AAAAAAAAAAA", false)));
    assert!(matches!(a, AudioAction::Poll));
    let a = stage.step(&mut state, AudioEvent::Drained);
    assert!(matches!(a, AudioAction::Probe { id } if id == "AAAAAAAAAAA"));
    let a = stage.step(&mut state, AudioEvent::Cached);
    assert!(matches!(a, AudioAction::Receive));
    assert!(!state.queue().next().unwrap().downloaded);
}

#[test]
fn audio_stage_downloads_and_marks() {
    let mut state = State::new();
    state.enqueue(song("AAAAAAAAAAA", false), false);
    let mut stage = AudioStage::new();
    stage.step(&mut state, AudioEvent::Message(download("AAAAAAAAAAA", false)));
    stage.step(&mut state, AudioEvent::Drained);
    let a = stage.step(&mut state, AudioEvent::NotCached);
    assert!(matches!(
        a,
        AudioAction::Spawn { id, url, output }
            if id == "AAAAAAAAAAA"
                && url == "https://music.youtube.com/watch?v=AAAAAAAAAAA"
                && output == "schmu/AAAAAAAAAAA.m4a"
    ));
    assert!(matches!(stage.step(&mut state, AudioEvent::Running), AudioAction::Poll));
    assert_eq!(WAIT_INTERVAL_MS, 50);
    assert!(matches!(stage.step(&mut state, AudioEvent::Drained), AudioAction::Wait { millis: 50 }));
    let a = stage.step(&mut state, AudioEvent::Message(download("BBBBBBBBBBB", false)));
    assert!(matches!(a, AudioAction::Wait { millis: 0 }));
    assert!(!state.queue().next().unwrap().downloaded);
    let a = stage.step(&mut state, AudioEvent::Exited { success: true });
    assert!(matches!(a, AudioAction::Poll));
    assert!(state.queue().next().unwrap().downloaded);
    let a = stage.step(&mut state, AudioEvent::Drained);
    assert!(matches!(a, AudioAction::Probe { id } if id == "BBBBBBBBBBB"));
}

#[test]
fn audio_stage_retries_failed_extraction() {
    let mut state = State::new();
    state.enqueue(song("AAAAAAAAAAA", false), false);
    let mut stage = AudioStage::new();
    stage.step(&mut state, AudioEvent::Message(download("AAAAAAAAAAA", false)));
    for attempt in 0..4 {
        let a = stage.step(&mut state, AudioEvent::Drained);
        assert!(matches!(a, AudioAction::Probe { id } if id == "AAAAAAAAAAA"));
        let a = stage.step(&mut state, AudioEvent::NotCached);
        assert!(matches!(a, AudioAction::Spawn { .. }));
        let event = if attempt % 2 == 0 {
            AudioEvent::Exited { success: false }
        } else {
            AudioEvent::Failed
        };
        let a = stage.step(&mut state, event);
        if attempt < 3 {
            assert!(matches!(a, AudioAction::Poll));
        } else {
            assert!(matches!(a, AudioAction::Receive));
        }
    }
    assert!(!state.queue().next().unwrap().downloaded);
}

#[test]
fn audio_stage_kills_running_extraction_on_quit() {
    let mut state = State::new();
    let mut stage = AudioStage::new();
    stage.step(&mut state, AudioEvent::Message(download("AAAAAAAAAAA", false)));
    stage.step(&mut state, AudioEvent::Drained);
    stage.step(&mut state, AudioEvent::NotCached);
    stage.step(&mut state, AudioEvent::Running);
    let a = stage.step(&mut state, AudioEvent::Message(Message::Quit));
    assert!(matches!(a, AudioAction::Stop { kill: true }));
    let a = stage.step(&mut state, AudioEvent::Exited { success: true });
    assert!(matches!(a, AudioAction::Stop { kill: false }));
}

#[test]
fn audio_stage_stops_without_kill_when_nothing_runs() {
    let mut state = State::new();
    let mut stage = AudioStage::new();
    let a = stage.step(&mut state, AudioEvent::Disconnected);
    assert!(matches!(a, AudioAction::Stop { kill: false }));
    let mut stage = AudioStage::new();
    stage.step(&mut state, AudioEvent::Message(download("AAAAAAAAAAA", false)));
    stage.step(&mut state, AudioEvent::Drained);
    let a = stage.step(&mut state, AudioEvent::Message(Message::Quit));
    assert!(matches!(a, AudioAction::Stop { kill: false }));
}

#[test]
fn cache_hit_needs_audio_and_metadata() {
    assert!(matches!(
        cache_probe(true, Some(song("AAAAAAAAAAA", false))),
        InfoEvent::Cached(s) if s.id == "AAAAAAAAAAA" && !s.downloaded
    ));
    assert!(matches!(cache_probe(false, Some(song("AAAAAAAAAAA", true))), InfoEvent::NotCached));
    assert!(matches!(cache_probe(true, None), InfoEvent::NotCached));
    assert!(matches!(cache_probe(false, None), InfoEvent::NotCached));
}

#[test]
fn cached_entry_goes_into_the_store_as_downloaded() {
    let mut state = State::new();
    let mut stage = InfoStage::new();
    stage.step(&mut state, InfoEvent::Message(download("AAAAAAAAAAA", true)));
    stage.step(&mut state, InfoEvent::Drained);
    let event = cache_probe(true, Some(song("AAAAAAAAAAA", false)));
    assert!(matches!(stage.step(&mut state, event), InfoAction::Receive));
    assert!(state.fallback_queue().next().unwrap().downloaded);
    let mut stage = InfoStage::new();
    stage.step(&mut state, InfoEvent::Message(download("BBBBBBBBBBB", false)));
    stage.step(&mut state, InfoEvent::Drained);
    let event = cache_probe(false, Some(song("BBBBBBBBBBB", false)));
    assert!(matches!(
        stage.step(&mut state, event),
        InfoAction::Fetch { id } if id == "BBBBBBBBBBB"
    ));
    assert!(!state.has_song_suggestions());
}
