//! The download pipeline: what its two stages decide.
//!
//! The first stage turns a track id into an entry of the store, from cached
//! metadata or from a fetch; the second fetches the audio and marks the entry
//! as downloaded. Each stage keeps a backlog of entries with a retry budget.
//! A stage decides; its worker reads the channel, the disk and the network,
//! and reports what it found.

pub mod audio;
pub mod info;

use crate::state::{Song, SongView};
use crate::text::{replace_all, replace_text, strip_suffix};
use crate::util;
use image::{ImageError, ImageFormat, ImageReader};
use std::collections::VecDeque;
use std::io::Cursor;
use vstd::prelude::*;
use vstd::string::*;

verus! {

/// How often a failed entry is tried again.
pub const DOWNLOAD_ATTEMPTS: usize = 3;

/// One item of a stage's backlog.
pub struct DownloadEntry {
    pub id: String,
    pub tries_left: usize,
    pub is_fallback: bool,
}

/// A backlog item as plain values.
pub struct EntryView {
    pub id: Seq<char>,
    pub tries_left: usize,
    pub is_fallback: bool,
}

impl View for DownloadEntry {
    type V = EntryView;

    open spec fn view(&self) -> EntryView {
        EntryView { id: self.id@, tries_left: self.tries_left, is_fallback: self.is_fallback }
    }
}

impl EntryView {
    /// An entry as it enters a backlog, with the full retry budget.
    pub open spec fn fresh(id: Seq<char>, is_fallback: bool) -> EntryView {
        EntryView { id, tries_left: DOWNLOAD_ATTEMPTS, is_fallback }
    }

    /// The entry after one more failure.
    pub open spec fn charged(self) -> EntryView {
        EntryView { tries_left: (self.tries_left - 1) as usize, ..self }
    }
}

/// The address under which the audio of track `id` is fetched.
pub open spec fn youtube_address(id: Seq<char>) -> Seq<char> {
    "https://music.youtube.com/watch?v="@ + id
}

/// The address under which the audio of track `id` is fetched.
pub fn get_youtube_url(id: &str) -> (r: String)
    ensures
        r@ == youtube_address(id@),
{
    let mut s = String::from_str("https://music.youtube.com/watch?v=");
    s.append(id);
    s
}

impl DownloadEntry {
    /// An entry for track `id` with the full retry budget.
    pub fn new(id: String, is_fallback: bool) -> (r: Self)
        ensures
            r@ == EntryView::fresh(id@, is_fallback),
    {
        DownloadEntry { id, tries_left: DOWNLOAD_ATTEMPTS, is_fallback }
    }

    /// Where the audio of this track is cached, below the cache directory.
    pub fn audio_cache_location(&self) -> (r: String)
        ensures
            r@ == util::audio_cache_name(self@.id),
    {
        util::audio_cache_location(self.id.as_str())
    }

    /// Where the metadata of this track is cached, below the cache directory.
    pub fn song_info_cache_location(&self) -> (r: String)
        ensures
            r@ == util::song_info_cache_name(self@.id),
    {
        util::song_info_cache_location(self.id.as_str())
    }

    /// The address under which the audio of this track is fetched.
    pub fn youtube_url(&self) -> (r: String)
        ensures
            r@ == youtube_address(self@.id),
    {
        get_youtube_url(self.id.as_str())
    }
}

/// What a stage is told through its channel.
pub enum Message {
    /// Work on track `id`; its entry belongs into the fallback queue if
    /// `is_fallback`.
    Download { id: String, is_fallback: bool },
    /// Stop.
    Quit,
}

/// A message as plain values.
pub enum MessageView {
    Download { id: Seq<char>, is_fallback: bool },
    Quit,
}

impl View for Message {
    type V = MessageView;

    open spec fn view(&self) -> MessageView {
        match self {
            Message::Download { id, is_fallback } => MessageView::Download {
                id: id@,
                is_fallback: *is_fallback,
            },
            Message::Quit => MessageView::Quit,
        }
    }
}

/// The entries of a backlog as plain values, front first.
pub open spec fn entry_views(q: Seq<DownloadEntry>) -> Seq<EntryView> {
    q.map_values(|e: DownloadEntry| e@)
}

/// `backlog` after `entry` has failed: the entry returns to the front with
/// one try less, or is dropped if it has none left.
pub open spec fn requeued(backlog: Seq<EntryView>, entry: EntryView) -> Seq<EntryView> {
    if entry.tries_left == 0 {
        backlog
    } else {
        seq![entry.charged()] + backlog
    }
}

/// An entry that fails every time is tried again `DOWNLOAD_ATTEMPTS` times
/// from the front of the backlog, each time with one try less; when it fails
/// once more it is dropped, and the backlog is what it was without it.
pub proof fn lemma_retry_budget(backlog: Seq<EntryView>, id: Seq<char>, is_fallback: bool)
    ensures
        ({
            let first = requeued(backlog, EntryView::fresh(id, is_fallback));
            let second = requeued(first.skip(1), first[0]);
            let third = requeued(second.skip(1), second[0]);
            let fourth = requeued(third.skip(1), third[0]);
            &&& first[0].id == id && first[0].tries_left == 2 && first.skip(1) == backlog
            &&& second[0].id == id && second[0].tries_left == 1 && second.skip(1) == backlog
            &&& third[0].id == id && third[0].tries_left == 0 && third.skip(1) == backlog
            &&& fourth == backlog
        }),
{
    let first = requeued(backlog, EntryView::fresh(id, is_fallback));
    assert(first.skip(1) =~= backlog);
    let second = requeued(first.skip(1), first[0]);
    assert(second.skip(1) =~= backlog);
    let third = requeued(second.skip(1), second[0]);
    assert(third.skip(1) =~= backlog);
}

/// The work that waits at a stage, in the order in which it is taken up.
pub struct Backlog {
    queue: VecDeque<DownloadEntry>,
}

impl View for Backlog {
    type V = Seq<EntryView>;

    closed spec fn view(&self) -> Seq<EntryView> {
        entry_views(self.queue@)
    }
}

impl Backlog {
    /// An empty backlog.
    pub fn new() -> (r: Self)
        ensures
            r@ == Seq::<EntryView>::empty(),
    {
        let r = Backlog { queue: VecDeque::new() };
        assert(r@ =~= Seq::<EntryView>::empty());
        r
    }

    /// Whether nothing waits.
    pub fn is_empty(&self) -> (r: bool)
        ensures
            r == (self@.len() == 0),
    {
        self.queue.len() == 0
    }

    /// Appends track `id` with the full retry budget.
    pub fn enqueue(&mut self, id: String, is_fallback: bool)
        ensures
            final(self)@ == old(self)@.push(EntryView::fresh(id@, is_fallback)),
    {
        self.queue.push_back(DownloadEntry::new(id, is_fallback));
        assert(self@ =~= old(self)@.push(EntryView::fresh(id@, is_fallback)));
    }

    /// Takes the entry at the front.
    pub fn dequeue(&mut self) -> (r: Option<DownloadEntry>)
        ensures
            match r {
                Some(entry) => old(self)@.len() > 0 && entry@ == old(self)@[0] && final(self)@
                    == old(self)@.skip(1),
                None => old(self)@.len() == 0 && final(self)@ == old(self)@,
            },
    {
        let r = self.queue.pop_front();
        assert(r is Some ==> self@ =~= old(self)@.skip(1));
        r
    }

    /// Takes back an entry that has failed: it returns to the front with one
    /// try less, so that it is tried again soon; with no try left it is
    /// dropped.
    pub fn requeue(&mut self, entry: DownloadEntry)
        ensures
            final(self)@ == requeued(old(self)@, entry@),
            entry@.tries_left > 0 ==> final(self)@[0].tries_left < entry@.tries_left,
    {
        if entry.tries_left > 0 {
            self.queue.push_front(
                DownloadEntry {
                    id: entry.id,
                    tries_left: entry.tries_left - 1,
                    is_fallback: entry.is_fallback,
                },
            );
            assert(self@ =~= requeued(old(self)@, entry@));
        }
    }
}

/// What the metadata source says of a track.
pub struct YoutubeVideoResponse {
    pub author_name: String,
    pub thumbnail_url: String,
    pub title: String,
}

/// An answer of the metadata source as plain values.
pub struct ResponseView {
    pub author_name: Seq<char>,
    pub thumbnail_url: Seq<char>,
    pub title: Seq<char>,
}

impl View for YoutubeVideoResponse {
    type V = ResponseView;

    open spec fn view(&self) -> ResponseView {
        ResponseView {
            author_name: self.author_name@,
            thumbnail_url: self.thumbnail_url@,
            title: self.title@,
        }
    }
}

/// The address that is asked for the metadata of track `id`.
pub open spec fn oembed_address(id: Seq<char>) -> Seq<char> {
    "https://www.youtube.com/oembed?format=json&url=https://www.youtube.com/watch?v="@ + id
}

/// The address that is asked for the metadata of track `id`.
pub fn oembed_url(id: &str) -> (r: String)
    ensures
        r@ == oembed_address(id@),
{
    let mut s = String::from_str(
        "https://www.youtube.com/oembed?format=json&url=https://www.youtube.com/watch?v=",
    );
    s.append(id);
    s
}

/// The artist behind an author name: the name without the ` - Topic` that
/// the source appends to channels it generates.
pub open spec fn artist_name(author_name: Seq<char>) -> Seq<char> {
    if " - Topic"@.is_suffix_of(author_name) {
        author_name.take(author_name.len() - " - Topic"@.len())
    } else {
        author_name
    }
}

/// The artist behind an author name.
pub fn normalize_artist(author_name: &str) -> (r: String)
    ensures
        r@ == artist_name(author_name@),
{
    match strip_suffix(author_name, " - Topic") {
        Some(artist) => {
            assert(artist@ =~= author_name@.take(author_name@.len() - " - Topic"@.len()));
            artist.to_owned()
        },
        None => author_name.to_owned(),
    }
}

/// The address of the thumbnail in its highest resolution.
pub open spec fn thumbnail_address(thumbnail_url: Seq<char>) -> Seq<char> {
    replace_all(thumbnail_url, "hqdefault.jpg"@, "maxresdefault.jpg"@)
}

/// The address of the thumbnail in its highest resolution.
pub fn upgrade_thumbnail(thumbnail_url: &str) -> (r: String)
    ensures
        r@ == thumbnail_address(thumbnail_url@),
{
    replace_text(thumbnail_url, "hqdefault.jpg", "maxresdefault.jpg")
}

impl ResponseView {
    /// The answer with the artist's name and the thumbnail's address put
    /// right.
    pub open spec fn normalized(self) -> ResponseView {
        ResponseView {
            author_name: artist_name(self.author_name),
            thumbnail_url: thumbnail_address(self.thumbnail_url),
            title: self.title,
        }
    }
}

impl YoutubeVideoResponse {
    /// The answer with the artist's name and the thumbnail's address put
    /// right.
    pub fn normalize(self) -> (r: YoutubeVideoResponse)
        ensures
            r@ == self@.normalized(),
    {
        YoutubeVideoResponse {
            author_name: normalize_artist(self.author_name.as_str()),
            thumbnail_url: upgrade_thumbnail(self.thumbnail_url.as_str()),
            title: self.title,
        }
    }
}

/// An error of the `image` crate.
#[verifier::external_type_specification]
#[verifier::external_body]
pub struct ExImageError(ImageError);

/// The eight bytes that every PNG file starts with.
pub open spec fn png_signature() -> Seq<u8> {
    seq![137u8, 80, 78, 71, 13, 10, 26, 10]
}

/// `ImageReader::with_guessed_format`, `ImageReader::decode` and
/// `DynamicImage::write_to` of the `image` crate: reads `bytes` as an image
/// of whatever format they start like and writes that image as PNG. A file
/// that was written starts with the PNG signature, which the encoder writes
/// first. Nothing else is claimed: which bytes are read as an image, and as
/// which, also depends on the hooks that a program has registered with the
/// crate and on the machine's processor.
#[verifier::external_body]
fn reencode_png(bytes: &[u8]) -> (r: Result<Vec<u8>, ImageError>)
    ensures
        r matches Ok(png) ==> png_signature().is_prefix_of(png@),
{
    let mut png = Vec::new();
    let reader = ImageReader::new(Cursor::new(bytes)).with_guessed_format()?;
    reader.decode()?.write_to(&mut Cursor::new(&mut png), ImageFormat::Png)?;
    Ok(png)
}

/// Why no entry could be built from what was fetched.
#[derive(Clone, Copy, Debug, PartialEq, Eq, Structural)]
pub enum FetchError {
    /// The thumbnail is no image that could be read and written as PNG.
    Thumbnail,
}

/// The entry for track `id` with the metadata of a normalized answer and
/// the thumbnail `png`; its audio is still to come.
pub open spec fn fetched_song(id: Seq<char>, response: ResponseView, png: Seq<u8>) -> SongView {
    SongView {
        id,
        title: response.title,
        artist: response.author_name,
        downloaded: false,
        thumbnail: png,
    }
}

/// The entry for track `id` with the metadata of a normalized answer and
/// the thumbnail `png`.
pub fn song_with_thumbnail(id: &str, response: YoutubeVideoResponse, png: Vec<u8>) -> (r: Song)
    ensures
        r@ == fetched_song(id@, response@, png@),
{
    Song {
        id: id.to_owned(),
        title: response.title,
        artist: response.author_name,
        downloaded: false,
        thumbnail: png,
    }
}

/// Builds the entry for track `id` from a normalized answer and the bytes of
/// its thumbnail, which are written anew as PNG. Fails if the bytes are no
/// image that can be read and written; else the entry holds the PNG file,
/// and its audio is still to come.
pub fn build_song(id: &str, response: YoutubeVideoResponse, thumbnail: &[u8]) -> (r: Result<
    Song,
    FetchError,
>)
    ensures
        match r {
            Ok(song) => song@ == fetched_song(id@, response@, song@.thumbnail)
                && png_signature().is_prefix_of(song@.thumbnail),
            Err(e) => e == FetchError::Thumbnail,
        },
{
    match reencode_png(thumbnail) {
        Ok(png) => Ok(song_with_thumbnail(id, response, png)),
        Err(_) => Err(FetchError::Thumbnail),
    }
}

} // verus!
