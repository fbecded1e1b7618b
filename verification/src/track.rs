//! The records of the catalog and the payloads that requests carry.

use vstd::prelude::*;

verus! {

/// One catalog record, as contracts speak of it.
pub struct Track {
    pub id: Seq<char>,
    pub title: Seq<char>,
    pub artist: Seq<char>,
    pub thumbnail: Seq<char>,
    pub file: Seq<char>,
    pub duration: u64,
    pub created_at: u128,
    pub start: u64,
    pub end: u64,
}

impl Track {
    /// The trim offsets lie inside the clip and in order.
    pub open spec fn trim_in_range(self) -> bool {
        self.start <= self.end && self.end <= self.duration
    }
}

/// One catalog record: a downloaded audio clip with its display and trim data.
///
/// `thumbnail` and `file` are the local paths of the two assets. `duration`, `start`
/// and `end` are seconds; `created_at` is milliseconds since the epoch.
#[derive(Debug, PartialEq, Eq)]
pub struct Song {
    pub id: String,
    pub title: String,
    pub artist: String,
    pub thumbnail: String,
    pub file: String,
    pub duration: u64,
    pub created_at: u128,
    pub start: u64,
    pub end: u64,
}

impl View for Song {
    type V = Track;

    open spec fn view(&self) -> Track {
        Track {
            id: self.id@,
            title: self.title@,
            artist: self.artist@,
            thumbnail: self.thumbnail@,
            file: self.file@,
            duration: self.duration,
            created_at: self.created_at,
            start: self.start,
            end: self.end,
        }
    }
}

impl Clone for Song {
    fn clone(&self) -> (copy: Song)
        ensures
            copy@ == self@,
    {
        Song {
            id: self.id.clone(),
            title: self.title.clone(),
            artist: self.artist.clone(),
            thumbnail: self.thumbnail.clone(),
            file: self.file.clone(),
            duration: self.duration,
            created_at: self.created_at,
            start: self.start,
            end: self.end,
        }
    }
}

impl Song {
    /// Whether the trim offsets lie inside the clip and in order. Nothing in the
    /// library enforces this; callers that care can ask.
    pub fn trim_in_range(&self) -> (ok: bool)
        ensures
            ok == self@.trim_in_range(),
    {
        self.start <= self.end && self.end <= self.duration
    }
}

/// The records of a list of songs, in order.
pub open spec fn tracks_of(songs: Seq<Song>) -> Seq<Track> {
    Seq::new(songs.len(), |i: int| songs[i]@)
}

/// What a download or an edit request carries, as contracts speak of it.
pub struct Settings {
    pub start: u64,
    pub end: u64,
    pub title: Seq<char>,
    pub thumbnail: Seq<char>,
    pub artist: Seq<char>,
}

/// What the caller chooses for a track when downloading or editing it.
///
/// On an edit, `thumbnail` is compared with the stored thumbnail path: the same
/// text keeps the image, any other text is taken as the address of a new one.
#[derive(Debug, PartialEq, Eq)]
pub struct DownloadSettings {
    pub start: u64,
    pub end: u64,
    pub title: String,
    pub thumbnail: String,
    pub artist: String,
}

impl View for DownloadSettings {
    type V = Settings;

    open spec fn view(&self) -> Settings {
        Settings {
            start: self.start,
            end: self.end,
            title: self.title@,
            thumbnail: self.thumbnail@,
            artist: self.artist@,
        }
    }
}

/// What a video source reports of a video, as contracts speak of it.
pub struct MetadataView {
    pub id: Seq<char>,
    pub title: Seq<char>,
    pub length_seconds: Seq<char>,
    pub thumbnails: Seq<Seq<char>>,
}

/// What a video source reports of a video: its id, its title, its length as the
/// source spells it, and the addresses of its thumbnails.
#[derive(Debug, PartialEq, Eq)]
pub struct Metadata {
    pub id: String,
    pub title: String,
    pub length_seconds: String,
    pub thumbnails: Vec<String>,
}

/// The texts of a list of strings, in order.
pub open spec fn texts_of(strings: Seq<String>) -> Seq<Seq<char>> {
    Seq::new(strings.len(), |i: int| strings[i]@)
}

impl View for Metadata {
    type V = MetadataView;

    open spec fn view(&self) -> MetadataView {
        MetadataView {
            id: self.id@,
            title: self.title@,
            length_seconds: self.length_seconds@,
            thumbnails: texts_of(self.thumbnails@),
        }
    }
}

/// The summary of a video, as contracts speak of it.
pub struct DetailsView {
    pub title: Seq<char>,
    pub thumbnail: Seq<char>,
    pub duration: u64,
}

/// The summary of a video shown before it is downloaded.
#[derive(Debug, PartialEq, Eq)]
pub struct VideoDetails {
    pub title: String,
    pub thumbnail: String,
    pub duration: u64,
}

impl View for VideoDetails {
    type V = DetailsView;

    open spec fn view(&self) -> DetailsView {
        DetailsView { title: self.title@, thumbnail: self.thumbnail@, duration: self.duration }
    }
}

} // verus!
