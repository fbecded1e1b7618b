//! What the library asks of the shell around it, and what the shell answers.
//!
//! The library touches neither the network nor the disk. It asks for one thing at
//! a time with a [`Request`]; the shell does it and hands back a [`Reply`]. Asset
//! and catalog files are named, not located: the shell alone knows the data
//! directory.

use vstd::prelude::*;
use crate::assets::{audio_file_name, audio_name, thumbnail_file_name, thumbnail_name};
use crate::error::{Error, Failure};
use crate::track::{tracks_of, DetailsView, Metadata, MetadataView, Song, Track, VideoDetails};

verus! {

/// A request, as contracts speak of it.
pub enum RequestView {
    Describe { url: Seq<char> },
    ProbeAsset { name: Seq<char> },
    FetchAudio { url: Seq<char>, name: Seq<char> },
    FetchImage { url: Seq<char>, name: Seq<char> },
    RemoveAsset { name: Seq<char> },
    Locate { audio: Seq<char>, thumbnail: Seq<char> },
    ReadClock,
    ProbeCatalog { name: Seq<char> },
    WriteCatalog { name: Seq<char>, tracks: Seq<Track> },
    ReadCatalog { name: Seq<char> },
}

/// One thing that the shell is asked to do.
#[derive(Debug, PartialEq, Eq)]
pub enum Request {
    /// Resolve the URL to the metadata of its video. Answer: `Described`.
    Describe { url: String },
    /// Say whether the data directory holds the asset `name`. Answer: `Probed`.
    ProbeAsset { name: String },
    /// Stream the audio of the video at `url` into the asset `name`. Answer: `Done`.
    FetchAudio { url: String, name: String },
    /// Fetch the image at `url` into the asset `name`, over what is there. Answer: `Done`.
    FetchImage { url: String, name: String },
    /// Delete the asset `name`. Answer: `Done`.
    RemoveAsset { name: String },
    /// Give the full paths of the two assets named. Answer: `Located`.
    Locate { audio: String, thumbnail: String },
    /// Give the time. Answer: `Clock`.
    ReadClock,
    /// Say whether the catalog document `name` exists. Answer: `Probed`.
    ProbeCatalog { name: String },
    /// Write `songs` as the whole catalog document `name`. Answer: `Done`.
    WriteCatalog { name: String, songs: Vec<Song> },
    /// Read the catalog document `name`. Answer: `Catalog`.
    ReadCatalog { name: String },
}

impl View for Request {
    type V = RequestView;

    open spec fn view(&self) -> RequestView {
        match self {
            Request::Describe { url } => RequestView::Describe { url: url@ },
            Request::ProbeAsset { name } => RequestView::ProbeAsset { name: name@ },
            Request::FetchAudio { url, name } => RequestView::FetchAudio { url: url@, name: name@ },
            Request::FetchImage { url, name } => RequestView::FetchImage { url: url@, name: name@ },
            Request::RemoveAsset { name } => RequestView::RemoveAsset { name: name@ },
            Request::Locate { audio, thumbnail } => RequestView::Locate {
                audio: audio@,
                thumbnail: thumbnail@,
            },
            Request::ReadClock => RequestView::ReadClock,
            Request::ProbeCatalog { name } => RequestView::ProbeCatalog { name: name@ },
            Request::WriteCatalog { name, songs } => RequestView::WriteCatalog {
                name: name@,
                tracks: tracks_of(songs@),
            },
            Request::ReadCatalog { name } => RequestView::ReadCatalog { name: name@ },
        }
    }
}

/// A reply, as contracts speak of it.
pub enum ReplyView {
    Described(MetadataView),
    Probed(bool),
    Done,
    Located { audio: Seq<char>, thumbnail: Seq<char> },
    Clock(u128),
    Catalog(Seq<Track>),
    Failed(Failure),
}

/// What the shell answers to a request.
#[derive(Debug, PartialEq, Eq)]
pub enum Reply {
    /// The metadata of the video.
    Described(Metadata),
    /// Whether the file exists.
    Probed(bool),
    /// The work was done.
    Done,
    /// The full paths of the audio and the thumbnail asset.
    Located { audio: String, thumbnail: String },
    /// Milliseconds since the epoch.
    Clock(u128),
    /// The tracks that the catalog document holds, in order.
    Catalog(Vec<Song>),
    /// The work failed.
    Failed(Error),
}

impl View for Reply {
    type V = ReplyView;

    open spec fn view(&self) -> ReplyView {
        match self {
            Reply::Described(metadata) => ReplyView::Described(metadata@),
            Reply::Probed(present) => ReplyView::Probed(*present),
            Reply::Done => ReplyView::Done,
            Reply::Located { audio, thumbnail } => ReplyView::Located {
                audio: audio@,
                thumbnail: thumbnail@,
            },
            Reply::Clock(millis) => ReplyView::Clock(*millis),
            Reply::Catalog(songs) => ReplyView::Catalog(tracks_of(songs@)),
            Reply::Failed(error) => ReplyView::Failed(error@),
        }
    }
}

/// What an operation hands to its caller, as contracts speak of it.
pub enum OutcomeView {
    Songs(Seq<Track>),
    Details(DetailsView),
    Downloaded(Track),
    AlreadyDownloaded,
    Edited,
    Deleted,
}

/// What an operation that succeeded hands to its caller.
#[derive(Debug, PartialEq, Eq)]
pub enum Outcome {
    /// The catalog, in order.
    Songs(Vec<Song>),
    /// The summary of a video.
    Details(VideoDetails),
    /// The track that a download added to the catalog.
    Downloaded(Song),
    /// The audio asset was there already: nothing was fetched, nothing was added
    /// to the catalog, and there is no track to hand over.
    AlreadyDownloaded,
    /// The track was edited.
    Edited,
    /// The track and its two assets are gone.
    Deleted,
}

impl View for Outcome {
    type V = OutcomeView;

    open spec fn view(&self) -> OutcomeView {
        match self {
            Outcome::Songs(songs) => OutcomeView::Songs(tracks_of(songs@)),
            Outcome::Details(details) => OutcomeView::Details(details@),
            Outcome::Downloaded(song) => OutcomeView::Downloaded(song@),
            Outcome::AlreadyDownloaded => OutcomeView::AlreadyDownloaded,
            Outcome::Edited => OutcomeView::Edited,
            Outcome::Deleted => OutcomeView::Deleted,
        }
    }
}

/// How an operation ended, as contracts speak of it.
pub open spec fn ending_of(ending: Result<Outcome, Error>) -> Result<OutcomeView, Failure> {
    match ending {
        Ok(outcome) => Ok(outcome@),
        Err(error) => Err(error@),
    }
}

/// What follows an answer, as contracts speak of it.
pub enum ProgressView<S> {
    Ask(S, RequestView),
    Finish(Result<OutcomeView, Failure>),
}

/// What follows an answer: the operation goes on with a new request, or it is
/// over.
#[derive(Debug, PartialEq, Eq)]
pub enum Progress<S> {
    /// The operation is now in this state and asks this of the shell.
    Ask(S, Request),
    /// The operation is over, and this is how it ended.
    Finish(Result<Outcome, Error>),
}

impl<S: View> View for Progress<S> {
    type V = ProgressView<S::V>;

    open spec fn view(&self) -> ProgressView<S::V> {
        match self {
            Progress::Ask(state, request) => ProgressView::Ask(state@, request@),
            Progress::Finish(ending) => ProgressView::Finish(ending_of(*ending)),
        }
    }
}

/// The end of an operation that got an answer to another question than its own.
pub open spec fn stray<S>() -> ProgressView<S> {
    ProgressView::Finish(Err(Failure::Protocol))
}

/// The request that asks where the two assets of the track `id` lie.
pub open spec fn locate_request(id: Seq<char>) -> RequestView {
    RequestView::Locate { audio: audio_name(id), thumbnail: thumbnail_name(id) }
}

/// The request that asks where the two assets of the track `id` lie.
pub fn locate(id: &String) -> (request: Request)
    ensures
        request@ == locate_request(id@),
{
    Request::Locate {
        audio: audio_file_name(id.as_str()),
        thumbnail: thumbnail_file_name(id.as_str()),
    }
}

} // verus!
