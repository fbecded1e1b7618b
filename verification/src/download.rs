//! Downloading a video as a new track.
//!
//! The steps, in order: resolve the URL; look whether the audio asset is there
//! already; fetch the audio; fetch the first thumbnail; read the catalog; take the
//! time; locate the two assets; write the catalog with the new track at its end.
//!
//! Where the audio asset is there already, the download ends at once and in
//! success, with nothing fetched, nothing written and no track to hand over.
//! Nothing is undone when a later step fails: what was fetched stays on disk.

use vstd::prelude::*;
use crate::assets::{audio_file_name, audio_name, thumbnail_file_name, thumbnail_name};
use crate::catalog::append;
use crate::error::Error;
use crate::load::{
    advance as advance_load, after as after_load, begin, first_request, save, write_request,
    LoadPhase, Loading, LoadingView,
};
use crate::protocol::{
    locate, locate_request, stray, Outcome, OutcomeView, Progress, ProgressView, Reply, ReplyView,
    Request, RequestView,
};
use crate::track::{tracks_of, DownloadSettings, Settings, Song, Track};
use crate::video::{resolve, resolved, Video, VideoView};

verus! {

/// The state of a download, as contracts speak of it.
pub enum DownloadView {
    Resolving { url: Seq<char>, settings: Settings },
    Probing { url: Seq<char>, settings: Settings, video: VideoView },
    FetchingAudio { settings: Settings, video: VideoView },
    FetchingThumbnail { settings: Settings, video: VideoView },
    Loading { settings: Settings, video: VideoView, phase: LoadPhase },
    Timing { settings: Settings, video: VideoView, tracks: Seq<Track> },
    Locating { settings: Settings, video: VideoView, tracks: Seq<Track>, created_at: u128 },
    Saving { track: Track },
}

/// The state of a download: the question that is open, and what is known so far.
#[derive(Debug, PartialEq, Eq)]
pub enum Download {
    /// Asked for the metadata of the video.
    Resolving { url: String, settings: DownloadSettings },
    /// Asked whether the audio asset exists.
    Probing { url: String, settings: DownloadSettings, video: Video },
    /// Asked to fetch the audio.
    FetchingAudio { settings: DownloadSettings, video: Video },
    /// Asked to fetch the thumbnail.
    FetchingThumbnail { settings: DownloadSettings, video: Video },
    /// Reading the catalog.
    Loading { settings: DownloadSettings, video: Video, phase: LoadPhase },
    /// Asked for the time.
    Timing { settings: DownloadSettings, video: Video, songs: Vec<Song> },
    /// Asked for the paths of the two assets.
    Locating { settings: DownloadSettings, video: Video, songs: Vec<Song>, created_at: u128 },
    /// Asked to write the catalog that ends with the new track.
    Saving { song: Song },
}

impl View for Download {
    type V = DownloadView;

    open spec fn view(&self) -> DownloadView {
        match self {
            Download::Resolving { url, settings } => DownloadView::Resolving {
                url: url@,
                settings: settings@,
            },
            Download::Probing { url, settings, video } => DownloadView::Probing {
                url: url@,
                settings: settings@,
                video: video@,
            },
            Download::FetchingAudio { settings, video } => DownloadView::FetchingAudio {
                settings: settings@,
                video: video@,
            },
            Download::FetchingThumbnail { settings, video } => DownloadView::FetchingThumbnail {
                settings: settings@,
                video: video@,
            },
            Download::Loading { settings, video, phase } => DownloadView::Loading {
                settings: settings@,
                video: video@,
                phase: *phase,
            },
            Download::Timing { settings, video, songs } => DownloadView::Timing {
                settings: settings@,
                video: video@,
                tracks: tracks_of(songs@),
            },
            Download::Locating { settings, video, songs, created_at } => DownloadView::Locating {
                settings: settings@,
                video: video@,
                tracks: tracks_of(songs@),
                created_at: *created_at,
            },
            Download::Saving { song } => DownloadView::Saving { track: song@ },
        }
    }
}

/// The track that a download makes: id and length come from the video; title,
/// artist and trim offsets from the caller; the two paths from the shell; the time
/// from the clock. The thumbnail that the caller's settings name plays no part.
pub open spec fn new_track(
    video: VideoView,
    settings: Settings,
    audio: Seq<char>,
    thumbnail: Seq<char>,
    created_at: u128,
) -> Track {
    Track {
        id: video.id,
        title: settings.title,
        artist: settings.artist,
        thumbnail,
        file: audio,
        duration: video.duration,
        created_at,
        start: settings.start,
        end: settings.end,
    }
}

/// The state and the request with which the download of `url` begins.
pub open spec fn start(url: Seq<char>, settings: Settings) -> (DownloadView, RequestView) {
    (DownloadView::Resolving { url, settings }, RequestView::Describe { url })
}

/// What follows the answer `reply` in the state `state`.
pub open spec fn after(state: DownloadView, reply: ReplyView) -> ProgressView<DownloadView> {
    if let ReplyView::Failed(failure) = reply {
        ProgressView::Finish(Err(failure))
    } else {
        match state {
            DownloadView::Resolving { url, settings } => match reply {
                ReplyView::Described(metadata) => match resolved(metadata) {
                    Ok(video) => ProgressView::Ask(
                        DownloadView::Probing { url, settings, video },
                        RequestView::ProbeAsset { name: audio_name(video.id) },
                    ),
                    Err(failure) => ProgressView::Finish(Err(failure)),
                },
                _ => stray(),
            },
            DownloadView::Probing { url, settings, video } => match reply {
                ReplyView::Probed(present) => if present {
                    ProgressView::Finish(Ok(OutcomeView::AlreadyDownloaded))
                } else {
                    ProgressView::Ask(
                        DownloadView::FetchingAudio { settings, video },
                        RequestView::FetchAudio { url, name: audio_name(video.id) },
                    )
                },
                _ => stray(),
            },
            DownloadView::FetchingAudio { settings, video } => match reply {
                ReplyView::Done => match video.thumbnail {
                    Some(address) => ProgressView::Ask(
                        DownloadView::FetchingThumbnail { settings, video },
                        RequestView::FetchImage { url: address, name: thumbnail_name(video.id) },
                    ),
                    None => ProgressView::Finish(Err(crate::error::Failure::Index)),
                },
                _ => stray(),
            },
            DownloadView::FetchingThumbnail { settings, video } => match reply {
                ReplyView::Done => ProgressView::Ask(
                    DownloadView::Loading { settings, video, phase: LoadPhase::Probing },
                    first_request(),
                ),
                _ => stray(),
            },
            DownloadView::Loading { settings, video, phase } => match after_load(phase, reply) {
                LoadingView::Ask(phase, request) => ProgressView::Ask(
                    DownloadView::Loading { settings, video, phase },
                    request,
                ),
                LoadingView::Loaded(tracks) => ProgressView::Ask(
                    DownloadView::Timing { settings, video, tracks },
                    RequestView::ReadClock,
                ),
                LoadingView::Failed(failure) => ProgressView::Finish(Err(failure)),
            },
            DownloadView::Timing { settings, video, tracks } => match reply {
                ReplyView::Clock(created_at) => ProgressView::Ask(
                    DownloadView::Locating { settings, video, tracks, created_at },
                    locate_request(video.id),
                ),
                _ => stray(),
            },
            DownloadView::Locating { settings, video, tracks, created_at } => match reply {
                ReplyView::Located { audio, thumbnail } => {
                    let track = new_track(video, settings, audio, thumbnail, created_at);
                    ProgressView::Ask(
                        DownloadView::Saving { track },
                        write_request(tracks.push(track)),
                    )
                },
                _ => stray(),
            },
            DownloadView::Saving { track } => match reply {
                ReplyView::Done => ProgressView::Finish(Ok(OutcomeView::Downloaded(track))),
                _ => stray(),
            },
        }
    }
}

impl Download {
    /// Begins the download of the video at `url`.
    pub fn begin(url: String, settings: DownloadSettings) -> (first: (Download, Request))
        ensures
            (first.0@, first.1@) == start(url@, settings@),
    {
        let request = Request::Describe { url: url.clone() };
        (Download::Resolving { url, settings }, request)
    }

    /// Takes the download one answer further.
    pub fn advance(self, reply: Reply) -> (next: Progress<Download>)
        ensures
            next@ == after(self@, reply@),
    {
        let reply = match reply {
            Reply::Failed(error) => {
                return Progress::Finish(Err(error));
            },
            reply => reply,
        };
        match self {
            Download::Resolving { url, settings } => match reply {
                Reply::Described(metadata) => match resolve(metadata) {
                    Ok(video) => {
                        let request = Request::ProbeAsset { name: audio_file_name(video.id.as_str()) };
                        Progress::Ask(Download::Probing { url, settings, video }, request)
                    },
                    Err(error) => Progress::Finish(Err(error)),
                },
                _ => Progress::Finish(Err(Error::Protocol)),
            },
            Download::Probing { url, settings, video } => match reply {
                Reply::Probed(present) => if present {
                    Progress::Finish(Ok(Outcome::AlreadyDownloaded))
                } else {
                    let request = Request::FetchAudio {
                        url,
                        name: audio_file_name(video.id.as_str()),
                    };
                    Progress::Ask(Download::FetchingAudio { settings, video }, request)
                },
                _ => Progress::Finish(Err(Error::Protocol)),
            },
            Download::FetchingAudio { settings, video } => match reply {
                Reply::Done => match &video.thumbnail {
                    Some(address) => {
                        let request = Request::FetchImage {
                            url: address.clone(),
                            name: thumbnail_file_name(video.id.as_str()),
                        };
                        Progress::Ask(Download::FetchingThumbnail { settings, video }, request)
                    },
                    None => Progress::Finish(Err(Error::Index)),
                },
                _ => Progress::Finish(Err(Error::Protocol)),
            },
            Download::FetchingThumbnail { settings, video } => match reply {
                Reply::Done => Progress::Ask(
                    Download::Loading { settings, video, phase: LoadPhase::Probing },
                    begin(),
                ),
                _ => Progress::Finish(Err(Error::Protocol)),
            },
            Download::Loading { settings, video, phase } => match advance_load(phase, reply) {
                Loading::Ask(phase, request) => Progress::Ask(
                    Download::Loading { settings, video, phase },
                    request,
                ),
                Loading::Loaded(songs) => Progress::Ask(
                    Download::Timing { settings, video, songs },
                    Request::ReadClock,
                ),
                Loading::Failed(error) => Progress::Finish(Err(error)),
            },
            Download::Timing { settings, video, songs } => match reply {
                Reply::Clock(created_at) => {
                    let request = locate(&video.id);
                    Progress::Ask(Download::Locating { settings, video, songs, created_at }, request)
                },
                _ => Progress::Finish(Err(Error::Protocol)),
            },
            Download::Locating { settings, video, songs, created_at } => match reply {
                Reply::Located { audio, thumbnail } => {
                    let song = Song {
                        id: video.id,
                        title: settings.title,
                        artist: settings.artist,
                        thumbnail,
                        file: audio,
                        duration: video.duration,
                        created_at,
                        start: settings.start,
                        end: settings.end,
                    };
                    let kept = song.clone();
                    let mut songs = songs;
                    append(&mut songs, song);
                    Progress::Ask(Download::Saving { song: kept }, save(songs))
                },
                _ => Progress::Finish(Err(Error::Protocol)),
            },
            Download::Saving { song } => match reply {
                Reply::Done => Progress::Finish(Ok(Outcome::Downloaded(song))),
                _ => Progress::Finish(Err(Error::Protocol)),
            },
        }
    }
}

} // verus!
