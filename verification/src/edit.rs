//! Editing a track.
//!
//! The steps, in order: read the catalog; find the track; fetch a new thumbnail
//! where the caller names one; locate the two assets; write the catalog with the
//! edited track in the place of the old one.
//!
//! The thumbnail of the settings does double duty. The text of the stored
//! thumbnail path means "keep the image"; any other text is taken as the address
//! of a new image, which is fetched over the old one.

use vstd::prelude::*;
use crate::assets::{thumbnail_file_name, thumbnail_name};
use crate::catalog::{first_index, Entry, EntryView};
use crate::error::{Error, Failure};
use crate::load::{
    advance as advance_load, after as after_load, begin, first_request, save, write_request,
    LoadPhase, Loading, LoadingView,
};
use crate::protocol::{
    locate, locate_request, stray, Outcome, OutcomeView, Progress, ProgressView, Reply, ReplyView,
    Request, RequestView,
};
use crate::track::{DownloadSettings, Settings, Song, Track};

verus! {

/// The state of an edit, as contracts speak of it.
pub enum EditView {
    Loading { id: Seq<char>, settings: Settings, phase: LoadPhase },
    FetchingThumbnail { id: Seq<char>, settings: Settings, entry: EntryView },
    Locating { id: Seq<char>, settings: Settings, entry: EntryView },
    Saving,
}

/// The state of an edit: the question that is open, and what is known so far.
#[derive(Debug, PartialEq, Eq)]
pub enum Edit {
    /// Reading the catalog.
    Loading { id: String, settings: DownloadSettings, phase: LoadPhase },
    /// Asked to fetch the new thumbnail.
    FetchingThumbnail { id: String, settings: DownloadSettings, entry: Entry },
    /// Asked for the paths of the two assets.
    Locating { id: String, settings: DownloadSettings, entry: Entry },
    /// Asked to write the catalog that holds the edited track.
    Saving,
}

impl View for Edit {
    type V = EditView;

    open spec fn view(&self) -> EditView {
        match self {
            Edit::Loading { id, settings, phase } => EditView::Loading {
                id: id@,
                settings: settings@,
                phase: *phase,
            },
            Edit::FetchingThumbnail { id, settings, entry } => EditView::FetchingThumbnail {
                id: id@,
                settings: settings@,
                entry: entry@,
            },
            Edit::Locating { id, settings, entry } => EditView::Locating {
                id: id@,
                settings: settings@,
                entry: entry@,
            },
            Edit::Saving => EditView::Saving,
        }
    }
}

/// The track that an edit puts in the place of `old`: length and time of creation
/// stay; title, artist and trim offsets come from the caller; the two paths are
/// those of the assets of `id`, as the shell located them.
pub open spec fn edited_track(
    old: Track,
    id: Seq<char>,
    settings: Settings,
    audio: Seq<char>,
    thumbnail: Seq<char>,
) -> Track {
    Track {
        id,
        title: settings.title,
        artist: settings.artist,
        thumbnail,
        file: audio,
        duration: old.duration,
        created_at: old.created_at,
        start: settings.start,
        end: settings.end,
    }
}

/// The state and the request with which the edit of the track `id` begins.
pub open spec fn start(id: Seq<char>, settings: Settings) -> (EditView, RequestView) {
    (EditView::Loading { id, settings, phase: LoadPhase::Probing }, first_request())
}

/// What follows once the catalog has been read: nothing but a failure where it
/// holds no track with the id; else a fetch where the settings name a thumbnail
/// other than the stored path, and the locating of the assets where they do not.
pub open spec fn after_loaded(id: Seq<char>, settings: Settings, tracks: Seq<Track>) -> ProgressView<
    EditView,
> {
    match first_index(tracks, id) {
        Some(index) => {
            let entry = EntryView { tracks, index };
            if tracks[index].thumbnail == settings.thumbnail {
                ProgressView::Ask(EditView::Locating { id, settings, entry }, locate_request(id))
            } else {
                ProgressView::Ask(
                    EditView::FetchingThumbnail { id, settings, entry },
                    RequestView::FetchImage { url: settings.thumbnail, name: thumbnail_name(id) },
                )
            }
        },
        None => ProgressView::Finish(Err(Failure::NotFound(id))),
    }
}

/// What follows the answer `reply` in the state `state`.
pub open spec fn after(state: EditView, reply: ReplyView) -> ProgressView<EditView> {
    if let ReplyView::Failed(failure) = reply {
        ProgressView::Finish(Err(failure))
    } else {
        match state {
            EditView::Loading { id, settings, phase } => match after_load(phase, reply) {
                LoadingView::Ask(phase, request) => ProgressView::Ask(
                    EditView::Loading { id, settings, phase },
                    request,
                ),
                LoadingView::Loaded(tracks) => after_loaded(id, settings, tracks),
                LoadingView::Failed(failure) => ProgressView::Finish(Err(failure)),
            },
            EditView::FetchingThumbnail { id, settings, entry } => match reply {
                ReplyView::Done => ProgressView::Ask(
                    EditView::Locating { id, settings, entry },
                    locate_request(id),
                ),
                _ => stray(),
            },
            EditView::Locating { id, settings, entry } => match reply {
                ReplyView::Located { audio, thumbnail } => {
                    let track = edited_track(
                        entry.tracks[entry.index],
                        id,
                        settings,
                        audio,
                        thumbnail,
                    );
                    ProgressView::Ask(
                        EditView::Saving,
                        write_request(entry.tracks.update(entry.index, track)),
                    )
                },
                _ => stray(),
            },
            EditView::Saving => match reply {
                ReplyView::Done => ProgressView::Finish(Ok(OutcomeView::Edited)),
                _ => stray(),
            },
        }
    }
}

impl Edit {
    /// Begins the edit of the track `id`.
    pub fn begin(id: String, settings: DownloadSettings) -> (first: (Edit, Request))
        ensures
            (first.0@, first.1@) == start(id@, settings@),
    {
        (Edit::Loading { id, settings, phase: LoadPhase::Probing }, begin())
    }

    /// Takes the edit one answer further.
    pub fn advance(self, reply: Reply) -> (next: Progress<Edit>)
        ensures
            next@ == after(self@, reply@),
    {
        let reply = match reply {
            Reply::Failed(error) => {
                return Progress::Finish(Err(error));
            },
            reply => reply,
        };
        match self {
            Edit::Loading { id, settings, phase } => match advance_load(phase, reply) {
                Loading::Ask(phase, request) => Progress::Ask(
                    Edit::Loading { id, settings, phase },
                    request,
                ),
                Loading::Loaded(songs) => match Entry::find(songs, &id) {
                    Some(entry) => {
                        if entry.song().thumbnail == settings.thumbnail {
                            let request = locate(&id);
                            Progress::Ask(Edit::Locating { id, settings, entry }, request)
                        } else {
                            let request = Request::FetchImage {
                                url: settings.thumbnail.clone(),
                                name: thumbnail_file_name(id.as_str()),
                            };
                            Progress::Ask(Edit::FetchingThumbnail { id, settings, entry }, request)
                        }
                    },
                    None => Progress::Finish(Err(Error::NotFound(id))),
                },
                Loading::Failed(error) => Progress::Finish(Err(error)),
            },
            Edit::FetchingThumbnail { id, settings, entry } => match reply {
                Reply::Done => {
                    let request = locate(&id);
                    Progress::Ask(Edit::Locating { id, settings, entry }, request)
                },
                _ => Progress::Finish(Err(Error::Protocol)),
            },
            Edit::Locating { id, settings, entry } => match reply {
                Reply::Located { audio, thumbnail } => {
                    let old = entry.song();
                    let song = Song {
                        id,
                        title: settings.title,
                        artist: settings.artist,
                        thumbnail,
                        file: audio,
                        duration: old.duration,
                        created_at: old.created_at,
                        start: settings.start,
                        end: settings.end,
                    };
                    Progress::Ask(Edit::Saving, save(entry.replace(song)))
                },
                _ => Progress::Finish(Err(Error::Protocol)),
            },
            Edit::Saving => match reply {
                Reply::Done => Progress::Finish(Ok(Outcome::Edited)),
                _ => Progress::Finish(Err(Error::Protocol)),
            },
        }
    }
}

} // verus!
