//! Deleting a track.
//!
//! The steps, in order: read the catalog; find the track; delete the audio asset;
//! delete the thumbnail asset; write the catalog without the track.
//!
//! The first failure ends the operation. Where the audio asset cannot be deleted,
//! the thumbnail stays and so does the catalog entry; where the thumbnail cannot
//! be deleted, the audio is gone and the catalog entry stays.

use vstd::prelude::*;
use crate::assets::{audio_file_name, audio_name, thumbnail_file_name, thumbnail_name};
use crate::catalog::{first_index, Entry, EntryView};
use crate::error::{Error, Failure};
use crate::load::{
    advance as advance_load, after as after_load, begin, first_request, save, write_request,
    LoadPhase, Loading, LoadingView,
};
use crate::protocol::{
    stray, Outcome, OutcomeView, Progress, ProgressView, Reply, ReplyView, Request, RequestView,
};
use crate::track::Track;

verus! {

/// The state of a deletion, as contracts speak of it.
pub enum DeleteView {
    Loading { id: Seq<char>, phase: LoadPhase },
    RemovingAudio { id: Seq<char>, entry: EntryView },
    RemovingThumbnail { entry: EntryView },
    Saving,
}

/// The state of a deletion: the question that is open, and what is known so far.
#[derive(Debug, PartialEq, Eq)]
pub enum Delete {
    /// Reading the catalog.
    Loading { id: String, phase: LoadPhase },
    /// Asked to delete the audio asset.
    RemovingAudio { id: String, entry: Entry },
    /// Asked to delete the thumbnail asset.
    RemovingThumbnail { entry: Entry },
    /// Asked to write the catalog without the track.
    Saving,
}

impl View for Delete {
    type V = DeleteView;

    open spec fn view(&self) -> DeleteView {
        match self {
            Delete::Loading { id, phase } => DeleteView::Loading { id: id@, phase: *phase },
            Delete::RemovingAudio { id, entry } => DeleteView::RemovingAudio {
                id: id@,
                entry: entry@,
            },
            Delete::RemovingThumbnail { entry } => DeleteView::RemovingThumbnail { entry: entry@ },
            Delete::Saving => DeleteView::Saving,
        }
    }
}

/// The state and the request with which the deletion of the track `id` begins.
pub open spec fn start(id: Seq<char>) -> (DeleteView, RequestView) {
    (DeleteView::Loading { id, phase: LoadPhase::Probing }, first_request())
}

/// What follows once the catalog has been read: the deletion of the audio asset
/// of `id` where the catalog holds a track with the id, a failure where not.
pub open spec fn after_loaded(id: Seq<char>, tracks: Seq<Track>) -> ProgressView<DeleteView> {
    match first_index(tracks, id) {
        Some(index) => ProgressView::Ask(
            DeleteView::RemovingAudio { id, entry: EntryView { tracks, index } },
            RequestView::RemoveAsset { name: audio_name(id) },
        ),
        None => ProgressView::Finish(Err(Failure::NotFound(id))),
    }
}

/// What follows the answer `reply` in the state `state`.
pub open spec fn after(state: DeleteView, reply: ReplyView) -> ProgressView<DeleteView> {
    if let ReplyView::Failed(failure) = reply {
        ProgressView::Finish(Err(failure))
    } else {
        match state {
            DeleteView::Loading { id, phase } => match after_load(phase, reply) {
                LoadingView::Ask(phase, request) => ProgressView::Ask(
                    DeleteView::Loading { id, phase },
                    request,
                ),
                LoadingView::Loaded(tracks) => after_loaded(id, tracks),
                LoadingView::Failed(failure) => ProgressView::Finish(Err(failure)),
            },
            DeleteView::RemovingAudio { id, entry } => match reply {
                ReplyView::Done => ProgressView::Ask(
                    DeleteView::RemovingThumbnail { entry },
                    RequestView::RemoveAsset { name: thumbnail_name(id) },
                ),
                _ => stray(),
            },
            DeleteView::RemovingThumbnail { entry } => match reply {
                ReplyView::Done => ProgressView::Ask(
                    DeleteView::Saving,
                    write_request(entry.tracks.remove(entry.index)),
                ),
                _ => stray(),
            },
            DeleteView::Saving => match reply {
                ReplyView::Done => ProgressView::Finish(Ok(OutcomeView::Deleted)),
                _ => stray(),
            },
        }
    }
}

impl Delete {
    /// Begins the deletion of the track `id`.
    pub fn begin(id: String) -> (first: (Delete, Request))
        ensures
            (first.0@, first.1@) == start(id@),
    {
        (Delete::Loading { id, phase: LoadPhase::Probing }, begin())
    }

    /// Takes the deletion one answer further.
    pub fn advance(self, reply: Reply) -> (next: Progress<Delete>)
        ensures
            next@ == after(self@, reply@),
    {
        let reply = match reply {
            Reply::Failed(error) => {
                return Progress::Finish(Err(error));
            },
            reply => reply,
        };
        match self {
            Delete::Loading { id, phase } => match advance_load(phase, reply) {
                Loading::Ask(phase, request) => Progress::Ask(Delete::Loading { id, phase }, request),
                Loading::Loaded(songs) => match Entry::find(songs, &id) {
                    Some(entry) => {
                        let request = Request::RemoveAsset { name: audio_file_name(id.as_str()) };
                        Progress::Ask(Delete::RemovingAudio { id, entry }, request)
                    },
                    None => Progress::Finish(Err(Error::NotFound(id))),
                },
                Loading::Failed(error) => Progress::Finish(Err(error)),
            },
            Delete::RemovingAudio { id, entry } => match reply {
                Reply::Done => Progress::Ask(
                    Delete::RemovingThumbnail { entry },
                    Request::RemoveAsset { name: thumbnail_file_name(id.as_str()) },
                ),
                _ => Progress::Finish(Err(Error::Protocol)),
            },
            Delete::RemovingThumbnail { entry } => match reply {
                Reply::Done => Progress::Ask(Delete::Saving, save(entry.remove())),
                _ => Progress::Finish(Err(Error::Protocol)),
            },
            Delete::Saving => match reply {
                Reply::Done => Progress::Finish(Ok(Outcome::Deleted)),
                _ => Progress::Finish(Err(Error::Protocol)),
            },
        }
    }
}

} // verus!
