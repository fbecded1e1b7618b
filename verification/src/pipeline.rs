//! The five operations of the library, each as a conversation with the shell.
//!
//! An operation begins with a state and a first request. The shell does what is
//! asked and hands the answer to [`Pipeline::advance`], which gives the next
//! request or the end of the operation. The first failure, whoever reports it,
//! ends the operation; nothing is retried and nothing is undone.

use vstd::prelude::*;
use crate::delete::{after as after_delete, start as start_delete, Delete, DeleteView};
use crate::download::{after as after_download, start as start_download, Download, DownloadView};
use crate::edit::{after as after_edit, start as start_edit, Edit, EditView};
use crate::error::Error;
use crate::load::{
    advance as advance_load, after as after_load, begin, first_request, LoadPhase, Loading,
    LoadingView,
};
use crate::protocol::{
    stray, Outcome, OutcomeView, Progress, ProgressView, Reply, ReplyView, Request, RequestView,
};
use crate::track::{DownloadSettings, Settings};
use crate::video::{details_of, summarize};

verus! {

/// The state of an operation, as contracts speak of it.
pub enum PipelineView {
    Listing(LoadPhase),
    Describing,
    Downloading(DownloadView),
    Editing(EditView),
    Deleting(DeleteView),
}

/// The state of an operation that waits for an answer of the shell.
#[derive(Debug, PartialEq, Eq)]
pub enum Pipeline {
    /// Listing the catalog.
    Listing(LoadPhase),
    /// Summing up a video: asked for its metadata.
    Describing,
    /// Downloading a video as a new track.
    Downloading(Download),
    /// Editing a track.
    Editing(Edit),
    /// Deleting a track.
    Deleting(Delete),
}

impl View for Pipeline {
    type V = PipelineView;

    open spec fn view(&self) -> PipelineView {
        match self {
            Pipeline::Listing(phase) => PipelineView::Listing(*phase),
            Pipeline::Describing => PipelineView::Describing,
            Pipeline::Downloading(state) => PipelineView::Downloading(state@),
            Pipeline::Editing(state) => PipelineView::Editing(state@),
            Pipeline::Deleting(state) => PipelineView::Deleting(state@),
        }
    }
}

/// What follows an answer, as contracts speak of it.
pub type StepView = ProgressView<PipelineView>;

/// What follows an answer: the next request, or the end of the operation.
pub type Step = Progress<Pipeline>;

/// The listing of the catalog begins.
pub open spec fn start_list() -> (PipelineView, RequestView) {
    (PipelineView::Listing(LoadPhase::Probing), first_request())
}

/// The summing up of the video at `url` begins.
pub open spec fn start_details(url: Seq<char>) -> (PipelineView, RequestView) {
    (PipelineView::Describing, RequestView::Describe { url })
}

/// The download of the video at `url` begins.
pub open spec fn start_of_download(url: Seq<char>, settings: Settings) -> (
    PipelineView,
    RequestView,
) {
    (PipelineView::Downloading(start_download(url, settings).0), start_download(url, settings).1)
}

/// The edit of the track `id` begins.
pub open spec fn start_of_edit(id: Seq<char>, settings: Settings) -> (PipelineView, RequestView) {
    (PipelineView::Editing(start_edit(id, settings).0), start_edit(id, settings).1)
}

/// The deletion of the track `id` begins.
pub open spec fn start_of_delete(id: Seq<char>) -> (PipelineView, RequestView) {
    (PipelineView::Deleting(start_delete(id).0), start_delete(id).1)
}

/// What follows the answer `reply` in the state `pipeline`.
pub open spec fn after(pipeline: PipelineView, reply: ReplyView) -> StepView {
    match pipeline {
        PipelineView::Listing(phase) => match after_load(phase, reply) {
            LoadingView::Ask(phase, request) => ProgressView::Ask(
                PipelineView::Listing(phase),
                request,
            ),
            LoadingView::Loaded(tracks) => ProgressView::Finish(Ok(OutcomeView::Songs(tracks))),
            LoadingView::Failed(failure) => ProgressView::Finish(Err(failure)),
        },
        PipelineView::Describing => match reply {
            ReplyView::Described(metadata) => match details_of(metadata) {
                Ok(details) => ProgressView::Finish(Ok(OutcomeView::Details(details))),
                Err(failure) => ProgressView::Finish(Err(failure)),
            },
            ReplyView::Failed(failure) => ProgressView::Finish(Err(failure)),
            _ => stray(),
        },
        PipelineView::Downloading(state) => match after_download(state, reply) {
            ProgressView::Ask(state, request) => ProgressView::Ask(
                PipelineView::Downloading(state),
                request,
            ),
            ProgressView::Finish(ending) => ProgressView::Finish(ending),
        },
        PipelineView::Editing(state) => match after_edit(state, reply) {
            ProgressView::Ask(state, request) => ProgressView::Ask(
                PipelineView::Editing(state),
                request,
            ),
            ProgressView::Finish(ending) => ProgressView::Finish(ending),
        },
        PipelineView::Deleting(state) => match after_delete(state, reply) {
            ProgressView::Ask(state, request) => ProgressView::Ask(
                PipelineView::Deleting(state),
                request,
            ),
            ProgressView::Finish(ending) => ProgressView::Finish(ending),
        },
    }
}

impl Pipeline {
    /// Begins the listing of the catalog.
    pub fn list() -> (first: (Pipeline, Request))
        ensures
            (first.0@, first.1@) == start_list(),
    {
        (Pipeline::Listing(LoadPhase::Probing), begin())
    }

    /// Begins the summing up of the video at `url`.
    pub fn details(url: String) -> (first: (Pipeline, Request))
        ensures
            (first.0@, first.1@) == start_details(url@),
    {
        (Pipeline::Describing, Request::Describe { url })
    }

    /// Begins the download of the video at `url` as a new track.
    pub fn download(url: String, settings: DownloadSettings) -> (first: (Pipeline, Request))
        ensures
            (first.0@, first.1@) == start_of_download(url@, settings@),
    {
        let (state, request) = Download::begin(url, settings);
        (Pipeline::Downloading(state), request)
    }

    /// Begins the edit of the track `id`.
    pub fn edit(id: String, settings: DownloadSettings) -> (first: (Pipeline, Request))
        ensures
            (first.0@, first.1@) == start_of_edit(id@, settings@),
    {
        let (state, request) = Edit::begin(id, settings);
        (Pipeline::Editing(state), request)
    }

    /// Begins the deletion of the track `id` and of its two assets.
    pub fn delete(id: String) -> (first: (Pipeline, Request))
        ensures
            (first.0@, first.1@) == start_of_delete(id@),
    {
        let (state, request) = Delete::begin(id);
        (Pipeline::Deleting(state), request)
    }

    /// Takes the operation one answer further.
    pub fn advance(self, reply: Reply) -> (step: Step)
        ensures
            step@ == after(self@, reply@),
    {
        match self {
            Pipeline::Listing(phase) => match advance_load(phase, reply) {
                Loading::Ask(phase, request) => Progress::Ask(Pipeline::Listing(phase), request),
                Loading::Loaded(songs) => Progress::Finish(Ok(Outcome::Songs(songs))),
                Loading::Failed(error) => Progress::Finish(Err(error)),
            },
            Pipeline::Describing => match reply {
                Reply::Described(metadata) => match summarize(metadata) {
                    Ok(details) => Progress::Finish(Ok(Outcome::Details(details))),
                    Err(error) => Progress::Finish(Err(error)),
                },
                Reply::Failed(error) => Progress::Finish(Err(error)),
                _ => Progress::Finish(Err(Error::Protocol)),
            },
            Pipeline::Downloading(state) => match state.advance(reply) {
                Progress::Ask(state, request) => Progress::Ask(Pipeline::Downloading(state), request),
                Progress::Finish(ending) => Progress::Finish(ending),
            },
            Pipeline::Editing(state) => match state.advance(reply) {
                Progress::Ask(state, request) => Progress::Ask(Pipeline::Editing(state), request),
                Progress::Finish(ending) => Progress::Finish(ending),
            },
            Pipeline::Deleting(state) => match state.advance(reply) {
                Progress::Ask(state, request) => Progress::Ask(Pipeline::Deleting(state), request),
                Progress::Finish(ending) => Progress::Finish(ending),
            },
        }
    }
}

} // verus!
