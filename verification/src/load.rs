//! Reading the catalog document.
//!
//! A document that does not exist yet is first created as an empty catalog and
//! then read like any other. Every operation on the catalog begins this way.

use vstd::prelude::*;
use crate::assets::{catalog_file_name, catalog_name};
use crate::error::{Error, Failure};
use crate::protocol::{Reply, ReplyView, Request, RequestView};
use crate::track::{tracks_of, Song, Track};

verus! {

/// How far the reading of the catalog has come.
#[derive(Clone, Copy, Debug, PartialEq, Eq)]
pub enum LoadPhase {
    /// Asked whether the document exists.
    Probing,
    /// Asked to write an empty catalog, the document being absent.
    Creating,
    /// Asked for what the document holds.
    Reading,
}

/// What follows an answer during the reading, as contracts speak of it.
pub enum LoadingView {
    Ask(LoadPhase, RequestView),
    Loaded(Seq<Track>),
    Failed(Failure),
}

/// What follows an answer during the reading of the catalog.
#[derive(Debug, PartialEq, Eq)]
pub enum Loading {
    /// The reading goes on with this request.
    Ask(LoadPhase, Request),
    /// The catalog has been read.
    Loaded(Vec<Song>),
    /// The reading failed.
    Failed(Error),
}

impl View for Loading {
    type V = LoadingView;

    open spec fn view(&self) -> LoadingView {
        match self {
            Loading::Ask(phase, request) => LoadingView::Ask(*phase, request@),
            Loading::Loaded(songs) => LoadingView::Loaded(tracks_of(songs@)),
            Loading::Failed(error) => LoadingView::Failed(error@),
        }
    }
}

/// The request that opens the reading: does the document exist?
pub open spec fn first_request() -> RequestView {
    RequestView::ProbeCatalog { name: catalog_name() }
}

/// The request for what the document holds.
pub open spec fn read_request() -> RequestView {
    RequestView::ReadCatalog { name: catalog_name() }
}

/// The request to write `tracks` as the whole document.
pub open spec fn write_request(tracks: Seq<Track>) -> RequestView {
    RequestView::WriteCatalog { name: catalog_name(), tracks }
}

/// What follows the answer `reply` in the phase `phase`.
///
/// A present document is read; an absent one is created empty and then read. A
/// failure ends the reading, and so does an answer to another question.
pub open spec fn after(phase: LoadPhase, reply: ReplyView) -> LoadingView {
    match reply {
        ReplyView::Failed(failure) => LoadingView::Failed(failure),
        ReplyView::Probed(present) => match phase {
            LoadPhase::Probing => if present {
                LoadingView::Ask(LoadPhase::Reading, read_request())
            } else {
                LoadingView::Ask(LoadPhase::Creating, write_request(Seq::empty()))
            },
            _ => LoadingView::Failed(Failure::Protocol),
        },
        ReplyView::Done => match phase {
            LoadPhase::Creating => LoadingView::Ask(LoadPhase::Reading, read_request()),
            _ => LoadingView::Failed(Failure::Protocol),
        },
        ReplyView::Catalog(tracks) => match phase {
            LoadPhase::Reading => LoadingView::Loaded(tracks),
            _ => LoadingView::Failed(Failure::Protocol),
        },
        _ => LoadingView::Failed(Failure::Protocol),
    }
}

/// The request that opens the reading of the catalog.
pub fn begin() -> (request: Request)
    ensures
        request@ == first_request(),
{
    Request::ProbeCatalog { name: catalog_file_name() }
}

/// The request to write `songs` as the whole catalog document.
pub fn save(songs: Vec<Song>) -> (request: Request)
    ensures
        request@ == write_request(tracks_of(songs@)),
{
    Request::WriteCatalog { name: catalog_file_name(), songs }
}

/// Takes the reading one answer further.
pub fn advance(phase: LoadPhase, reply: Reply) -> (next: Loading)
    ensures
        next@ == after(phase, reply@),
{
    match reply {
        Reply::Failed(error) => Loading::Failed(error),
        Reply::Probed(present) => match phase {
            LoadPhase::Probing => if present {
                Loading::Ask(LoadPhase::Reading, Request::ReadCatalog { name: catalog_file_name() })
            } else {
                let empty: Vec<Song> = Vec::new();
                assert(tracks_of(empty@) =~= Seq::<Track>::empty());
                Loading::Ask(LoadPhase::Creating, save(empty))
            },
            _ => Loading::Failed(Error::Protocol),
        },
        Reply::Done => match phase {
            LoadPhase::Creating => Loading::Ask(
                LoadPhase::Reading,
                Request::ReadCatalog { name: catalog_file_name() },
            ),
            _ => Loading::Failed(Error::Protocol),
        },
        Reply::Catalog(songs) => match phase {
            LoadPhase::Reading => Loading::Loaded(songs),
            _ => Loading::Failed(Error::Protocol),
        },
        _ => Loading::Failed(Error::Protocol),
    }
}

} // verus!
