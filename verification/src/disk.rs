//! A model of the data directory and of a shell that works on it.
//!
//! The library never sees the disk: it sees what the shell answers. This module
//! says what an honest shell answers and what its work does to the directory, so
//! that whole operations can be reasoned about. Nothing here runs; the laws of the
//! library are stated over it.

use vstd::prelude::*;
use crate::error::Failure;
use crate::pipeline::{after, PipelineView};
use crate::protocol::{OutcomeView, ProgressView, ReplyView, RequestView};
use crate::track::Track;

verus! {

/// The catalog document on disk.
pub enum Document {
    /// There is no document.
    Missing,
    /// There is a document, and it is no list of tracks.
    Unreadable,
    /// The document is this list of tracks.
    Holds(Seq<Track>),
}

/// The data directory: the catalog document and the names of the assets that are
/// there. The two are kept apart: no asset is named like the document.
pub struct Disk {
    pub document: Document,
    pub assets: Set<Seq<char>>,
}

impl Disk {
    /// This directory with the asset `name` in it.
    pub open spec fn with_asset(self, name: Seq<char>) -> Disk {
        Disk { document: self.document, assets: self.assets.insert(name) }
    }

    /// This directory without the asset `name`.
    pub open spec fn without_asset(self, name: Seq<char>) -> Disk {
        Disk { document: self.document, assets: self.assets.remove(name) }
    }

    /// This directory with `document` as its catalog document.
    pub open spec fn with_document(self, document: Document) -> Disk {
        Disk { document, assets: self.assets }
    }
}

/// Whether `reply` is what an honest shell may answer to `request` on the
/// directory `before`, leaving the directory as `after`.
///
/// Looking, locating and reading the clock always succeed and change nothing.
/// Work that succeeds has exactly its effect. Work that fails reports a failure
/// of its own kind and may leave a trace: a fetch that fails may have created the
/// asset, and a write that fails may have spoilt the document.
pub open spec fn answers(before: Disk, request: RequestView, reply: ReplyView, after: Disk) -> bool {
    match request {
        RequestView::Describe { url } => after == before && match reply {
            ReplyView::Described(_) => true,
            ReplyView::Failed(failure) => failure is Resolution || failure is Network,
            _ => false,
        },
        RequestView::ProbeAsset { name } => after == before && reply == ReplyView::Probed(
            before.assets.contains(name),
        ),
        RequestView::FetchAudio { url, name } => fetched(before, name, reply, after),
        RequestView::FetchImage { url, name } => fetched(before, name, reply, after),
        RequestView::RemoveAsset { name } => match reply {
            ReplyView::Done => before.assets.contains(name) && after == before.without_asset(name),
            ReplyView::Failed(failure) => failure is Io && after == before,
            _ => false,
        },
        RequestView::Locate { audio, thumbnail } => after == before && reply is Located,
        RequestView::ReadClock => after == before && reply is Clock,
        RequestView::ProbeCatalog { name } => after == before && reply == ReplyView::Probed(
            !(before.document is Missing),
        ),
        RequestView::WriteCatalog { name, tracks } => match reply {
            ReplyView::Done => after == before.with_document(Document::Holds(tracks)),
            ReplyView::Failed(failure) => failure is Io && (after == before || after
                == before.with_document(Document::Unreadable)),
            _ => false,
        },
        RequestView::ReadCatalog { name } => after == before && match reply {
            ReplyView::Catalog(tracks) => before.document == Document::Holds(tracks),
            ReplyView::Failed(failure) => failure is Io || (failure is Format && before.document
                is Unreadable),
            _ => false,
        },
    }
}

/// Whether `reply` is what an honest shell may answer to a fetch into the asset
/// `name`.
pub open spec fn fetched(before: Disk, name: Seq<char>, reply: ReplyView, after: Disk) -> bool {
    match reply {
        ReplyView::Done => after == before.with_asset(name),
        ReplyView::Failed(failure) => (failure is Network || failure is Io) && (after == before
            || after == before.with_asset(name)),
        _ => false,
    }
}

/// One answer of the shell, and the directory as its work left it.
pub struct Turn {
    pub reply: ReplyView,
    pub disk: Disk,
}

/// How an operation ended, and the directory as it left it.
pub struct End {
    pub result: Result<OutcomeView, Failure>,
    pub disk: Disk,
}

/// The end of the operation that is in the state `pipeline` and has asked
/// `request` on the directory `disk`, when the shell takes the turns `turns`.
///
/// There is an end only where every turn answers the request that was open as an
/// honest shell may, and the operation is over with the last turn and not before.
pub open spec fn run_from(
    pipeline: PipelineView,
    request: RequestView,
    disk: Disk,
    turns: Seq<Turn>,
) -> Option<End>
    decreases turns.len(),
{
    if turns.len() == 0 {
        None
    } else if !answers(disk, request, turns[0].reply, turns[0].disk) {
        None
    } else {
        match after(pipeline, turns[0].reply) {
            ProgressView::Ask(next, asked) => run_from(next, asked, turns[0].disk, turns.drop_first()),
            ProgressView::Finish(result) => if turns.len() == 1 {
                Some(End { result, disk: turns[0].disk })
            } else {
                None
            },
        }
    }
}

/// The end of the operation that begins with `start` on the directory `disk`,
/// when the shell takes the turns `turns`.
pub open spec fn run(start: (PipelineView, RequestView), disk: Disk, turns: Seq<Turn>) -> Option<
    End,
> {
    run_from(start.0, start.1, disk, turns)
}

/// A run, one turn unfolded: where the first turn answers the open request, the
/// run goes on from what follows that answer, or ends with it.
pub proof fn lemma_run_unfolds(
    pipeline: PipelineView,
    request: RequestView,
    disk: Disk,
    turns: Seq<Turn>,
)
    requires
        turns.len() > 0,
        answers(disk, request, turns[0].reply, turns[0].disk),
    ensures
        run_from(pipeline, request, disk, turns) == match after(pipeline, turns[0].reply) {
            ProgressView::Ask(next, asked) => run_from(
                next,
                asked,
                turns[0].disk,
                turns.drop_first(),
            ),
            ProgressView::Finish(result) => if turns.len() == 1 {
                Some(End { result, disk: turns[0].disk })
            } else {
                None
            },
        },
{
}

} // verus!
