//! What holds of whole operations, whatever an honest shell answers.
//!
//! A law speaks of a run: an operation from its first request to its end, on a
//! directory, with the turns that the shell took. It holds of every run in which
//! the shell answers as [`answers`] allows. For each operation there is a law
//! that says when it can succeed, one that says when it does, one that says what
//! success has done, and one that says what a failure may leave behind.

pub mod delete;
pub mod download;
pub mod edit;
pub mod listing;

use vstd::prelude::*;
use crate::assets::{audio_name, catalog_name, thumbnail_name};
use crate::disk::{answers, run, run_from, Disk, Document, Turn};
use crate::error::Failure;
use crate::pipeline::{
    start_details, start_list, start_of_delete, start_of_download, start_of_edit, PipelineView,
};
use crate::protocol::{ReplyView, RequestView};
use crate::track::{Settings, Track};

verus! {

/// The tracks that a directory's catalog holds; none where there is no document.
pub open spec fn tracks_on(disk: Disk) -> Seq<Track> {
    match disk.document {
        Document::Holds(tracks) => tracks,
        _ => Seq::empty(),
    }
}

/// Whether the shell reported no failure in any of its turns.
pub open spec fn faultless(turns: Seq<Turn>) -> bool {
    forall|i: int| 0 <= i < turns.len() ==> !((#[trigger] turns[i]).reply is Failed)
}

/// Whether the catalog document `after` is what a failed operation may leave of
/// the document `before`: the same; or an empty catalog where there was none; or
/// a document that a failed write has spoilt.
pub open spec fn no_track_gained(before: Document, after: Document) -> bool {
    ||| after == before
    ||| before is Missing && after == Document::Holds(Seq::empty())
    ||| after is Unreadable
}

/// The turn in which the shell gives `reply` and leaves the directory as `disk`.
pub open spec fn turn(reply: ReplyView, disk: Disk) -> Turn {
    Turn { reply, disk }
}

/// The turns in which an honest shell reads the catalog of `disk` without a
/// failure: it looks, creates the document where there is none, and reads.
pub open spec fn reading_turns(disk: Disk) -> Seq<Turn> {
    let ready = disk.with_document(Document::Holds(tracks_on(disk)));
    let read = turn(ReplyView::Catalog(tracks_on(disk)), ready);
    if disk.document is Missing {
        seq![turn(ReplyView::Probed(false), disk), turn(ReplyView::Done, ready), read]
    } else {
        seq![turn(ReplyView::Probed(true), disk), read]
    }
}

/// No asset is named like the catalog document, whatever the id: the names end
/// differently. So the directory can be taken as a document and a set of assets.
pub proof fn law_assets_are_not_the_catalog(id: Seq<char>)
    ensures
        audio_name(id) != catalog_name(),
        thumbnail_name(id) != catalog_name(),
{
    reveal_strlit(".mp3");
    reveal_strlit(".png");
    reveal_strlit("songs.json");
    let audio = audio_name(id);
    let thumbnail = thumbnail_name(id);
    let catalog = catalog_name();
    assert(catalog[catalog.len() - 1] == 'n');
    assert(audio[audio.len() - 1] == '3');
    assert(thumbnail[thumbnail.len() - 1] == 'g');
}

/// The shell of the model is never at a loss: whatever is asked on whatever
/// directory, there is an answer that it may give.
pub proof fn law_shell_can_answer(disk: Disk, request: RequestView)
    ensures
        exists|reply: ReplyView, after: Disk| answers(disk, request, reply, after),
{
    let nothing = Seq::<char>::empty();
    match request {
        RequestView::Describe { url } => {
            assert(answers(disk, request, ReplyView::Failed(Failure::Network(nothing)), disk));
        },
        RequestView::ProbeAsset { name } => {
            assert(answers(disk, request, ReplyView::Probed(disk.assets.contains(name)), disk));
        },
        RequestView::FetchAudio { url, name } => {
            assert(answers(disk, request, ReplyView::Done, disk.with_asset(name)));
        },
        RequestView::FetchImage { url, name } => {
            assert(answers(disk, request, ReplyView::Done, disk.with_asset(name)));
        },
        RequestView::RemoveAsset { name } => {
            assert(answers(disk, request, ReplyView::Failed(Failure::Io(nothing)), disk));
        },
        RequestView::Locate { audio, thumbnail } => {
            assert(answers(disk, request, ReplyView::Located { audio, thumbnail }, disk));
        },
        RequestView::ReadClock => {
            assert(answers(disk, request, ReplyView::Clock(0), disk));
        },
        RequestView::ProbeCatalog { name } => {
            assert(answers(disk, request, ReplyView::Probed(!(disk.document is Missing)), disk));
        },
        RequestView::WriteCatalog { name, tracks } => {
            assert(answers(
                disk,
                request,
                ReplyView::Done,
                disk.with_document(Document::Holds(tracks)),
            ));
        },
        RequestView::ReadCatalog { name } => {
            assert(answers(disk, request, ReplyView::Failed(Failure::Io(nothing)), disk));
        },
    }
}

/// No operation goes on for ever: a listing is over after three answers at most,
/// a summary after one, a download after ten, an edit and a deletion after five.
pub proof fn law_operations_end(
    start: (PipelineView, RequestView),
    disk: Disk,
    turns: Seq<Turn>,
    url: Seq<char>,
    id: Seq<char>,
    settings: Settings,
)
    requires
        run(start, disk, turns) is Some,
    ensures
        start == start_list() ==> turns.len() <= 3,
        start == start_details(url) ==> turns.len() == 1,
        start == start_of_download(url, settings) ==> turns.len() <= 10,
        start == start_of_edit(id, settings) ==> turns.len() <= 5,
        start == start_of_delete(id) ==> turns.len() <= 5,
{
    reveal_with_fuel(run_from, 11);
}

} // verus!
