//! Laws of editing a track.

use vstd::prelude::*;
use crate::assets::thumbnail_name;
use crate::catalog::{first_index, holds, lemma_first_index_finds};
use crate::disk::{run, run_from, Disk, Document, End, Turn};
use crate::edit::edited_track;
use crate::error::Failure;
use crate::laws::{faultless, no_track_gained, reading_turns, tracks_on, turn};
use crate::pipeline::start_of_edit;
use crate::protocol::{OutcomeView, ReplyView};
use crate::track::Settings;

verus! {

/// The turns in which an honest shell edits the track `id` without a failure,
/// locating its assets at `audio` and `thumbnail`.
pub open spec fn editing_turns(
    id: Seq<char>,
    settings: Settings,
    disk: Disk,
    index: int,
    audio: Seq<char>,
    thumbnail: Seq<char>,
) -> Seq<Turn> {
    let old = tracks_on(disk)[index];
    let fetched = disk.with_asset(thumbnail_name(id));
    let located = if old.thumbnail == settings.thumbnail {
        disk
    } else {
        fetched
    };
    let edited = tracks_on(disk).update(index, edited_track(old, id, settings, audio, thumbnail));
    reading_turns(disk) + if old.thumbnail == settings.thumbnail {
        Seq::<Turn>::empty()
    } else {
        seq![turn(ReplyView::Done, fetched)]
    } + seq![
        turn(ReplyView::Located { audio, thumbnail }, located),
        turn(ReplyView::Done, located.with_document(Document::Holds(edited))),
    ]
}

/// An edit can succeed: where the catalog holds the id, an honest shell has turns
/// that take the edit to its end, wherever it locates the assets.
pub proof fn law_edit_can_succeed(
    id: Seq<char>,
    settings: Settings,
    disk: Disk,
    audio: Seq<char>,
    thumbnail: Seq<char>,
)
    requires
        holds(tracks_on(disk), id),
    ensures
        first_index(tracks_on(disk), id) matches Some(index) && run(
            start_of_edit(id, settings),
            disk,
            editing_turns(id, settings, disk, index, audio, thumbnail),
        ) is Some && faultless(editing_turns(id, settings, disk, index, audio, thumbnail)),
{
    reveal_with_fuel(run_from, 6);
    lemma_first_index_finds(tracks_on(disk), id);
    let index = first_index(tracks_on(disk), id)->Some_0;
    let turns = editing_turns(id, settings, disk, index, audio, thumbnail);
    let rest1 = turns.drop_first();
    let rest2 = rest1.drop_first();
    let rest3 = rest2.drop_first();
    let rest4 = rest3.drop_first();
    assert(rest1[0] == turns[1]);
    assert(rest2[0] == turns[2]);
    assert(rest3[0] == turns[3]);
    if tracks_on(disk)[index].thumbnail == settings.thumbnail {
        assert(turns.len() == 4);
        assert(rest3.len() == 1);
    } else {
        assert(turns.len() == 5);
        assert(rest4[0] == turns[4]);
        assert(rest4.len() == 1);
    }
}

/// An edit succeeds where the catalog holds the id and the shell reports no
/// failure.
pub proof fn law_edit_succeeds(
    id: Seq<char>,
    settings: Settings,
    disk: Disk,
    turns: Seq<Turn>,
    end: End,
)
    requires
        run(start_of_edit(id, settings), disk, turns) == Some(end),
        faultless(turns),
        holds(tracks_on(disk), id),
    ensures
        end.result == Ok::<OutcomeView, Failure>(OutcomeView::Edited),
{
    reveal_with_fuel(run_from, 7);
    lemma_first_index_finds(tracks_on(disk), id);
}

/// An edit that succeeds puts one track in the place of the first track with the
/// id and touches no other. The new track keeps the id, the length and the time
/// of creation of the old one and takes the title, the artist and the trim
/// offsets of the settings. No asset goes away; the thumbnail asset is written
/// where the settings name another thumbnail than the stored one.
pub proof fn law_edit_keeps_immutables(
    id: Seq<char>,
    settings: Settings,
    disk: Disk,
    turns: Seq<Turn>,
    end: End,
)
    requires
        run(start_of_edit(id, settings), disk, turns) == Some(end),
        end.result is Ok,
    ensures
        end.result == Ok::<OutcomeView, Failure>(OutcomeView::Edited),
        disk.document is Holds,
        end.disk.document is Holds,
        first_index(tracks_on(disk), id) matches Some(index) && {
            let old = tracks_on(disk);
            let new = tracks_on(end.disk);
            &&& 0 <= index < old.len()
            &&& new.len() == old.len()
            &&& new[index].id == old[index].id
            &&& new[index].duration == old[index].duration
            &&& new[index].created_at == old[index].created_at
            &&& new[index].title == settings.title
            &&& new[index].artist == settings.artist
            &&& new[index].start == settings.start
            &&& new[index].end == settings.end
            &&& forall|j: int| 0 <= j < old.len() && j != index ==> new[j] == old[j]
            &&& end.disk.assets == if old[index].thumbnail == settings.thumbnail {
                disk.assets
            } else {
                disk.assets.insert(thumbnail_name(id))
            }
        },
{
    reveal_with_fuel(run_from, 6);
    lemma_first_index_finds(tracks_on(disk), id);
}

/// An edit of an id that the catalog does not hold fails and changes no track and
/// no asset. It fails as not found, unless the shell reported a failure, which is
/// then the failure of the edit. Where there is a catalog document, the directory
/// stays exactly as it was; where there is none, an empty one has been created.
pub proof fn law_edit_of_unknown_id_changes_nothing(
    id: Seq<char>,
    settings: Settings,
    disk: Disk,
    turns: Seq<Turn>,
    end: End,
)
    requires
        !holds(tracks_on(disk), id),
        run(start_of_edit(id, settings), disk, turns) == Some(end),
    ensures
        match turns.last().reply {
            ReplyView::Failed(failure) => end.result == Err::<OutcomeView, Failure>(failure),
            _ => end.result == Err::<OutcomeView, Failure>(Failure::NotFound(id)),
        },
        end.disk.assets == disk.assets,
        no_track_gained(disk.document, end.disk.document),
        !(disk.document is Missing) ==> end.disk == disk,
{
    reveal_with_fuel(run_from, 4);
    lemma_first_index_finds(tracks_on(disk), id);
}

/// An edit that fails takes nothing away and changes no track. Where it failed
/// after the fetch of a new thumbnail, or in it, the thumbnail asset may have
/// been written.
pub proof fn law_failed_edit_changes_no_track(
    id: Seq<char>,
    settings: Settings,
    disk: Disk,
    turns: Seq<Turn>,
    end: End,
)
    requires
        run(start_of_edit(id, settings), disk, turns) == Some(end),
        end.result is Err,
    ensures
        no_track_gained(disk.document, end.disk.document),
        end.disk.assets == disk.assets || end.disk.assets == disk.assets.insert(
            thumbnail_name(id),
        ),
{
    reveal_with_fuel(run_from, 6);
}

} // verus!
