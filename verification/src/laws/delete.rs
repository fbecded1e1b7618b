//! Laws of deleting a track.

use vstd::prelude::*;
use crate::assets::{audio_name, lemma_asset_names_differ, thumbnail_name};
use crate::catalog::{at_most_once, first_index, holds, lemma_first_index_finds};
use crate::disk::{run, run_from, Disk, Document, End, Turn};
use crate::error::Failure;
use crate::laws::{faultless, no_track_gained, reading_turns, tracks_on, turn};
use crate::pipeline::start_of_delete;
use crate::protocol::{OutcomeView, ReplyView};
use crate::track::Track;

verus! {

/// The turns in which an honest shell deletes the track `id` without a failure.
pub open spec fn deleting_turns(id: Seq<char>, disk: Disk, index: int) -> Seq<Turn> {
    let without_audio = disk.without_asset(audio_name(id));
    let without_both = without_audio.without_asset(thumbnail_name(id));
    reading_turns(disk) + seq![
        turn(ReplyView::Done, without_audio),
        turn(ReplyView::Done, without_both),
        turn(
            ReplyView::Done,
            without_both.with_document(Document::Holds(tracks_on(disk).remove(index))),
        ),
    ]
}

/// A deletion can succeed: where the catalog holds the id and both assets of the
/// id are there, an honest shell has turns that take the deletion to its end.
pub proof fn law_delete_can_succeed(id: Seq<char>, disk: Disk)
    requires
        holds(tracks_on(disk), id),
        disk.assets.contains(audio_name(id)),
        disk.assets.contains(thumbnail_name(id)),
    ensures
        first_index(tracks_on(disk), id) matches Some(index) && run(
            start_of_delete(id),
            disk,
            deleting_turns(id, disk, index),
        ) is Some && faultless(deleting_turns(id, disk, index)),
{
    reveal_with_fuel(run_from, 6);
    lemma_first_index_finds(tracks_on(disk), id);
    lemma_asset_names_differ(id, id);
    let index = first_index(tracks_on(disk), id)->Some_0;
    let turns = deleting_turns(id, disk, index);
    assert(turns.len() == 5);
    let rest1 = turns.drop_first();
    let rest2 = rest1.drop_first();
    let rest3 = rest2.drop_first();
    let rest4 = rest3.drop_first();
    assert(rest1[0] == turns[1]);
    assert(rest2[0] == turns[2]);
    assert(rest3[0] == turns[3]);
    assert(rest4[0] == turns[4]);
    assert(rest4.len() == 1);
}

/// A deletion succeeds where the catalog holds the id and the shell reports no
/// failure.
pub proof fn law_delete_succeeds(id: Seq<char>, disk: Disk, turns: Seq<Turn>, end: End)
    requires
        run(start_of_delete(id), disk, turns) == Some(end),
        faultless(turns),
        holds(tracks_on(disk), id),
    ensures
        end.result == Ok::<OutcomeView, Failure>(OutcomeView::Deleted),
{
    reveal_with_fuel(run_from, 7);
    lemma_first_index_finds(tracks_on(disk), id);
}

/// Taking the only track with an id out of a catalog leaves none with that id.
pub proof fn lemma_removed_id_is_gone(tracks: Seq<Track>, id: Seq<char>, index: int)
    requires
        at_most_once(tracks, id),
        0 <= index < tracks.len(),
        tracks[index].id == id,
    ensures
        !holds(tracks.remove(index), id),
{
    let rest = tracks.remove(index);
    assert forall|j: int| 0 <= j < rest.len() implies (#[trigger] rest[j]).id != id by {
        if j < index {
            assert(rest[j] == tracks[j]);
        } else {
            assert(rest[j] == tracks[j + 1]);
        }
    }
}

/// A deletion that succeeds removes the track from the catalog and both asset
/// files from the directory: where the catalog held the id once, it holds it no
/// more, every other track keeps its order, and neither asset of the id is left.
pub proof fn law_delete_removes_entry_and_assets(
    id: Seq<char>,
    disk: Disk,
    tracks: Seq<Track>,
    turns: Seq<Turn>,
    end: End,
)
    requires
        disk.document == Document::Holds(tracks),
        at_most_once(tracks, id),
        run(start_of_delete(id), disk, turns) == Some(end),
        end.result is Ok,
    ensures
        end.result == Ok::<OutcomeView, Failure>(OutcomeView::Deleted),
        first_index(tracks, id) matches Some(index) && end.disk.document == Document::Holds(
            tracks.remove(index),
        ),
        end.disk.document matches Document::Holds(rest) && !holds(rest, id),
        !end.disk.assets.contains(audio_name(id)),
        !end.disk.assets.contains(thumbnail_name(id)),
        end.disk.assets == disk.assets.remove(audio_name(id)).remove(thumbnail_name(id)),
{
    reveal_with_fuel(run_from, 6);
    lemma_first_index_finds(tracks, id);
    match first_index(tracks, id) {
        Some(index) => {
            lemma_removed_id_is_gone(tracks, id, index);
        },
        None => {},
    }
}

/// A deletion of an id that the catalog does not hold fails and changes no track
/// and no asset. It fails as not found, unless the shell reported a failure, which
/// is then the failure of the deletion. Where there is a catalog document, the
/// directory stays exactly as it was; where there is none, an empty one has been
/// created.
pub proof fn law_delete_of_unknown_id_changes_nothing(
    id: Seq<char>,
    disk: Disk,
    turns: Seq<Turn>,
    end: End,
)
    requires
        !holds(tracks_on(disk), id),
        run(start_of_delete(id), disk, turns) == Some(end),
    ensures
        match turns.last().reply {
            ReplyView::Failed(failure) => end.result == Err::<OutcomeView, Failure>(failure),
            _ => end.result == Err::<OutcomeView, Failure>(Failure::NotFound(id)),
        },
        end.disk.assets == disk.assets,
        no_track_gained(disk.document, end.disk.document),
        !(disk.document is Missing) ==> end.disk == disk,
{
    reveal_with_fuel(run_from, 4);
    lemma_first_index_finds(tracks_on(disk), id);
}

/// A deletion stops at its first failure. Up to the third answer nothing has
/// changed: neither asset is deleted before the track is found, and where the
/// audio asset cannot be deleted, the thumbnail asset and the catalog entry stay.
/// A failure with the fourth answer is that of the thumbnail: the audio asset is
/// gone, the catalog entry stays. A failure with the fifth is that of the write:
/// both assets are gone, and the document is as it was or spoilt.
pub proof fn law_failed_delete_stops_at_once(
    id: Seq<char>,
    disk: Disk,
    tracks: Seq<Track>,
    turns: Seq<Turn>,
    end: End,
)
    requires
        disk.document == Document::Holds(tracks),
        run(start_of_delete(id), disk, turns) == Some(end),
        end.result is Err,
    ensures
        turns.len() <= 3 ==> end.disk == disk,
        turns.len() == 4 ==> end.disk == disk.without_asset(audio_name(id)),
        turns.len() >= 5 ==> {
            &&& end.disk.assets == disk.assets.remove(audio_name(id)).remove(thumbnail_name(id))
            &&& (end.disk.document == disk.document || end.disk.document is Unreadable)
        },
{
    reveal_with_fuel(run_from, 6);
}

} // verus!
