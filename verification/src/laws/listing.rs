//! Laws of listing the catalog and of summing up a video.

use vstd::prelude::*;
use crate::disk::{answers, run, run_from, Disk, Document, End, Turn};
use crate::error::Failure;
use crate::laws::{faultless, reading_turns, tracks_on};
use crate::load::write_request;
use crate::pipeline::{start_details, start_list};
use crate::protocol::{OutcomeView, ReplyView};
use crate::track::Track;
use crate::video::details_of;

verus! {

/// A listing can succeed: on every directory whose document is readable or
/// missing, an honest shell has turns that take the listing to its end.
pub proof fn law_list_can_succeed(disk: Disk)
    requires
        !(disk.document is Unreadable),
    ensures
        run(start_list(), disk, reading_turns(disk)) is Some,
        faultless(reading_turns(disk)),
{
    reveal_with_fuel(run_from, 4);
    let turns = reading_turns(disk);
    assert(turns.len() >= 2 ==> turns.drop_first()[0] == turns[1]);
    assert(turns.len() >= 3 ==> turns.drop_first().drop_first()[0] == turns[2]);
    if disk.document is Missing {
        assert(turns.drop_first().drop_first().len() == 1);
    } else {
        assert(turns.drop_first().len() == 1);
    }
}

/// A listing succeeds unless the shell reports a failure.
pub proof fn law_list_succeeds(disk: Disk, turns: Seq<Turn>, end: End)
    requires
        run(start_list(), disk, turns) == Some(end),
        faultless(turns),
    ensures
        end.result == Ok::<OutcomeView, Failure>(OutcomeView::Songs(tracks_on(disk))),
{
    reveal_with_fuel(run_from, 4);
}

/// Listing the catalog and writing back what was listed changes nothing: the
/// listing shows what the document holds, in order, and leaves the directory as it
/// was but for creating a missing document as the empty catalog; a write of the
/// listed tracks then leaves the directory exactly as the listing left it.
pub proof fn law_list_then_save_changes_nothing(
    disk: Disk,
    turns: Seq<Turn>,
    end: End,
    listed: Seq<Track>,
    saved: Disk,
)
    requires
        run(start_list(), disk, turns) == Some(end),
        end.result == Ok::<OutcomeView, Failure>(OutcomeView::Songs(listed)),
        answers(end.disk, write_request(listed), ReplyView::Done, saved),
    ensures
        listed == tracks_on(disk),
        end.disk == disk.with_document(Document::Holds(listed)),
        !(disk.document is Missing) ==> end.disk == disk,
        saved == end.disk,
{
    reveal_with_fuel(run_from, 4);
}

/// Summing up a video takes one answer, gives what the metadata says and leaves
/// the directory alone.
pub proof fn law_details_read_the_metadata(url: Seq<char>, disk: Disk, turns: Seq<Turn>, end: End)
    requires
        run(start_details(url), disk, turns) == Some(end),
    ensures
        turns.len() == 1,
        end.disk == disk,
        match turns[0].reply {
            ReplyView::Described(metadata) => end.result == match details_of(metadata) {
                Ok(details) => Ok::<OutcomeView, Failure>(OutcomeView::Details(details)),
                Err(failure) => Err(failure),
            },
            ReplyView::Failed(failure) => end.result == Err::<OutcomeView, Failure>(failure),
            _ => false,
        },
{
    reveal_with_fuel(run_from, 2);
}

} // verus!
