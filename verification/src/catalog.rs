//! The catalog: the tracks in the order in which they were downloaded.
//!
//! An id is meant to name one track, but nothing enforces it: where an id occurs
//! more than once, the first occurrence is the one that is found.

use vstd::prelude::*;
use crate::track::{tracks_of, Song, Track};

verus! {

/// Whether `tracks` holds a track with this id.
pub open spec fn holds(tracks: Seq<Track>, id: Seq<char>) -> bool {
    exists|i: int| 0 <= i < tracks.len() && (#[trigger] tracks[i]).id == id
}

/// Whether `i` is the place of the first track of `tracks` with this id.
pub open spec fn is_first(tracks: Seq<Track>, id: Seq<char>, i: int) -> bool {
    &&& 0 <= i < tracks.len()
    &&& tracks[i].id == id
    &&& forall|j: int| 0 <= j < i ==> (#[trigger] tracks[j]).id != id
}

/// The place of the first track with this id, if there is one.
pub open spec fn first_index(tracks: Seq<Track>, id: Seq<char>) -> Option<int> {
    if exists|i: int| is_first(tracks, id, i) {
        Some(choose|i: int| is_first(tracks, id, i))
    } else {
        None
    }
}

/// Whether at most one track of `tracks` has this id.
pub open spec fn at_most_once(tracks: Seq<Track>, id: Seq<char>) -> bool {
    forall|i: int, j: int|
        0 <= i < tracks.len() && 0 <= j < tracks.len() && (#[trigger] tracks[i]).id == id && (
        #[trigger] tracks[j]).id == id ==> i == j
}

/// A place that is first for an id is the place that `first_index` gives.
pub proof fn lemma_first_index_is(tracks: Seq<Track>, id: Seq<char>, i: int)
    requires
        is_first(tracks, id, i),
    ensures
        first_index(tracks, id) == Some(i),
{
    let chosen = choose|k: int| is_first(tracks, id, k);
    assert(is_first(tracks, id, chosen));
    if chosen < i {
        assert(tracks[chosen].id != id);
    }
    if i < chosen {
        assert(tracks[i].id != id);
    }
}

/// `first_index` finds a track exactly when the catalog holds the id, and what it
/// finds is the first such track.
pub proof fn lemma_first_index_finds(tracks: Seq<Track>, id: Seq<char>)
    ensures
        first_index(tracks, id) is Some <==> holds(tracks, id),
        first_index(tracks, id) matches Some(i) ==> is_first(tracks, id, i),
{
    if holds(tracks, id) {
        let k = choose|k: int| 0 <= k < tracks.len() && (#[trigger] tracks[k]).id == id;
        lemma_least_exists(tracks, id, k);
    }
    if first_index(tracks, id) is Some {
        let i = choose|i: int| is_first(tracks, id, i);
        assert(tracks[i].id == id);
    }
}

/// Below any track with the id lies a first one.
proof fn lemma_least_exists(tracks: Seq<Track>, id: Seq<char>, k: int)
    requires
        0 <= k < tracks.len(),
        tracks[k].id == id,
    ensures
        exists|i: int| is_first(tracks, id, i),
    decreases k,
{
    if exists|j: int| 0 <= j < k && (#[trigger] tracks[j]).id == id {
        let j = choose|j: int| 0 <= j < k && (#[trigger] tracks[j]).id == id;
        lemma_least_exists(tracks, id, j);
    } else {
        assert(is_first(tracks, id, k));
    }
}

/// A catalog together with the place of one of its tracks, as contracts speak
/// of it.
pub struct EntryView {
    pub tracks: Seq<Track>,
    pub index: int,
}

/// A catalog in which one track has been found. The place always lies inside the
/// catalog.
#[derive(Debug, PartialEq, Eq)]
pub struct Entry {
    songs: Vec<Song>,
    index: usize,
}

impl View for Entry {
    type V = EntryView;

    closed spec fn view(&self) -> EntryView {
        EntryView { tracks: tracks_of(self.songs@), index: self.index as int }
    }
}

impl Entry {
    #[verifier::type_invariant]
    spec fn in_range(self) -> bool {
        self.index < self.songs.len()
    }

    /// Looks a track up by id. The entry holds the whole catalog and the place of
    /// the first track with this id; there is none where the catalog holds no such
    /// track.
    pub fn find(songs: Vec<Song>, id: &String) -> (found: Option<Entry>)
        ensures
            match found {
                Some(entry) => {
                    &&& entry@.tracks == tracks_of(songs@)
                    &&& first_index(tracks_of(songs@), id@) == Some(entry@.index)
                },
                None => first_index(tracks_of(songs@), id@) is None,
            },
    {
        let ghost tracks = tracks_of(songs@);
        let mut i: usize = 0;
        while i < songs.len()
            invariant
                tracks == tracks_of(songs@),
                i <= songs.len(),
                forall|j: int| 0 <= j < i ==> (#[trigger] tracks[j]).id != id@,
            decreases songs.len() - i,
        {
            if songs[i].id == *id {
                proof {
                    assert(tracks[i as int].id == id@);
                    lemma_first_index_is(tracks, id@, i as int);
                }
                return Some(Entry { songs, index: i });
            }
            i = i + 1;
        }
        proof {
            lemma_first_index_finds(tracks, id@);
        }
        None
    }

    /// The track that was found.
    pub fn song(&self) -> (song: &Song)
        ensures
            0 <= self@.index < self@.tracks.len(),
            song@ == self@.tracks[self@.index],
    {
        proof {
            use_type_invariant(self);
        }
        &self.songs[self.index]
    }

    /// The catalog with `song` in the place of the track that was found; every
    /// other track stays where it is.
    pub fn replace(self, song: Song) -> (songs: Vec<Song>)
        ensures
            tracks_of(songs@) == self@.tracks.update(self@.index, song@),
    {
        proof {
            use_type_invariant(&self);
        }
        let mut songs = self.songs;
        songs.set(self.index, song);
        assert(tracks_of(songs@) =~= self@.tracks.update(self@.index, song@));
        songs
    }

    /// The catalog without the track that was found; those behind it move up by
    /// one.
    pub fn remove(self) -> (songs: Vec<Song>)
        ensures
            tracks_of(songs@) == self@.tracks.remove(self@.index),
    {
        proof {
            use_type_invariant(&self);
        }
        let mut songs = self.songs;
        let _ = songs.remove(self.index);
        assert(tracks_of(songs@) =~= self@.tracks.remove(self@.index));
        songs
    }
}

/// Adds a track at the end of the catalog.
pub fn append(songs: &mut Vec<Song>, song: Song)
    ensures
        tracks_of(final(songs)@) == tracks_of(old(songs)@).push(song@),
{
    songs.push(song);
    assert(tracks_of(songs@) =~= tracks_of(old(songs)@).push(song@));
}

} // verus!
