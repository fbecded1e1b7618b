//! Where things lie in the private data directory.
//!
//! Every file is named after what it holds: the catalog has one fixed name, and the
//! two assets of a track are named after the track's id.

use vstd::prelude::*;
use vstd::string::StringExecFns;

verus! {

/// The name of the catalog document.
pub open spec fn catalog_name() -> Seq<char> {
    "songs.json"@
}

/// The name of the audio asset of the track `id`.
pub open spec fn audio_name(id: Seq<char>) -> Seq<char> {
    id + ".mp3"@
}

/// The name of the thumbnail asset of the track `id`.
pub open spec fn thumbnail_name(id: Seq<char>) -> Seq<char> {
    id + ".png"@
}

/// The name of the catalog document.
pub fn catalog_file_name() -> (name: String)
    ensures
        name@ == catalog_name(),
{
    String::from_str("songs.json")
}

/// The name of the audio asset of the track `id`.
pub fn audio_file_name(id: &str) -> (name: String)
    ensures
        name@ == audio_name(id@),
{
    String::from_str(id).concat(".mp3")
}

/// The name of the thumbnail asset of the track `id`.
pub fn thumbnail_file_name(id: &str) -> (name: String)
    ensures
        name@ == thumbnail_name(id@),
{
    String::from_str(id).concat(".png")
}

/// The audio asset of one track and the thumbnail asset of any track are
/// different files: their names end differently.
pub proof fn lemma_asset_names_differ(id: Seq<char>, other: Seq<char>)
    ensures
        audio_name(id) != thumbnail_name(other),
{
    reveal_strlit(".mp3");
    reveal_strlit(".png");
    let audio = audio_name(id);
    let thumbnail = thumbnail_name(other);
    if audio == thumbnail {
        assert(audio[audio.len() - 1] == '3');
        assert(thumbnail[thumbnail.len() - 1] == 'g');
    }
}

} // verus!
