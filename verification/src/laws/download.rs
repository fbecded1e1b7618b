//! Laws of downloading a video as a new track.

use vstd::prelude::*;
use crate::assets::{audio_name, thumbnail_name};
use crate::catalog::{at_most_once, holds};
use crate::disk::{lemma_run_unfolds, run, run_from, Disk, Document, End, Turn};
use crate::download::{new_track, DownloadView};
use crate::error::Failure;
use crate::laws::{faultless, no_track_gained, reading_turns, tracks_on, turn};
use crate::load::{first_request, LoadPhase};
use crate::pipeline::{start_of_download, PipelineView};
use crate::protocol::{OutcomeView, ReplyView, RequestView};
use crate::track::{MetadataView, Settings, Track};
use crate::video::{resolved, VideoView};

verus! {

/// The turns in which an honest shell takes a download from the reading of the
/// catalog to its end without a failure.
pub open spec fn saving_turns(
    settings: Settings,
    video: VideoView,
    disk: Disk,
    now: u128,
    audio: Seq<char>,
    thumbnail: Seq<char>,
) -> Seq<Turn> {
    let ready = disk.with_document(Document::Holds(tracks_on(disk)));
    let track = new_track(video, settings, audio, thumbnail, now);
    reading_turns(disk) + seq![
        turn(ReplyView::Clock(now), ready),
        turn(ReplyView::Located { audio, thumbnail }, ready),
        turn(ReplyView::Done, ready.with_document(Document::Holds(tracks_on(disk).push(track)))),
    ]
}

/// The turns in which an honest shell downloads the video that `metadata`
/// describes without a failure, at the time `now`, locating the assets at `audio`
/// and `thumbnail`.
pub open spec fn downloading_turns(
    settings: Settings,
    disk: Disk,
    metadata: MetadataView,
    now: u128,
    audio: Seq<char>,
    thumbnail: Seq<char>,
) -> Seq<Turn> {
    let video = resolved(metadata)->Ok_0;
    let with_audio = disk.with_asset(audio_name(video.id));
    let with_both = with_audio.with_asset(thumbnail_name(video.id));
    seq![
        turn(ReplyView::Described(metadata), disk),
        turn(ReplyView::Probed(false), disk),
        turn(ReplyView::Done, with_audio),
        turn(ReplyView::Done, with_both),
    ] + saving_turns(settings, video, with_both, now, audio, thumbnail)
}

/// Once both assets are fetched, an honest shell has turns that take the
/// download to its end.
proof fn lemma_download_can_save(
    settings: Settings,
    video: VideoView,
    disk: Disk,
    now: u128,
    audio: Seq<char>,
    thumbnail: Seq<char>,
)
    requires
        !(disk.document is Unreadable),
    ensures
        run_from(
            PipelineView::Downloading(
                DownloadView::Loading { settings, video, phase: LoadPhase::Probing },
            ),
            first_request(),
            disk,
            saving_turns(settings, video, disk, now, audio, thumbnail),
        ) is Some,
        faultless(saving_turns(settings, video, disk, now, audio, thumbnail)),
{
    reveal_with_fuel(run_from, 7);
    let turns = saving_turns(settings, video, disk, now, audio, thumbnail);
    let rest1 = turns.drop_first();
    let rest2 = rest1.drop_first();
    let rest3 = rest2.drop_first();
    let rest4 = rest3.drop_first();
    let rest5 = rest4.drop_first();
    assert(rest1[0] == turns[1]);
    assert(rest2[0] == turns[2]);
    assert(rest3[0] == turns[3]);
    assert(rest4[0] == turns[4]);
    if disk.document is Missing {
        assert(turns.len() == 6);
        assert(rest5[0] == turns[5]);
        assert(rest5.len() == 1);
    } else {
        assert(turns.len() == 5);
        assert(rest4.len() == 1);
    }
}

/// A download can succeed: where the source describes a video with a readable
/// length and a thumbnail, the audio asset is not there yet and the catalog
/// document is readable or missing, an honest shell has turns that take the
/// download to its end.
pub proof fn law_download_can_succeed(
    url: Seq<char>,
    settings: Settings,
    disk: Disk,
    metadata: MetadataView,
    now: u128,
    audio: Seq<char>,
    thumbnail: Seq<char>,
)
    requires
        resolved(metadata) matches Ok(video) && video.thumbnail is Some && !disk.assets.contains(
            audio_name(video.id),
        ),
        !(disk.document is Unreadable),
    ensures
        run(
            start_of_download(url, settings),
            disk,
            downloading_turns(settings, disk, metadata, now, audio, thumbnail),
        ) is Some,
        faultless(downloading_turns(settings, disk, metadata, now, audio, thumbnail)),
{
    let video = resolved(metadata)->Ok_0;
    let with_audio = disk.with_asset(audio_name(video.id));
    let with_both = with_audio.with_asset(thumbnail_name(video.id));
    let turns = downloading_turns(settings, disk, metadata, now, audio, thumbnail);
    let tail = saving_turns(settings, video, with_both, now, audio, thumbnail);
    lemma_download_can_save(settings, video, with_both, now, audio, thumbnail);
    let rest1 = turns.drop_first();
    let rest2 = rest1.drop_first();
    let rest3 = rest2.drop_first();
    assert(rest3.drop_first() =~= tail);
    let resolving = PipelineView::Downloading(DownloadView::Resolving { url, settings });
    let probing = PipelineView::Downloading(DownloadView::Probing { url, settings, video });
    let fetching_audio = PipelineView::Downloading(DownloadView::FetchingAudio { settings, video });
    let fetching_thumbnail = PipelineView::Downloading(
        DownloadView::FetchingThumbnail { settings, video },
    );
    lemma_run_unfolds(resolving, RequestView::Describe { url }, disk, turns);
    lemma_run_unfolds(probing, RequestView::ProbeAsset { name: audio_name(video.id) }, disk, rest1);
    lemma_run_unfolds(
        fetching_audio,
        RequestView::FetchAudio { url, name: audio_name(video.id) },
        disk,
        rest2,
    );
    lemma_run_unfolds(
        fetching_thumbnail,
        RequestView::FetchImage { url: video.thumbnail->Some_0, name: thumbnail_name(video.id) },
        with_audio,
        rest3,
    );
    assert forall|i: int| 0 <= i < turns.len() implies !((#[trigger] turns[i]).reply is Failed) by {
        if i >= 4 {
            assert(turns[i] == tail[i - 4]);
        }
    }
}

/// A download succeeds and hands over a track where the source describes a video
/// with a readable length and a thumbnail, the audio asset is not there yet, and
/// the shell reports no failure.
pub proof fn law_download_succeeds(
    url: Seq<char>,
    settings: Settings,
    disk: Disk,
    turns: Seq<Turn>,
    end: End,
)
    requires
        run(start_of_download(url, settings), disk, turns) == Some(end),
        faultless(turns),
        turns[0].reply matches ReplyView::Described(metadata) && resolved(metadata) matches Ok(
            video,
        ) && video.thumbnail is Some && !disk.assets.contains(audio_name(video.id)),
    ensures
        end.result matches Ok(outcome) && outcome is Downloaded,
{
    reveal_with_fuel(run_from, 11);
}

/// A download that hands over a track has added exactly that track at the end of
/// the catalog and both of its assets to the directory. The track has the id and
/// the length of the video that the source described, and the title, the artist
/// and the trim offsets of the caller's settings. The audio asset was not there
/// before.
pub proof fn law_download_adds_one_track(
    url: Seq<char>,
    settings: Settings,
    disk: Disk,
    turns: Seq<Turn>,
    end: End,
    track: Track,
)
    requires
        run(start_of_download(url, settings), disk, turns) == Some(end),
        end.result == Ok::<OutcomeView, Failure>(OutcomeView::Downloaded(track)),
    ensures
        turns[0].reply matches ReplyView::Described(metadata) && resolved(metadata) matches Ok(
            video,
        ) && track.id == video.id && track.duration == video.duration,
        track.title == settings.title,
        track.artist == settings.artist,
        track.start == settings.start,
        track.end == settings.end,
        !(disk.document is Unreadable),
        end.disk.document == Document::Holds(tracks_on(disk).push(track)),
        !disk.assets.contains(audio_name(track.id)),
        end.disk.assets == disk.assets.insert(audio_name(track.id)).insert(
            thumbnail_name(track.id),
        ),
{
    reveal_with_fuel(run_from, 11);
}

/// A download whose audio asset is there already ends in success after two
/// answers, the description and the look at the asset: nothing is fetched, the
/// catalog is not read or written, the directory stays as it was, and no track is
/// handed over.
pub proof fn law_download_of_present_audio_does_nothing(
    url: Seq<char>,
    settings: Settings,
    disk: Disk,
    turns: Seq<Turn>,
    end: End,
)
    requires
        run(start_of_download(url, settings), disk, turns) == Some(end),
        turns[0].reply matches ReplyView::Described(metadata) && resolved(metadata) matches Ok(
            video,
        ) && disk.assets.contains(audio_name(video.id)),
    ensures
        end.result == Ok::<OutcomeView, Failure>(OutcomeView::AlreadyDownloaded),
        end.disk == disk,
        turns.len() == 2,
{
    reveal_with_fuel(run_from, 3);
}

/// Downloading a video twice gives one catalog entry: after a download that
/// added a track to a catalog that did not hold its id, a second download that
/// resolves to the same id ends in success, changes nothing, and leaves the
/// catalog with exactly one track of that id.
pub proof fn law_second_download_adds_nothing(
    url: Seq<char>,
    settings: Settings,
    disk: Disk,
    turns: Seq<Turn>,
    first: End,
    track: Track,
    again_url: Seq<char>,
    again_settings: Settings,
    again_turns: Seq<Turn>,
    second: End,
)
    requires
        !holds(tracks_on(disk), track.id),
        run(start_of_download(url, settings), disk, turns) == Some(first),
        first.result == Ok::<OutcomeView, Failure>(OutcomeView::Downloaded(track)),
        run(start_of_download(again_url, again_settings), first.disk, again_turns) == Some(second),
        again_turns[0].reply matches ReplyView::Described(metadata) && resolved(metadata) matches Ok(
            video,
        ) && video.id == track.id,
    ensures
        second.result == Ok::<OutcomeView, Failure>(OutcomeView::AlreadyDownloaded),
        second.disk == first.disk,
        again_turns.len() == 2,
        holds(tracks_on(second.disk), track.id),
        at_most_once(tracks_on(second.disk), track.id),
{
    law_download_adds_one_track(url, settings, disk, turns, first, track);
    law_download_of_present_audio_does_nothing(
        again_url,
        again_settings,
        first.disk,
        again_turns,
        second,
    );
    let before = tracks_on(disk);
    let now = before.push(track);
    assert(now[before.len() as int].id == track.id);
    assert forall|i: int, j: int|
        0 <= i < now.len() && 0 <= j < now.len() && (#[trigger] now[i]).id == track.id && (
        #[trigger] now[j]).id == track.id implies i == j by {
        if i < before.len() {
            assert(before[i].id == track.id);
        }
        if j < before.len() {
            assert(before[j].id == track.id);
        }
    }
}

/// A download that fails takes nothing away and adds no track. What it fetched
/// before it failed stays: the directory may have gained the audio asset and the
/// thumbnail asset of the video, and nothing else.
pub proof fn law_failed_download_leaves_its_assets(
    url: Seq<char>,
    settings: Settings,
    disk: Disk,
    turns: Seq<Turn>,
    end: End,
)
    requires
        run(start_of_download(url, settings), disk, turns) == Some(end),
        end.result is Err,
    ensures
        no_track_gained(disk.document, end.disk.document),
        disk.assets.subset_of(end.disk.assets),
        end.disk.assets != disk.assets ==> (turns[0].reply matches ReplyView::Described(metadata)
            && resolved(metadata) matches Ok(video) && end.disk.assets.subset_of(
            disk.assets.insert(audio_name(video.id)).insert(thumbnail_name(video.id)),
        )),
{
    reveal_with_fuel(run_from, 11);
}

} // verus!
