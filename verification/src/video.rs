//! Reading what a video source reports.
//!
//! A source spells the length of a video as text. Metadata whose length is no
//! decimal number of seconds counts as unresolved; a video without thumbnails is
//! resolved, and the lack shows only where a thumbnail is asked for.

use vstd::prelude::*;
use crate::error::{bad_duration, Error, Failure};
use crate::seconds::{parse_seconds, seconds_of};
use crate::track::{texts_of, DetailsView, Metadata, MetadataView, VideoDetails};

verus! {

/// The first of a list of texts, if there is one.
pub open spec fn first_of(texts: Seq<Seq<char>>) -> Option<Seq<char>> {
    if texts.len() > 0 {
        Some(texts[0])
    } else {
        None
    }
}

/// What a download needs of a video, as contracts speak of it.
pub struct VideoView {
    pub id: Seq<char>,
    pub duration: u64,
    pub thumbnail: Option<Seq<char>>,
}

/// What a download needs of a video: its id, its length in seconds, and the
/// address of its first thumbnail, if it has one.
#[derive(Debug, PartialEq, Eq)]
pub struct Video {
    pub id: String,
    pub duration: u64,
    pub thumbnail: Option<String>,
}

impl View for Video {
    type V = VideoView;

    open spec fn view(&self) -> VideoView {
        VideoView {
            id: self.id@,
            duration: self.duration,
            thumbnail: match self.thumbnail {
                Some(address) => Some(address@),
                None => None,
            },
        }
    }
}

/// The video that `metadata` describes, or the failure of an unreadable length.
pub open spec fn resolved(metadata: MetadataView) -> Result<VideoView, Failure> {
    match seconds_of(metadata.length_seconds) {
        Some(duration) => Ok(
            VideoView { id: metadata.id, duration, thumbnail: first_of(metadata.thumbnails) },
        ),
        None => Err(bad_duration(metadata.length_seconds)),
    }
}

/// The summary of the video that `metadata` describes: its title, its first
/// thumbnail and its length. An unreadable length fails first, then a missing
/// thumbnail.
pub open spec fn details_of(metadata: MetadataView) -> Result<DetailsView, Failure> {
    match seconds_of(metadata.length_seconds) {
        Some(duration) => match first_of(metadata.thumbnails) {
            Some(thumbnail) => Ok(DetailsView { title: metadata.title, thumbnail, duration }),
            None => Err(Failure::Index),
        },
        None => Err(bad_duration(metadata.length_seconds)),
    }
}

/// The address of the first thumbnail, if there is one.
fn first_thumbnail(thumbnails: &Vec<String>) -> (first: Option<String>)
    ensures
        match first {
            Some(address) => first_of(texts_of(thumbnails@)) == Some(address@),
            None => first_of(texts_of(thumbnails@)) is None,
        },
{
    if thumbnails.len() > 0 {
        Some(thumbnails[0].clone())
    } else {
        None
    }
}

/// Reads the metadata of a video for a download.
pub fn resolve(metadata: Metadata) -> (video: Result<Video, Error>)
    ensures
        match video {
            Ok(video) => resolved(metadata@) == Ok::<VideoView, Failure>(video@),
            Err(error) => resolved(metadata@) == Err::<VideoView, Failure>(error@),
        },
{
    match parse_seconds(metadata.length_seconds.as_str()) {
        Some(duration) => {
            let thumbnail = first_thumbnail(&metadata.thumbnails);
            Ok(Video { id: metadata.id, duration, thumbnail })
        },
        None => Err(Error::bad_duration(metadata.length_seconds.as_str())),
    }
}

/// Sums up the metadata of a video.
pub fn summarize(metadata: Metadata) -> (details: Result<VideoDetails, Error>)
    ensures
        match details {
            Ok(details) => details_of(metadata@) == Ok::<DetailsView, Failure>(details@),
            Err(error) => details_of(metadata@) == Err::<DetailsView, Failure>(error@),
        },
{
    match parse_seconds(metadata.length_seconds.as_str()) {
        Some(duration) => match first_thumbnail(&metadata.thumbnails) {
            Some(thumbnail) => Ok(VideoDetails { title: metadata.title, thumbnail, duration }),
            None => Err(Error::Index),
        },
        None => Err(Error::bad_duration(metadata.length_seconds.as_str())),
    }
}

} // verus!
