//! The videos of a playlist.

use vstd::prelude::*;
use crate::text::str_eq;
use crate::youtube::browse::playlist::{PlaylistVideo, PlaylistVideoRenderer};

verus! {

/// The reason as to why a [`Video`] is unavailable.
#[derive(Debug, PartialEq, Eq, Structural, Clone, Copy)]
#[non_exhaustive]
pub enum UnavailabilityReason {
    /// The [`Video`] was deleted.
    Deleted,
    /// The [`Video`] was made private.
    Private,
}

/// The placeholder title is one that names a known reason.
pub open spec fn title_known(title: Seq<char>) -> bool {
    title == "[Deleted video]"@ || title == "[Private video]"@
}

/// The reason that a known placeholder title names.
pub open spec fn spec_reason(title: Seq<char>) -> UnavailabilityReason {
    if title == "[Deleted video]"@ {
        UnavailabilityReason::Deleted
    } else {
        UnavailabilityReason::Private
    }
}

impl UnavailabilityReason {
    /// The reason that the placeholder title `title` names.
    pub fn from_title(title: &str) -> (r: UnavailabilityReason)
        requires
            title_known(title@),
        ensures
            r == spec_reason(title@),
    {
        if str_eq(title, "[Deleted video]") {
            UnavailabilityReason::Deleted
        } else {
            UnavailabilityReason::Private
        }
    }
}

/// The error that a [`Video`] of a playlist is unavailable.
#[derive(Debug, Clone, Copy)]
pub struct Error {
    /// The [`Id`](crate::video::Id) of the unavailable [`Video`].
    pub id: crate::video::Id,
    /// The [`Reason`](UnavailabilityReason) why this [`Video`] is unavailable.
    pub reason: UnavailabilityReason,
}

/// A video of the list can be read: a placeholder has a title that names a
/// known reason, and a watchable video has a title run.
pub open spec fn renderer_readable(r: PlaylistVideoRenderer) -> bool {
    match r {
        PlaylistVideoRenderer::Available(v) => v.title.runs@.len() > 0
            && v.short_byline_text.runs@.len() > 0,
        PlaylistVideoRenderer::Unavailable { title, .. } => title.runs@.len() > 0 && title_known(
            title.runs@[0].text@,
        ),
    }
}

/// `v` is what the list item `r` stands for: the video, or the error that
/// names the unavailable video and the reason its placeholder title gives.
pub open spec fn made_from(r: PlaylistVideoRenderer, v: Result<Video, Error>) -> bool {
    match r {
        PlaylistVideoRenderer::Available(pv) => v matches Ok(w) && w.data() == pv,
        PlaylistVideoRenderer::Unavailable { title, video_id } => v matches Err(e) && e.id
            == video_id && e.reason == spec_reason(title.runs@[0].text@),
    }
}

/// A video of a [`Playlist`](super::Playlist).
#[derive(Clone)]
pub struct Video {
    video: PlaylistVideo,
}

impl Video {
    /// What the list says of the video.
    pub closed spec fn data(self) -> PlaylistVideo {
        self.video
    }

    /// The video that the list item `video` stands for, or why it cannot be
    /// watched.
    pub fn new(video: PlaylistVideoRenderer) -> (r: Result<Video, Error>)
        requires
            renderer_readable(video),
        ensures
            made_from(video, r),
            r matches Ok(v) ==> v.data().title.runs@.len() > 0
                && v.data().short_byline_text.runs@.len() > 0,
    {
        match video {
            PlaylistVideoRenderer::Available(video) => Ok(Video { video }),
            PlaylistVideoRenderer::Unavailable { title, video_id } => Err(
                Error {
                    id: video_id,
                    reason: UnavailabilityReason::from_title(title.runs[0].text.as_str()),
                },
            ),
        }
    }

    /// The [`Id`](crate::video::Id) of a video.
    pub fn id(&self) -> (id: crate::video::Id)
        ensures
            id == self.data().video_id,
    {
        self.video.video_id
    }

    /// The title of a video.
    pub fn title(&self) -> (t: &str)
        requires
            self.data().title.runs@.len() > 0,
        ensures
            t@ == self.data().title.runs@[0].text@,
    {
        self.video.title.runs[0].text.as_str()
    }

    /// The length of a video, in seconds.
    pub fn length(&self) -> (secs: u64)
        ensures
            secs == self.data().length_seconds,
    {
        self.video.length_seconds
    }

    /// The [`Thumbnails`](crate::Thumbnail) of a video.
    pub fn thumbnails(&self) -> (t: &Vec<crate::Thumbnail>)
        ensures
            *t == self.data().thumbnail.thumbnails,
    {
        &self.video.thumbnail.thumbnails
    }

    /// The author of a video.
    pub fn channel(&self) -> (c: super::Channel<'_>)
        requires
            self.data().short_byline_text.runs@.len() > 0,
        ensures
            c.known_id() == self.data().short_byline_text.runs@[0].navigation_endpoint.browse_endpoint.browse_id,
            c.shown_name() == self.data().short_byline_text.runs@[0].text@,
    {
        let short = &self.video.short_byline_text.runs[0];
        super::Channel::new(short.navigation_endpoint.browse_endpoint.browse_id, short.text.as_str())
    }
}

impl PartialEq for Video {
    fn eq(&self, other: &Self) -> (b: bool) {
        self.id() == other.id()
    }
}

impl vstd::std_specs::cmp::PartialEqSpecImpl for Video {
    open spec fn obeys_eq_spec() -> bool {
        true
    }

    open spec fn eq_spec(&self, other: &Video) -> bool {
        self.data().video_id@ == other.data().video_id@
    }
}

impl Eq for Video {
}


/// Whether the list item `r` can be read.
pub fn renderer_is_readable(r: &PlaylistVideoRenderer) -> (b: bool)
    ensures
        b == renderer_readable(*r),
{
    match r {
        PlaylistVideoRenderer::Available(v) => v.title.runs.len() > 0
            && v.short_byline_text.runs.len() > 0,
        PlaylistVideoRenderer::Unavailable { title, .. } => {
            if title.runs.len() == 0 {
                return false;
            }
            let t = title.runs[0].text.as_str();
            str_eq(t, "[Deleted video]") || str_eq(t, "[Private video]")
        },
    }
}

} // verus!
