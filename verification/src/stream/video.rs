//! Streams that hold only video.

use vstd::prelude::*;
use crate::youtube::player_response::VideoFormat;

verus! {

/// A [`Stream`](super::Stream) specifically containing video data.
pub struct Stream {
    common: super::common::Stream,
    video: VideoFormat,
}

impl Stream {
    /// What every stream has.
    pub closed spec fn common(self) -> super::common::Stream {
        self.common
    }

    /// What only video streams have.
    pub closed spec fn video(self) -> VideoFormat {
        self.video
    }

    /// The video stream made of `common` and `video`.
    pub fn new(common: super::common::Stream, video: VideoFormat) -> (s: Stream)
        ensures
            s.common() == common,
            s.video() == video,
    {
        Stream { common, video }
    }

    /// What every stream has.
    pub fn common_ref(&self) -> (c: &super::common::Stream)
        ensures
            *c == self.common(),
    {
        &self.common
    }

    /// The width of a [`Stream`].
    pub fn width(&self) -> (w: u64)
        ensures
            w == self.video().width,
    {
        self.video.width
    }

    /// The height of a [`Stream`].
    pub fn height(&self) -> (h: u64)
        ensures
            h == self.video().height,
    {
        self.video.height
    }

    /// The frames per second of a [`Stream`].
    pub fn fps(&self) -> (f: u64)
        ensures
            f == self.video().fps,
    {
        self.video.fps
    }
}

impl std::ops::Deref for Stream {
    type Target = super::common::Stream;

    fn deref(&self) -> (c: &super::common::Stream)
        ensures
            *c == self.common(),
    {
        &self.common
    }
}

} // verus!
