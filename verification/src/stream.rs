//! Streams of a YouTube video.

pub mod audio;
pub mod common;
pub mod video;

use vstd::prelude::*;
use crate::youtube::player_response::{
    spec_as_error, Format, FormatType, Result as PlayerResult, StreamResult,
};

pub use self::audio::Stream as Audio;
pub use self::common::Stream as Common;
pub use self::video::Stream as Video;

verus! {

/// A stream of a YouTube video.
pub enum Stream {
    /// A stream exclusively containing [`Audio`] data.
    Audio(Audio),
    /// A stream exclusively containing [`Video`] data.
    Video(Video),
}

/// `s` is the stream that the format `f` describes.
pub open spec fn made_from(f: Format, s: Stream) -> bool {
    match (f.ty, s) {
        (FormatType::Audio(a), Stream::Audio(x)) => x.common().format() == f.base && x.audio() == a,
        (FormatType::Video(v), Stream::Video(x)) => x.common().format() == f.base && x.video() == v,
        _ => false,
    }
}

impl Stream {
    /// The stream that `format` describes.
    pub fn new(format: Format) -> (s: Stream)
        ensures
            made_from(format, s),
    {
        let Format { base, ty } = format;
        match ty {
            FormatType::Audio(audio) => Stream::Audio(Audio::new(Common::new(base), audio)),
            FormatType::Video(video) => Stream::Video(Video::new(Common::new(base), video)),
        }
    }

    /// Returns `true` if the stream is [`Self::Audio`].
    pub fn is_audio(&self) -> (b: bool)
        ensures
            b == self is Audio,
    {
        match self {
            Stream::Audio(_) => true,
            Stream::Video(_) => false,
        }
    }

    /// Returns `true` if the stream is [`Self::Video`].
    pub fn is_video(&self) -> (b: bool)
        ensures
            b == self is Video,
    {
        match self {
            Stream::Audio(_) => false,
            Stream::Video(_) => true,
        }
    }

    /// What every stream has.
    pub fn common(&self) -> (c: &Common)
        ensures
            *c == match self {
                Stream::Audio(a) => a.common(),
                Stream::Video(v) => v.common(),
            },
    {
        match self {
            Stream::Audio(a) => a.common_ref(),
            Stream::Video(v) => v.common_ref(),
        }
    }
}

impl std::ops::Deref for Stream {
    type Target = Common;

    fn deref(&self) -> (c: &Common)
        ensures
            *c == match self {
                Stream::Audio(a) => a.common(),
                Stream::Video(v) => v.common(),
            },
    {
        self.common()
    }
}

/// The streams that the reply of the player endpoint describes, one for each
/// of its adaptive formats, in order; or the error it reports.
pub fn streams_from_reply(reply: StreamResult) -> (r: crate::Result<Vec<Stream>>)
    ensures
        match reply {
            PlayerResult::Playable(p) => r matches Ok(v) && v@.len()
                == p.streaming_data.adaptive_formats@.len() && forall|i: int|
                0 <= i < v@.len() ==> made_from(
                    p.streaming_data.adaptive_formats@[i],
                    #[trigger] v@[i],
                ),
            PlayerResult::Error { playability_status } => r matches Err(e) && e@
                == crate::error::ErrorView::Youtube(spec_as_error(playability_status.reason@)),
        },
{
    let player_response = match reply.into_std() {
        Ok(p) => p,
        Err(e) => {
            return Err(e);
        },
    };
    let mut formats = player_response.streaming_data.adaptive_formats;
    let ghost all = formats@;
    let mut streams: Vec<Stream> = Vec::new();
    while formats.len() > 0
        invariant
            streams@.len() + formats@.len() == all.len(),
            formats@ == all.subrange(streams@.len() as int, all.len() as int),
            forall|i: int| 0 <= i < streams@.len() ==> made_from(all[i], #[trigger] streams@[i]),
        decreases formats@.len(),
    {
        let ghost before = formats@;
        let f = formats.remove(0);
        proof {
            assert(f == all[streams@.len() as int]);
        }
        streams.push(Stream::new(f));
        proof {
            assert(formats@ =~= all.subrange(streams@.len() as int, all.len() as int));
        }
    }
    Ok(streams)
}

} // verus!
