//! Streams that hold only audio.

use vstd::prelude::*;
use crate::youtube::player_response::AudioFormat;

verus! {

/// A [`Stream`](super::Stream) specifically containing audio data.
pub struct Stream {
    common: super::common::Stream,
    audio: AudioFormat,
}

impl Stream {
    /// What every stream has.
    pub closed spec fn common(self) -> super::common::Stream {
        self.common
    }

    /// What only audio streams have.
    pub closed spec fn audio(self) -> AudioFormat {
        self.audio
    }

    /// The audio stream made of `common` and `audio`.
    pub fn new(common: super::common::Stream, audio: AudioFormat) -> (s: Stream)
        ensures
            s.common() == common,
            s.audio() == audio,
    {
        Stream { common, audio }
    }

    /// What every stream has.
    pub fn common_ref(&self) -> (c: &super::common::Stream)
        ensures
            *c == self.common(),
    {
        &self.common
    }

    /// The sample rate of a [`Stream`].
    pub fn sample_rate(&self) -> (r: u64)
        ensures
            r == self.audio().audio_sample_rate,
    {
        self.audio.audio_sample_rate
    }

    /// The amount of channels of a [`Stream`].
    pub fn channels(&self) -> (n: u64)
        ensures
            n == self.audio().audio_channels,
    {
        self.audio.audio_channels
    }
}

impl std::ops::Deref for Stream {
    type Target = super::common::Stream;

    fn deref(&self) -> (c: &super::common::Stream)
        ensures
            *c == self.common(),
    {
        &self.common
    }
}

} // verus!
