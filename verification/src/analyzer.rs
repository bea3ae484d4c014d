//! The part of the spectral analysis that outlives a block, and its
//! last step: what an analysis publishes.
//!
//! The transform and the sums over its output are floating-point work and
//! are the caller's. The caller gets from here the channels of a block
//! ([`crate::samples`]), the bins of each band ([`crate::bands`]) and the
//! previous frame of each channel, and hands back the features it has
//! measured.

use vstd::prelude::*;
use crate::features::{AudioFeatures, Features};
use crate::samples::{deinterleave, deinterleaved};

verus! {

/// Why an analyzer refused its input.
#[derive(Clone, Copy, Debug, PartialEq, Eq, Structural)]
pub enum AnalyzerError {
    /// An analyzer was asked for with no channel at all.
    NoChannels,
    /// The length of a block is not a multiple of the channel count.
    RaggedBlock,
}

/// The part of the analysis that outlives a block: the stream's shape, the
/// previous frame of every channel, and the features published last.
pub struct Analyzer {
    channel_count: u16,
    sample_rate: u32,
    last_frame_buffer: Vec<Vec<u32>>,
    audio_features: AudioFeatures,
}

impl Analyzer {
    /// The analyzer is in a state that its own functions leave it in: it has
    /// at least one channel, keeps one frame for each, and what it has
    /// published is well formed.
    pub closed spec fn well_formed(self) -> bool {
        &&& self.channel_count >= 1
        &&& self.last_frame_buffer@.len() == self.channel_count
        &&& self.audio_features@.well_formed()
    }

    /// The number of channels of the stream.
    pub closed spec fn channels(self) -> int {
        self.channel_count as int
    }

    /// The number of samples a second of one channel.
    pub closed spec fn rate(self) -> int {
        self.sample_rate as int
    }

    /// The frame kept for each channel: the one handed in last, or an empty
    /// one if none was.
    pub closed spec fn frames(self) -> Seq<Seq<u32>> {
        self.last_frame_buffer.deep_view()
    }

    /// The features published last, or zero in every one if none were.
    pub closed spec fn published(self) -> Features {
        self.audio_features@
    }

    /// An analyzer for a stream of `channel_count` channels. It starts
    /// with an empty frame for every channel and with zero in every
    /// feature. A stream without a channel is refused.
    pub fn new(channel_count: u16, sample_rate: u32) -> (r: Result<Analyzer, AnalyzerError>)
        ensures
            channel_count == 0 ==> r is Err && r->Err_0 == AnalyzerError::NoChannels,
            channel_count > 0 ==> r is Ok && r->Ok_0.well_formed() && r->Ok_0.channels()
                == channel_count
                && r->Ok_0.rate() == sample_rate && r->Ok_0.published() == Features::zeroed()
                && r->Ok_0.frames() == Seq::new(channel_count as nat, |c: int| Seq::<u32>::empty()),
    {
        if channel_count < 1 {
            return Err(AnalyzerError::NoChannels);
        }
        let mut frames: Vec<Vec<u32>> = Vec::new();
        let mut c: u16 = 0;
        while c < channel_count
            invariant
                c <= channel_count,
                frames@.len() == c,
                forall|k: int| 0 <= k < c ==> (#[trigger] frames@[k])@ == Seq::<u32>::empty(),
            decreases channel_count - c,
        {
            frames.push(Vec::new());
            c += 1;
        }
        assert(frames.deep_view() =~~= Seq::new(
            channel_count as nat,
            |c: int| Seq::<u32>::empty(),
        ));
        Ok(
            Analyzer {
                channel_count,
                sample_rate,
                last_frame_buffer: frames,
                audio_features: AudioFeatures::default(),
            },
        )
    }

    /// The number of channels of the stream.
    pub fn channel_count(&self) -> (r: u16)
        requires
            self.well_formed(),
        ensures
            r == self.channels(),
            r >= 1,
    {
        self.channel_count
    }

    /// The number of samples a second of one channel.
    pub fn sample_rate(&self) -> (r: u32)
        ensures
            r == self.rate(),
    {
        self.sample_rate
    }

    /// The store of the features published last.
    pub fn audio_features(&self) -> (r: &AudioFeatures)
        requires
            self.well_formed(),
        ensures
            r@ == self.published(),
            r@.well_formed(),
    {
        &self.audio_features
    }

    /// Separates an interleaved block into one buffer for each channel of
    /// the stream. A block whose length is not a multiple of the channel
    /// count is refused.
    pub fn split_channels(&self, data: &[u32]) -> (r: Result<Vec<Vec<u32>>, AnalyzerError>)
        requires
            self.well_formed(),
        ensures
            data@.len() % self.channels() as nat != 0 ==> r is Err && r->Err_0
                == AnalyzerError::RaggedBlock,
            data@.len() % self.channels() as nat == 0 ==> r is Ok && r->Ok_0.deep_view()
                == deinterleaved(data@, self.channels()),
    {
        let channels: usize = self.channel_count as usize;
        deinterleave(data, channels)
    }

    /// Keeps `frame` as the latest frame of `channel` and hands back the
    /// frame that was kept for it until now: the one to measure the
    /// spectral flux of `frame` against. For a channel that the stream
    /// does not have, nothing is kept and `None` comes back.
    pub fn exchange_frame(&mut self, channel: usize, frame: Vec<u32>) -> (r: Option<Vec<u32>>)
        requires
            old(self).well_formed(),
        ensures
            final(self).well_formed(),
            final(self).channels() == old(self).channels(),
            final(self).rate() == old(self).rate(),
            final(self).published() == old(self).published(),
            channel >= old(self).channels() ==> r is None && final(self).frames() == old(
                self,
            ).frames(),
            channel < old(self).channels() ==> r is Some && r->Some_0@ == old(
                self,
            ).frames()[channel as int] && final(self).frames() == old(self).frames().update(
                channel as int,
                frame@,
            ),
    {
        if channel >= self.last_frame_buffer.len() {
            return None;
        }
        let mut previous = frame;
        std::mem::swap(&mut self.last_frame_buffer[channel], &mut previous);
        assert(self.last_frame_buffer.deep_view() =~~= old(
            self,
        ).last_frame_buffer.deep_view().update(channel as int, frame@));
        Some(previous)
    }

    /// Publishes the features of a block: the set is made fit (see
    /// [`Features::sanitized`]) and stored in place of the one before.
    ///
    /// Whatever is handed in, what is published holds a finite number in
    /// every feature, and a number between zero and one in every feature
    /// but the total variation.
    pub fn publish(&mut self, raw: Features) -> (r: Features)
        requires
            old(self).well_formed(),
        ensures
            final(self).well_formed(),
            r == raw.cleaned(),
            r.well_formed(),
            final(self).published() == r,
            final(self).channels() == old(self).channels(),
            final(self).rate() == old(self).rate(),
            final(self).frames() == old(self).frames(),
    {
        let fit = raw.sanitized();
        self.audio_features.write(fit);
        fit
    }
}

} // verus!
