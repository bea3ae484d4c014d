//! The samples of a block, before any transform: how an interleaved
//! block falls into channels, and how often a channel's signal changes its
//! sign.
//!
//! A sample is the bit pattern of a single-precision number (see
//! [`crate::binary32`]).

use vstd::prelude::*;
use crate::analyzer::AnalyzerError;
use crate::binary32::{is_positive, positive};

verus! {

/// What an interleaved block holds for each channel: channel `c` gets the
/// samples at `c`, `c + channels`, `c + 2 * channels`, and so on.
pub open spec fn deinterleaved(data: Seq<u32>, channels: int) -> Seq<Seq<u32>>
    recommends
        channels > 0,
{
    Seq::new(
        channels as nat,
        |c: int| Seq::new((data.len() / channels as nat) as nat, |i: int| data[i * channels + c]),
    )
}

/// The samples of one channel of an interleaved block.
fn channel_of(data: &[u32], channels: usize, channel: usize) -> (r: Vec<u32>)
    requires
        channel < channels,
        data@.len() % channels as nat == 0,
    ensures
        r@ == deinterleaved(data@, channels as int)[channel as int],
{
    let len: usize = data.len();
    let frames: usize = len / channels;
    let mut out: Vec<u32> = Vec::new();
    let mut i: usize = 0;
    while i < frames
        invariant
            channel < channels,
            len == data@.len(),
            frames == data@.len() / channels as nat,
            data@.len() % channels as nat == 0,
            i <= frames,
            out@.len() == i,
            forall|j: int|
                0 <= j < i ==> out@[j] == deinterleaved(
                    data@,
                    channels as int,
                )[channel as int][j],
        decreases frames - i,
    {
        assert(0 <= i * channels && i * channels + channel < data@.len()) by (nonlinear_arith)
            requires
                0 <= i < frames,
                channel < channels,
                frames == data@.len() / channels as nat,
                data@.len() % channels as nat == 0,
        ;
        let at: usize = i * channels + channel;
        out.push(data[at]);
        i += 1;
    }
    assert(out@ =~= deinterleaved(data@, channels as int)[channel as int]);
    out
}

/// Separates an interleaved block into one buffer for each channel.
pub fn deinterleave(data: &[u32], channels: usize) -> (r: Result<Vec<Vec<u32>>, AnalyzerError>)
    ensures
        channels == 0 ==> r == Err::<Vec<Vec<u32>>, AnalyzerError>(AnalyzerError::NoChannels),
        channels > 0 && data@.len() % channels as nat != 0 ==> r == Err::<
            Vec<Vec<u32>>,
            AnalyzerError,
        >(AnalyzerError::RaggedBlock),
        channels > 0 && data@.len() % channels as nat == 0 ==> r is Ok && r->Ok_0.deep_view()
            == deinterleaved(data@, channels as int),
        r is Ok ==> r->Ok_0@.len() == channels && forall|c: int|
            0 <= c < channels ==> (#[trigger] r->Ok_0@[c])@.len() == data@.len() / channels as nat,
{
    if channels == 0 {
        return Err(AnalyzerError::NoChannels);
    }
    if data.len() % channels != 0 {
        return Err(AnalyzerError::RaggedBlock);
    }
    let mut out: Vec<Vec<u32>> = Vec::new();
    let mut c: usize = 0;
    while c < channels
        invariant
            c <= channels,
            data@.len() % channels as nat == 0,
            out@.len() == c,
            forall|k: int|
                0 <= k < c ==> (#[trigger] out@[k])@ == deinterleaved(data@, channels as int)[k],
        decreases channels - c,
    {
        let one = channel_of(data, channels, c);
        out.push(one);
        c += 1;
    }
    assert(out.deep_view() =~~= deinterleaved(data@, channels as int));
    Ok(out)
}

/// The number of places in a channel's samples where the sign changes
/// from one sample to the next. A sample counts as positive when it
/// compares greater than zero, and as negative otherwise.
pub open spec fn sign_changes(samples: Seq<u32>) -> nat
    decreases samples.len(),
{
    if samples.len() < 2 {
        0
    } else {
        let n = samples.len() as int;
        let here: nat = if is_positive(samples[n - 2]) != is_positive(samples[n - 1]) {
            1
        } else {
            0
        };
        sign_changes(samples.drop_last()) + here
    }
}

/// There is at most one sign change for each pair of neighbours.
pub proof fn sign_changes_bounded(samples: Seq<u32>)
    ensures
        samples.len() == 0 ==> sign_changes(samples) == 0,
        samples.len() > 0 ==> sign_changes(samples) <= samples.len() - 1,
    decreases samples.len(),
{
    if samples.len() >= 2 {
        sign_changes_bounded(samples.drop_last());
    }
}

/// A block in which no sample is positive has no sign change. Silence is
/// such a block.
pub proof fn sign_changes_of_silence(samples: Seq<u32>)
    requires
        forall|i: int| 0 <= i < samples.len() ==> !is_positive(#[trigger] samples[i]),
    ensures
        sign_changes(samples) == 0,
    decreases samples.len(),
{
    if samples.len() >= 2 {
        sign_changes_of_silence(samples.drop_last());
    }
}

/// Counts the sign changes between neighbouring samples of one channel.
/// The zero-crossing rate is this count divided by the number of samples.
pub fn zero_crossings(samples: &[u32]) -> (r: usize)
    ensures
        r == sign_changes(samples@),
        samples@.len() > 0 ==> r < samples@.len(),
{
    let n: usize = samples.len();
    if n < 2 {
        return 0;
    }
    let mut count: usize = 0;
    let mut i: usize = 1;
    assert(sign_changes(samples@.take(1)) == 0);
    while i < n
        invariant
            1 <= i <= n,
            n == samples@.len(),
            count == sign_changes(samples@.take(i as int)),
            count < i,
        decreases n - i,
    {
        let flips: bool = positive(samples[i - 1]) != positive(samples[i]);
        proof {
            let next = samples@.take(i + 1);
            assert(next.drop_last() =~= samples@.take(i as int));
        }
        if flips {
            count += 1;
        }
        i += 1;
    }
    assert(samples@.take(n as int) =~= samples@);
    count
}

} // verus!
